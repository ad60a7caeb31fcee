//! The record store: lending records held in memory, with the checks the
//! schema used to enforce (column widths, date range, referential
//! integrity) stated and proved on every operation.

pub mod book;
pub mod guild;
pub mod member;
pub mod rental;
pub mod rpgsystem;
pub mod title;

use vstd::prelude::*;

use crate::error::Error;
use crate::settings::DatabaseSettings;
pub use book::Book;
pub use book::BookV;
pub use guild::Guild;
pub use guild::GuildV;
pub use member::Member;
pub use member::MemberV;
pub use member::MemberId;
pub use rental::Rental;
pub use rental::RentalId;
pub use rpgsystem::RpgSystem;
pub use rpgsystem::RpgSystemV;
pub use rpgsystem::RpgSystemId;
pub use title::Title;
pub use title::TitleV;

verus! {

/// Width of a text column: any longer value is refused with `DataTooLong`.
pub const VARCHAR_LENGTH: usize = 255;

pub type Id = u64;

pub type EntityId = u64;

pub type BookId = Id;

pub type TitleId = Id;

pub type GuildId = Id;

/// An external identity, as issued by the identity provider.
pub type ExternalId = String;

/// Whether a text value fits a text column.
pub open spec fn varchar_ok(s: Seq<char>) -> bool {
    s.len() <= 255
}

/// A calendar date, as the storable range of a date column admits it.
#[derive(Debug, Clone, Copy, PartialEq, Eq, Structural)]
pub struct Date {
    pub year: i32,
    pub month: u32,
    pub day: u32,
}

impl Date {
    /// A date from its three constituents.
    pub fn new(year: i32, month: u32, day: u32) -> (r: Date)
        ensures
            r == (Date { year, month, day }),
    {
        Date { year, month, day }
    }
}

/// Whether a date lies in the storable range.
pub open spec fn date_valid(d: Date) -> bool {
    &&& 1000 <= d.year <= 9999
    &&& 1 <= d.month <= 12
    &&& 1 <= d.day <= 31
}

/// Checks a date against the storable range.
pub fn check_date_valid(d: &Date) -> (r: bool)
    ensures
        r == date_valid(*d),
{
    1000 <= d.year && d.year <= 9999 && 1 <= d.month && d.month <= 12 && 1 <= d.day && d.day <= 31
}

/// Checks a text value against the column width.
pub fn check_varchar(s: &str) -> (r: bool)
    ensures
        r == varchar_ok(s@),
{
    s.unicode_len() <= VARCHAR_LENGTH
}

/// Who holds or lends a book: an individual member or a guild.
#[derive(Debug, Clone, Copy, PartialEq, Eq, Structural, Hash)]
pub enum EntityType {
    Member,
    Guild,
}

impl EntityType {
    /// Reads an entity type from its stored text, `"member"` or `"guild"`.
    pub fn from_str(s: &str) -> (r: Result<EntityType, ()>)
        ensures
            s@ == "member"@ ==> r == Ok::<EntityType, ()>(EntityType::Member),
            s@ == "guild"@ ==> r == Ok::<EntityType, ()>(EntityType::Guild),
            s@ != "member"@ && s@ != "guild"@ ==> r is Err,
    {
        proof {
            reveal_strlit("member");
            reveal_strlit("guild");
            assert("member"@.len() == 6);
            assert("guild"@.len() == 5);
        }
        let o = s.to_owned();
        let is_member = o == "member".to_owned();
        let is_guild = o == "guild".to_owned();
        proof {
            assert(is_member == (s@ == "member"@));
            assert(is_guild == (s@ == "guild"@));
        }
        if is_member {
            Ok(EntityType::Member)
        } else if is_guild {
            Ok(EntityType::Guild)
        } else {
            Err(())
        }
    }
}

/// The whole record store. A fresh store is empty; every insertion hands out
/// the next unused id and appends; updates and deletions work on the first
/// record carrying the named id.
#[derive(Debug)]
pub struct Database {
    pub(crate) rpg_systems: Vec<RpgSystem>,
    pub(crate) titles: Vec<Title>,
    pub(crate) books: Vec<Book>,
    pub(crate) members: Vec<Member>,
    pub(crate) guilds: Vec<Guild>,
    pub(crate) rentals: Vec<Rental>,
    pub(crate) next_id: u64,
}

/// Mathematical model of the whole record store.
#[verifier::ext_equal]
pub ghost struct DatabaseV {
    pub rpg_systems: Seq<RpgSystemV>,
    pub titles: Seq<TitleV>,
    pub books: Seq<BookV>,
    pub members: Seq<MemberV>,
    pub guilds: Seq<GuildV>,
    pub rentals: Seq<Rental>,
    pub next_id: u64,
}

impl View for Database {
    type V = DatabaseV;

    closed spec fn view(&self) -> DatabaseV {
        DatabaseV {
            rpg_systems: self.rpg_systems.deep_view(),
            titles: self.titles.deep_view(),
            books: self.books.deep_view(),
            members: self.members.deep_view(),
            guilds: self.guilds.deep_view(),
            rentals: self.rentals.deep_view(),
            next_id: self.next_id,
        }
    }
}

/// Whether the model is the empty store.
pub open spec fn empty_db(dbv: DatabaseV) -> bool {
    &&& dbv.rpg_systems == Seq::<RpgSystemV>::empty()
    &&& dbv.titles == Seq::<TitleV>::empty()
    &&& dbv.books == Seq::<BookV>::empty()
    &&& dbv.members == Seq::<MemberV>::empty()
    &&& dbv.guilds == Seq::<GuildV>::empty()
    &&& dbv.rentals == Seq::<Rental>::empty()
    &&& dbv.next_id == 1
}

/// Whether some stored book carries the given id.
pub open spec fn book_with_id(books: Seq<BookV>, id: BookId) -> bool {
    exists|i: int| 0 <= i < books.len() && books[i].id == Some(id)
}

/// Whether some stored member carries the given id.
pub open spec fn member_with_id(members: Seq<MemberV>, id: EntityId) -> bool {
    exists|i: int| 0 <= i < members.len() && members[i].id == Some(id)
}

/// Whether some stored guild carries the given id.
pub open spec fn guild_with_id(guilds: Seq<GuildV>, id: EntityId) -> bool {
    exists|i: int| 0 <= i < guilds.len() && guilds[i].id == Some(id)
}

/// Whether some stored title carries the given id.
pub open spec fn title_with_id(titles: Seq<TitleV>, id: TitleId) -> bool {
    exists|i: int| 0 <= i < titles.len() && titles[i].id == Some(id)
}

/// Whether some stored system carries the given id.
pub open spec fn system_with_id(systems: Seq<RpgSystemV>, id: Id) -> bool {
    exists|i: int| 0 <= i < systems.len() && systems[i].id == Some(id)
}

/// Whether the named rentee exists among members or guilds, as the rentee
/// type directs.
pub open spec fn rentee_exists(dbv: DatabaseV, rentee_type: EntityType, rentee: EntityId) -> bool {
    match rentee_type {
        EntityType::Member => member_with_id(dbv.members, rentee),
        EntityType::Guild => guild_with_id(dbv.guilds, rentee),
    }
}

/// The first stored system at or after `from` carrying the given id.
pub open spec fn first_system_from(systems: Seq<RpgSystemV>, id: Id, from: int) -> Option<
    RpgSystemV,
>
    decreases systems.len() - from when 0 <= from <= systems.len()
{
    if from >= systems.len() {
        None
    } else if systems[from].id == Some(id) {
        Some(systems[from])
    } else {
        first_system_from(systems, id, from + 1)
    }
}

/// The first stored system carrying the given id.
pub open spec fn first_system(systems: Seq<RpgSystemV>, id: Id) -> Option<RpgSystemV> {
    first_system_from(systems, id, 0)
}

pub(crate) proof fn lemma_first_system_prefix(systems: Seq<RpgSystemV>, id: Id, a: int, b: int)
    requires
        0 <= a <= b <= systems.len(),
        forall|j: int| a <= j < b ==> systems[j].id != Some(id),
    ensures
        first_system_from(systems, id, a) == first_system_from(systems, id, b),
    decreases b - a,
{
    if a < b {
        lemma_first_system_prefix(systems, id, a + 1, b);
    }
}

/// The first stored title at or after `from` carrying the given id.
pub open spec fn first_title_from(titles: Seq<TitleV>, id: TitleId, from: int) -> Option<TitleV>
    decreases titles.len() - from when 0 <= from <= titles.len()
{
    if from >= titles.len() {
        None
    } else if titles[from].id == Some(id) {
        Some(titles[from])
    } else {
        first_title_from(titles, id, from + 1)
    }
}

/// The first stored title carrying the given id.
pub open spec fn first_title(titles: Seq<TitleV>, id: TitleId) -> Option<TitleV> {
    first_title_from(titles, id, 0)
}

pub(crate) proof fn lemma_first_title_prefix(titles: Seq<TitleV>, id: TitleId, a: int, b: int)
    requires
        0 <= a <= b <= titles.len(),
        forall|j: int| a <= j < b ==> titles[j].id != Some(id),
    ensures
        first_title_from(titles, id, a) == first_title_from(titles, id, b),
    decreases b - a,
{
    if a < b {
        lemma_first_title_prefix(titles, id, a + 1, b);
    }
}

/// The first stored guild at or after `from` carrying the given id.
pub open spec fn first_guild_from(guilds: Seq<GuildV>, id: GuildId, from: int) -> Option<GuildV>
    decreases guilds.len() - from when 0 <= from <= guilds.len()
{
    if from >= guilds.len() {
        None
    } else if guilds[from].id == Some(id) {
        Some(guilds[from])
    } else {
        first_guild_from(guilds, id, from + 1)
    }
}

/// The first stored guild carrying the given id.
pub open spec fn first_guild(guilds: Seq<GuildV>, id: GuildId) -> Option<GuildV> {
    first_guild_from(guilds, id, 0)
}

pub(crate) proof fn lemma_first_guild_prefix(guilds: Seq<GuildV>, id: GuildId, a: int, b: int)
    requires
        0 <= a <= b <= guilds.len(),
        forall|j: int| a <= j < b ==> guilds[j].id != Some(id),
    ensures
        first_guild_from(guilds, id, a) == first_guild_from(guilds, id, b),
    decreases b - a,
{
    if a < b {
        lemma_first_guild_prefix(guilds, id, a + 1, b);
    }
}

/// The first stored rental at or after `from` lending the given book.
pub open spec fn first_rental_from(rentals: Seq<Rental>, book: BookId, from: int) -> Option<Rental>
    decreases rentals.len() - from when 0 <= from <= rentals.len()
{
    if from >= rentals.len() {
        None
    } else if rentals[from].book == book {
        Some(rentals[from])
    } else {
        first_rental_from(rentals, book, from + 1)
    }
}

/// The first stored rental lending the given book.
pub open spec fn first_rental(rentals: Seq<Rental>, book: BookId) -> Option<Rental> {
    first_rental_from(rentals, book, 0)
}

pub(crate) proof fn lemma_first_rental_prefix(rentals: Seq<Rental>, book: BookId, a: int, b: int)
    requires
        0 <= a <= b <= rentals.len(),
        forall|j: int| a <= j < b ==> rentals[j].book != book,
    ensures
        first_rental_from(rentals, book, a) == first_rental_from(rentals, book, b),
    decreases b - a,
{
    if a < b {
        lemma_first_rental_prefix(rentals, book, a + 1, b);
    }
}

/// How many stored books at or after `from` belong to the given title.
pub open spec fn stock_from(books: Seq<BookV>, title: TitleId, from: int) -> int
    decreases books.len() - from when 0 <= from <= books.len()
{
    if from >= books.len() {
        0
    } else {
        (if books[from].title == title {
            1int
        } else {
            0int
        }) + stock_from(books, title, from + 1)
    }
}

/// How many stored books belong to the given title.
pub open spec fn stock_of(books: Seq<BookV>, title: TitleId) -> int {
    stock_from(books, title, 0)
}

/// Whether some stored rental lends the book with the given id; a book
/// without an id is lent by nothing.
pub open spec fn book_rented(rentals: Seq<Rental>, id: Option<BookId>) -> bool {
    match id {
        None => false,
        Some(b) => exists|k: int| 0 <= k < rentals.len() && rentals[k].book == b,
    }
}

/// How many stored books at or after `from` belong to the given title and
/// stand in no rental.
pub open spec fn avail_from(
    books: Seq<BookV>,
    rentals: Seq<Rental>,
    title: TitleId,
    from: int,
) -> int
    decreases books.len() - from when 0 <= from <= books.len()
{
    if from >= books.len() {
        0
    } else {
        (if books[from].title == title && !book_rented(rentals, books[from].id) {
            1int
        } else {
            0int
        }) + avail_from(books, rentals, title, from + 1)
    }
}

/// How many stored books belong to the given title and stand in no rental.
pub open spec fn avail_of(books: Seq<BookV>, rentals: Seq<Rental>, title: TitleId) -> int {
    avail_from(books, rentals, title, 0)
}

impl Database {
    /// A fresh, empty store. The connection text names where a persistent
    /// store would live; it is kept aside here, and no shape of it is
    /// refused.
    pub fn new(url: String) -> (r: Result<Database, Error>)
        ensures
            r matches Ok(db) && empty_db(db@),
    {
        let db = Database {
            rpg_systems: Vec::new(),
            titles: Vec::new(),
            books: Vec::new(),
            members: Vec::new(),
            guilds: Vec::new(),
            rentals: Vec::new(),
            next_id: 1,
        };
        proof {
            assert(db@.rpg_systems =~= Seq::<RpgSystemV>::empty());
            assert(db@.titles =~= Seq::<TitleV>::empty());
            assert(db@.books =~= Seq::<BookV>::empty());
            assert(db@.members =~= Seq::<MemberV>::empty());
            assert(db@.guilds =~= Seq::<GuildV>::empty());
            assert(db@.rentals =~= Seq::<Rental>::empty());
        }
        let _ = url;
        Ok(db)
    }

    /// A fresh store from the configured settings.
    pub fn from_settings(settings: &DatabaseSettings) -> (r: Result<Database, Error>)
        ensures
            r matches Ok(db) && empty_db(db@),
    {
        Database::new(settings.url.clone())
    }

    /// Hands out the next unused id, or refuses when the supply is spent.
    pub(crate) fn take_id(&mut self) -> (r: Result<u64, Error>)
        ensures
            old(self)@.next_id == u64::MAX ==> (r matches Err(e) && e == Error::IllegalState)
                && final(self)@ == old(self)@,
            old(self)@.next_id < u64::MAX ==> r == Ok::<u64, Error>(old(self)@.next_id)
                && final(self)@ == (DatabaseV {
                next_id: (old(self)@.next_id + 1) as u64,
                ..old(self)@
            }),
    {
        if self.next_id == u64::MAX {
            return Err(Error::IllegalState);
        }
        let id = self.next_id;
        self.next_id = self.next_id + 1;
        Ok(id)
    }
}

} // verus!
