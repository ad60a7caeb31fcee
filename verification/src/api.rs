//! The shapes the API hands its collaborators: the shared application state
//! and the response/request bodies, as plain data with mathematical models.

use vstd::prelude::*;

use crate::auth::KeycloakCache;
use crate::database::Book;
use crate::database::BookId;
use crate::database::Database;
use crate::database::Date;
use crate::database::EntityId;
use crate::database::EntityType;
use crate::database::Guild;
use crate::database::Member;
use crate::database::RpgSystem;
use crate::database::Title;
use crate::database::TitleId;
use crate::database::rpgsystem::RpgSystemV;
use crate::database::title::TitleV;

verus! {

/// Everything a request handler reaches for: the record store and the
/// identity cache.
#[derive(Debug)]
pub struct AppState {
    pub db: Database,
    pub kc: KeycloakCache,
}

/// The full system listing.
#[derive(Debug)]
pub struct GetRpgSystems {
    pub rpgsystems: Vec<RpgSystem>,
}

/// One system with its titles; stock counts ride along only for callers
/// that are logged in.
#[derive(Debug)]
pub struct GetRpgSystem {
    pub rpgsystem: RpgSystem,
    pub titles: Vec<Title>,
    pub include_stock: bool,
}

impl GetRpgSystem {
    /// Bundles a system with its titles.
    pub fn new(rpgsystem: RpgSystem, titles: Vec<Title>, include_stock: bool) -> (r: GetRpgSystem)
        ensures
            r.rpgsystem@ == rpgsystem@,
            r.titles.deep_view() == titles.deep_view(),
            r.include_stock == include_stock,
    {
        GetRpgSystem { rpgsystem, titles, include_stock }
    }
}

/// A system to store, as a request body carries it.
#[derive(Debug)]
pub struct PutPostRpgSystem {
    pub rpgsystem: RpgSystem,
}

/// One title joined with its system and its stock counts.
#[derive(Debug, Clone, PartialEq, Eq)]
pub struct TitleWithSystem {
    pub id: Option<TitleId>,
    pub name: String,
    pub system: RpgSystem,
    pub language: String,
    pub publisher: String,
    pub year: i32,
    pub coverimage: Option<String>,
    pub stock: usize,
    pub available: usize,
}

/// Mathematical model of a [`TitleWithSystem`].
#[verifier::ext_equal]
pub ghost struct TitleWithSystemV {
    pub id: Option<TitleId>,
    pub name: Seq<char>,
    pub system: RpgSystemV,
    pub language: Seq<char>,
    pub publisher: Seq<char>,
    pub year: i32,
    pub coverimage: Option<Seq<char>>,
    pub stock: usize,
    pub available: usize,
}

impl View for TitleWithSystem {
    type V = TitleWithSystemV;

    open spec fn view(&self) -> TitleWithSystemV {
        TitleWithSystemV {
            id: self.id,
            name: self.name@,
            system: self.system@,
            language: self.language@,
            publisher: self.publisher@,
            year: self.year,
            coverimage: self.coverimage.deep_view(),
            stock: self.stock,
            available: self.available,
        }
    }
}

impl DeepView for TitleWithSystem {
    type V = TitleWithSystemV;

    open spec fn deep_view(&self) -> TitleWithSystemV {
        self.view()
    }
}

/// The model a title, its system and its counts join into.
pub open spec fn title_with_system_v(
    t: TitleV,
    s: RpgSystemV,
    stock: usize,
    available: usize,
) -> TitleWithSystemV {
    TitleWithSystemV {
        id: t.id,
        name: t.name,
        system: s,
        language: t.language,
        publisher: t.publisher,
        year: t.year,
        coverimage: t.coverimage,
        stock,
        available,
    }
}

impl TitleWithSystem {
    /// Joins a title with its system and its counts.
    pub fn new(title: Title, system: RpgSystem, stock: usize, available: usize) -> (r:
        TitleWithSystem)
        ensures
            r@ == title_with_system_v(title@, system@, stock, available),
    {
        let r = TitleWithSystem {
            id: title.id,
            name: title.name,
            system,
            language: title.language,
            publisher: title.publisher,
            year: title.year,
            coverimage: title.coverimage,
            stock,
            available,
        };
        proof {
            assert(r@ =~= title_with_system_v(title@, system@, stock, available));
        }
        r
    }
}

/// The full title listing.
#[derive(Debug)]
pub struct GetTitles {
    pub titles: Vec<TitleWithSystem>,
}

/// One title with its books.
#[derive(Debug)]
pub struct GetTitle {
    pub title: TitleWithSystem,
    pub books: Vec<BookWithOwnerWithRental>,
}

impl GetTitle {
    /// Bundles a joined title with its books.
    pub fn new(
        title: Title,
        system: RpgSystem,
        stock: usize,
        available: usize,
        books: Vec<BookWithOwnerWithRental>,
    ) -> (r: GetTitle)
        ensures
            r.title@ == title_with_system_v(title@, system@, stock, available),
            r.books.deep_view() == books.deep_view(),
    {
        GetTitle { title: TitleWithSystem::new(title, system, stock, available), books }
    }
}

/// A title to store, as a request body carries it.
#[derive(Debug)]
pub struct PutPostTitle {
    pub title: Title,
}

/// A member or a guild, named for display.
#[derive(Debug, Clone, PartialEq, Eq)]
pub struct Entity {
    pub entity_type: EntityType,
    pub id: EntityId,
    pub name: String,
}

/// Mathematical model of an [`Entity`].
#[verifier::ext_equal]
pub ghost struct EntityV {
    pub entity_type: EntityType,
    pub id: EntityId,
    pub name: Seq<char>,
}

impl View for Entity {
    type V = EntityV;

    open spec fn view(&self) -> EntityV {
        EntityV { entity_type: self.entity_type, id: self.id, name: self.name@ }
    }
}

impl DeepView for Entity {
    type V = EntityV;

    open spec fn deep_view(&self) -> EntityV {
        self.view()
    }
}

/// One rental with its rentee named for display.
#[derive(Debug, Clone, PartialEq, Eq)]
pub struct RentalWithRentee {
    pub from: Date,
    pub to: Date,
    pub rentee: Entity,
}

/// Mathematical model of a [`RentalWithRentee`].
#[verifier::ext_equal]
pub ghost struct RentalWithRenteeV {
    pub from: Date,
    pub to: Date,
    pub rentee: EntityV,
}

impl View for RentalWithRentee {
    type V = RentalWithRenteeV;

    open spec fn view(&self) -> RentalWithRenteeV {
        RentalWithRenteeV { from: self.from, to: self.to, rentee: self.rentee@ }
    }
}

impl DeepView for RentalWithRentee {
    type V = RentalWithRenteeV;

    open spec fn deep_view(&self) -> RentalWithRenteeV {
        self.view()
    }
}

/// One book fully joined: its title and system, its owner, and its current
/// rental when one exists.
#[derive(Debug, Clone, PartialEq, Eq)]
pub struct BookWithTitleWithOwnerWithRental {
    pub id: BookId,
    pub quality: String,
    pub available: bool,
    pub external_inventory_id: u32,
    pub rental: Option<RentalWithRentee>,
    pub title: TitleWithSystem,
    pub owner: Entity,
}

/// Mathematical model of a [`BookWithTitleWithOwnerWithRental`].
#[verifier::ext_equal]
pub ghost struct BookFullV {
    pub id: BookId,
    pub quality: Seq<char>,
    pub available: bool,
    pub external_inventory_id: u32,
    pub rental: Option<RentalWithRenteeV>,
    pub title: TitleWithSystemV,
    pub owner: EntityV,
}

impl View for BookWithTitleWithOwnerWithRental {
    type V = BookFullV;

    open spec fn view(&self) -> BookFullV {
        BookFullV {
            id: self.id,
            quality: self.quality@,
            available: self.available,
            external_inventory_id: self.external_inventory_id,
            rental: self.rental.deep_view(),
            title: self.title@,
            owner: self.owner@,
        }
    }
}

impl DeepView for BookWithTitleWithOwnerWithRental {
    type V = BookFullV;

    open spec fn deep_view(&self) -> BookFullV {
        self.view()
    }
}

/// One book with its owner and current rental, but without its title.
#[derive(Debug, Clone, PartialEq, Eq)]
pub struct BookWithOwnerWithRental {
    pub book: Book,
    pub owner: Entity,
    pub rental: Option<RentalWithRentee>,
}

/// Mathematical model of a [`BookWithOwnerWithRental`].
#[verifier::ext_equal]
pub ghost struct BookWithOwnerWithRentalV {
    pub book: crate::database::book::BookV,
    pub owner: EntityV,
    pub rental: Option<RentalWithRenteeV>,
}

impl View for BookWithOwnerWithRental {
    type V = BookWithOwnerWithRentalV;

    open spec fn view(&self) -> BookWithOwnerWithRentalV {
        BookWithOwnerWithRentalV {
            book: self.book@,
            owner: self.owner@,
            rental: self.rental.deep_view(),
        }
    }
}

impl DeepView for BookWithOwnerWithRental {
    type V = BookWithOwnerWithRentalV;

    open spec fn deep_view(&self) -> BookWithOwnerWithRentalV {
        self.view()
    }
}

/// The full book listing.
#[derive(Debug)]
pub struct GetBooks {
    pub books: Vec<BookWithTitleWithOwnerWithRental>,
}

/// A book to store, as a request body carries it.
#[derive(Debug)]
pub struct PutPostBook {
    pub book: Book,
}

/// The full member listing.
#[derive(Debug)]
pub struct GetMembers {
    pub members: Vec<Member>,
}

/// The full guild listing.
#[derive(Debug)]
pub struct GetGuilds {
    pub guilds: Vec<Guild>,
}

/// A guild to store, as a request body carries it.
#[derive(Debug)]
pub struct PutPostGuild {
    pub guild: Guild,
}

} // verus!
