//! The API's working layer: listing, storing and joining records, with the
//! caller's claims deciding only what is included, never what is stored.

use vstd::prelude::*;

use crate::api::BookFullV;
use crate::api::BookWithOwnerWithRental;
use crate::api::BookWithTitleWithOwnerWithRental;
use crate::api::Entity;
use crate::api::EntityV;
use crate::api::GetBooks;
use crate::api::GetGuilds;
use crate::api::GetMembers;
use crate::api::GetRpgSystem;
use crate::api::GetRpgSystems;
use crate::api::GetTitle;
use crate::api::GetTitles;
use crate::api::PutPostGuild;
use crate::api::PutPostRpgSystem;
use crate::api::PutPostTitle;
use crate::api::RentalWithRentee;
use crate::api::RentalWithRenteeV;
use crate::api::TitleWithSystem;
use crate::api::TitleWithSystemV;
use crate::api::title_with_system_v;
use crate::auth::Claims;
use crate::database::BookId;
use crate::database::Database;
use crate::database::DatabaseV;
use crate::database::EntityId;
use crate::database::EntityType;
use crate::database::GuildId;
use crate::database::MemberId;
use crate::database::RpgSystemId;
use crate::database::TitleId;
use crate::database::TitleV;
use crate::database::avail_of;
use crate::database::first_guild;
use crate::database::first_rental;
use crate::database::first_system;
use crate::database::first_title;
use crate::database::stock_of;
use crate::database::title::titles_of;
use crate::error::Error;

verus! {

/// Lists every game system.
pub fn get_rpgsystems(db: &Database) -> (r: Result<GetRpgSystems, Error>)
    ensures
        r matches Ok(g) && g.rpgsystems.deep_view() == db@.rpg_systems,
{
    match db.get_rpg_systems() {
        Ok(rpgsystems) => Ok(GetRpgSystems { rpgsystems }),
        Err(e) => Err(e),
    }
}

/// How many stored books a title has, by its id; an unstored title has none.
pub open spec fn title_stock(dbv: DatabaseV, t: TitleV) -> int {
    match t.id {
        None => 0,
        Some(tid) => stock_of(dbv.books, tid),
    }
}

/// How many of a title's stored books stand in no rental.
pub open spec fn title_avail(dbv: DatabaseV, t: TitleV) -> int {
    match t.id {
        None => 0,
        Some(tid) => avail_of(dbv.books, dbv.rentals, tid),
    }
}

/// One system with its titles; the stock counts are included exactly for a
/// logged-in caller. An unknown system id is answered with `ItemNotFound`.
pub fn get_rpgsystem(db: &Database, claims: Option<Claims>, system_id: RpgSystemId) -> (r: Result<
    GetRpgSystem,
    Error,
>)
    ensures
        ({
            match first_system(db@.rpg_systems, system_id) {
                None => r matches Err(e) && e == Error::ItemNotFound,
                Some(sys) => r matches Ok(g) && g.rpgsystem@ == sys && g.titles.deep_view()
                    == titles_of(db@.titles, system_id) && g.include_stock == (claims is Some),
            }
        }),
{
    let titles = match db.get_titles_by_rpg_system(system_id) {
        Ok(t) => t,
        Err(e) => {
            return Err(e);
        },
    };
    let include_stock = match claims {
        Some(_) => true,
        _ => false,
    };
    match db.get_rpg_system(system_id) {
        Ok(Some(rpgsystem)) => Ok(GetRpgSystem::new(rpgsystem, titles, include_stock)),
        _ => Err(Error::ItemNotFound),
    }
}

/// Stores a new game system; the record's own id plays no part.
pub fn post_rpgsystem(db: &mut Database, _claims: Option<Claims>, system: PutPostRpgSystem) -> (r:
    Result<RpgSystemId, Error>)
    ensures
        !crate::database::varchar_ok(system.rpgsystem@.name) ==> (r matches Err(
            Error::DataTooLong(f),
        ) && f@ == "name"@) && final(db)@ == old(db)@,
        crate::database::varchar_ok(system.rpgsystem@.name) && old(db)@.next_id == u64::MAX ==> (
        r matches Err(e) && e == Error::IllegalState) && final(db)@ == old(db)@,
        crate::database::varchar_ok(system.rpgsystem@.name) && old(db)@.next_id < u64::MAX ==> r
            == Ok::<RpgSystemId, Error>(old(db)@.next_id) && final(db)@ == (DatabaseV {
            rpg_systems: old(db)@.rpg_systems.push(
                crate::database::RpgSystemV {
                    id: Some(old(db)@.next_id),
                    name: system.rpgsystem@.name,
                },
            ),
            next_id: (old(db)@.next_id + 1) as u64,
            ..old(db)@
        }),
{
    match db.insert_rpg_system(system.rpgsystem.name) {
        Ok(sys) => Ok(sys.id.unwrap()),
        Err(e) => Err(e),
    }
}

/// Updates the stored game system carrying the record's id.
pub fn put_rpgsystem(db: &mut Database, _claims: Option<Claims>, system: &PutPostRpgSystem) -> (r:
    Result<(), Error>)
    ensures
        !crate::database::varchar_ok(system.rpgsystem@.name) ==> (r matches Err(
            Error::DataTooLong(f),
        ) && f@ == "name"@) && final(db)@ == old(db)@,
        crate::database::varchar_ok(system.rpgsystem@.name) ==> r is Ok && ({
            let systems = old(db)@.rpg_systems;
            if system.rpgsystem@.id is Some && crate::database::system_with_id(
                systems,
                system.rpgsystem@.id->0,
            ) {
                exists|i: int|
                    0 <= i < systems.len() && systems[i].id == system.rpgsystem@.id && (forall|
                        j: int,
                    |
                        0 <= j < i ==> systems[j].id != system.rpgsystem@.id) && final(db)@
                        == (DatabaseV {
                        rpg_systems: systems.update(i, system.rpgsystem@),
                        ..old(db)@
                    })
            } else {
                final(db)@ == old(db)@
            }
        }),
{
    db.update_rpg_system(&system.rpgsystem)
}

/// Removes the game system carrying the given id; an unknown id is answered
/// with `ItemNotFound`.
pub fn delete_rpgsystem(db: &mut Database, _claims: Option<Claims>, systemid: RpgSystemId) -> (r:
    Result<(), Error>)
    ensures
        ({
            let systems = old(db)@.rpg_systems;
            if crate::database::system_with_id(systems, systemid) {
                r is Ok && exists|i: int|
                    0 <= i < systems.len() && systems[i].id == Some(systemid) && (forall|j: int|
                        0 <= j < i ==> systems[j].id != Some(systemid)) && final(db)@ == (DatabaseV {
                        rpg_systems: systems.remove(i),
                        ..old(db)@
                    })
            } else {
                (r matches Err(e) && e == Error::ItemNotFound) && final(db)@ == old(db)@
            }
        }),
{
    match db.delete_rpg_system(systemid) {
        Ok(true) => Ok(()),
        Ok(false) => Err(Error::ItemNotFound),
        Err(e) => Err(e),
    }
}

/// The stored titles at or after `from`, each joined with its system and
/// its counts; a title whose system is unknown is left out.
pub open spec fn titles_join_from(dbv: DatabaseV, from: int) -> Seq<TitleWithSystemV>
    decreases dbv.titles.len() - from when 0 <= from <= dbv.titles.len()
{
    if from >= dbv.titles.len() {
        Seq::empty()
    } else {
        let t = dbv.titles[from];
        (match first_system(dbv.rpg_systems, t.system) {
            None => Seq::<TitleWithSystemV>::empty(),
            Some(s) => seq![
                title_with_system_v(
                    t,
                    s,
                    title_stock(dbv, t) as usize,
                    title_avail(dbv, t) as usize,
                ),
            ],
        }) + titles_join_from(dbv, from + 1)
    }
}

/// Every stored title joined with its system and its counts.
pub open spec fn titles_join(dbv: DatabaseV) -> Seq<TitleWithSystemV> {
    titles_join_from(dbv, 0)
}

/// Lists every title, joined with its system and its stock counts.
pub fn get_titles(db: &Database) -> (r: Result<GetTitles, Error>)
    ensures
        r matches Ok(g) && g.titles.deep_view() == titles_join(db@),
{
    let titles = match db.get_titles_list() {
        Ok(t) => t,
        Err(e) => {
            return Err(e);
        },
    };
    let mut out: Vec<TitleWithSystem> = Vec::new();
    let mut i: usize = 0;
    while i < titles.len()
        invariant
            i <= titles.len(),
            titles.deep_view() == db@.titles,
            out.deep_view() + titles_join_from(db@, i as int) == titles_join(db@),
        decreases titles.len() - i,
    {
        let ghost dbv = db@;
        let ghost t = db@.titles[i as int];
        proof {
            assert(titles.deep_view()[i as int] == titles@[i as int]@);
            assert(titles_join_from(dbv, i as int) == (match first_system(dbv.rpg_systems, t.system) {
                None => Seq::<TitleWithSystemV>::empty(),
                Some(s) => seq![
                    title_with_system_v(
                        t,
                        s,
                        title_stock(dbv, t) as usize,
                        title_avail(dbv, t) as usize,
                    ),
                ],
            }) + titles_join_from(dbv, i + 1));
        }
        let title = titles[i].duplicate();
        match db.get_rpg_system(title.system) {
            Ok(Some(system)) => {
                let (stock, available) = match title.id {
                    None => (0usize, 0usize),
                    Some(tid) => (db.count_stock(tid), db.count_available(tid)),
                };
                let ghost before = out.deep_view();
                let joined = TitleWithSystem::new(title, system, stock, available);
                proof {
                    assert(joined@ == title_with_system_v(
                        t,
                        first_system(dbv.rpg_systems, t.system)->0,
                        title_stock(dbv, t) as usize,
                        title_avail(dbv, t) as usize,
                    ));
                }
                out.push(joined);
                proof {
                    assert(out.deep_view() =~= before.push(joined@));
                    assert(out.deep_view() + titles_join_from(dbv, i + 1) =~= before
                        + titles_join_from(dbv, i as int));
                }
            },
            _ => {
                proof {
                    assert(out.deep_view() + titles_join_from(dbv, i + 1) =~= out.deep_view()
                        + titles_join_from(dbv, i as int));
                }
            },
        }
        i = i + 1;
    }
    proof {
        assert(titles_join_from(db@, db@.titles.len() as int) =~= Seq::<TitleWithSystemV>::empty());
        assert(out.deep_view() =~= titles_join(db@));
    }
    Ok(GetTitles { titles: out })
}

/// One title with its system, its counts and its books. An unknown title
/// id, or a title whose system is unknown, is answered with `ItemNotFound`.
pub fn get_title(db: &Database, claims: Option<Claims>, title_id: TitleId) -> (r: Result<
    GetTitle,
    Error,
>)
    ensures
        ({
            match first_title(db@.titles, title_id) {
                None => r matches Err(e) && e == Error::ItemNotFound,
                Some(t) => match first_system(db@.rpg_systems, t.system) {
                    None => r matches Err(e) && e == Error::ItemNotFound,
                    Some(s) => r matches Ok(g) && g.title@ == title_with_system_v(
                        t,
                        s,
                        title_stock(db@, t) as usize,
                        title_avail(db@, t) as usize,
                    ) && g.books.deep_view().len() == 0,
                },
            }
        }),
{
    let title = match db.find_title(title_id) {
        None => {
            return Err(Error::ItemNotFound);
        },
        Some(t) => t,
    };
    let system = match db.get_rpg_system(title.system) {
        Ok(Some(s)) => s,
        _ => {
            return Err(Error::ItemNotFound);
        },
    };
    let (stock, available) = match title.id {
        None => (0usize, 0usize),
        Some(tid) => (db.count_stock(tid), db.count_available(tid)),
    };
    let books = match get_books_by_title_id(db, title_id, claims) {
        Ok(b) => b,
        Err(e) => {
            return Err(e);
        },
    };
    Ok(GetTitle::new(title, system, stock, available, books))
}

/// Stores a new title; the record's own id plays no part beyond being
/// replaced by the fresh one.
pub fn post_title(db: &mut Database, _claims: Option<Claims>, title: PutPostTitle) -> (r: Result<
    TitleId,
    Error,
>)
    ensures
        !crate::database::varchar_ok(title.title@.name) ==> (r matches Err(Error::DataTooLong(f))
            && f@ == "name"@) && final(db)@ == old(db)@,
        crate::database::varchar_ok(title.title@.name) && !crate::database::system_with_id(
            old(db)@.rpg_systems,
            title.title@.system,
        ) ==> (r matches Err(Error::ConstraintError(f)) && f@ == "system"@) && final(db)@ == old(db)@,
        crate::database::varchar_ok(title.title@.name) && crate::database::system_with_id(
            old(db)@.rpg_systems,
            title.title@.system,
        ) && old(db)@.next_id == u64::MAX ==> (r matches Err(e) && e == Error::IllegalState)
            && final(db)@ == old(db)@,
        crate::database::varchar_ok(title.title@.name) && crate::database::system_with_id(
            old(db)@.rpg_systems,
            title.title@.system,
        ) && old(db)@.next_id < u64::MAX ==> r == Ok::<TitleId, Error>(old(db)@.next_id) && final(db)@ == (DatabaseV {
            titles: old(db)@.titles.push(TitleV { id: Some(old(db)@.next_id), ..title.title@ }),
            next_id: (old(db)@.next_id + 1) as u64,
            ..old(db)@
        }),
{
    db.insert_title(&title.title)
}

/// Updates the stored title carrying the record's id.
pub fn put_title(db: &mut Database, _claims: Option<Claims>, title: PutPostTitle) -> (r: Result<
    (),
    Error,
>)
    ensures
        !crate::database::varchar_ok(title.title@.name) ==> (r matches Err(Error::DataTooLong(f))
            && f@ == "name"@) && final(db)@ == old(db)@,
        crate::database::varchar_ok(title.title@.name) ==> r is Ok && ({
            let titles = old(db)@.titles;
            if title.title@.id is Some && crate::database::title_with_id(
                titles,
                title.title@.id->0,
            ) {
                exists|i: int|
                    0 <= i < titles.len() && titles[i].id == title.title@.id && (forall|j: int|
                        0 <= j < i ==> titles[j].id != title.title@.id) && final(db)@ == (DatabaseV {
                        titles: titles.update(i, title.title@),
                        ..old(db)@
                    })
            } else {
                final(db)@ == old(db)@
            }
        }),
{
    db.update_title(&title.title)
}

/// Removes the title carrying the given id; removing an unknown id changes
/// nothing and is no error.
pub fn delete_title(db: &mut Database, _claims: Option<Claims>, id: TitleId) -> (r: Result<
    (),
    Error,
>)
    ensures
        r is Ok,
        ({
            let titles = old(db)@.titles;
            if crate::database::title_with_id(titles, id) {
                exists|i: int|
                    0 <= i < titles.len() && titles[i].id == Some(id) && (forall|j: int|
                        0 <= j < i ==> titles[j].id != Some(id)) && final(db)@ == (DatabaseV {
                        titles: titles.remove(i),
                        ..old(db)@
                    })
            } else {
                final(db)@ == old(db)@
            }
        }),
{
    match db.delete_title(id) {
        Ok(_) => Ok(()),
        Err(e) => Err(e),
    }
}

/// The books of one title, with owners and rentals. Not yet wired to the
/// store: every title answers with no books.
fn get_books_by_title_id(_db: &Database, _id: TitleId, _claims: Option<Claims>) -> (r: Result<
    Vec<BookWithOwnerWithRental>,
    Error,
>)
    ensures
        r matches Ok(v) && v.deep_view().len() == 0,
{
    Ok(vec![])
}

/// A member or guild named for display: a guild is named from its record,
/// and an unknown guild refuses the join; the member directory lives with
/// the identity provider, so a member is shown with a placeholder name.
pub open spec fn entity_join(dbv: DatabaseV, entity_type: EntityType, id: EntityId) -> Option<
    EntityV,
> {
    match entity_type {
        EntityType::Guild => match first_guild(dbv.guilds, id) {
            None => None,
            Some(g) => Some(EntityV { entity_type, id, name: g.name }),
        },
        EntityType::Member => Some(EntityV { entity_type, id, name: "NO DATA"@ }),
    }
}

/// One book fully joined: its title with system, its owner, and its current
/// rental with the rentee named; `None` when any reference does not
/// resolve, an unstored book included.
pub open spec fn book_join(dbv: DatabaseV, b: crate::database::BookV) -> Option<BookFullV> {
    match b.id {
        None => None,
        Some(bid) => match first_title(dbv.titles, b.title) {
            None => None,
            Some(t) => match first_system(dbv.rpg_systems, t.system) {
                None => None,
                Some(s) => match entity_join(dbv, b.owner_type, b.owner) {
                    None => None,
                    Some(ov) => match first_rental(dbv.rentals, bid) {
                        None => Some(
                            BookFullV {
                                id: bid,
                                quality: b.quality,
                                available: true,
                                external_inventory_id: b.external_inventory_id,
                                rental: None,
                                title: title_with_system_v(t, s, 0, 0),
                                owner: ov,
                            },
                        ),
                        Some(rent) => match entity_join(dbv, rent.rentee_type, rent.rentee) {
                            None => None,
                            Some(rv) => Some(
                                BookFullV {
                                    id: bid,
                                    quality: b.quality,
                                    available: false,
                                    external_inventory_id: b.external_inventory_id,
                                    rental: Some(
                                        RentalWithRenteeV {
                                            from: rent.from,
                                            to: rent.to,
                                            rentee: rv,
                                        },
                                    ),
                                    title: title_with_system_v(t, s, 0, 0),
                                    owner: ov,
                                },
                            ),
                        },
                    },
                },
            },
        },
    }
}

/// The stored books at or after `from`, each fully joined; `None` as soon
/// as any book's references do not resolve.
pub open spec fn books_join_from(dbv: DatabaseV, from: int) -> Option<Seq<BookFullV>>
    decreases dbv.books.len() - from when 0 <= from <= dbv.books.len()
{
    if from >= dbv.books.len() {
        Some(Seq::empty())
    } else {
        match book_join(dbv, dbv.books[from]) {
            None => None,
            Some(bf) => match books_join_from(dbv, from + 1) {
                None => None,
                Some(rest) => Some(seq![bf] + rest),
            },
        }
    }
}

/// Every stored book fully joined, or `None` when any reference dangles.
pub open spec fn books_join(dbv: DatabaseV) -> Option<Seq<BookFullV>> {
    books_join_from(dbv, 0)
}

/// Names an owner or rentee for display, as [`entity_join`] says.
fn make_entity(db: &Database, entity_type: EntityType, id: EntityId) -> (r: Option<Entity>)
    ensures
        r.deep_view() == entity_join(db@, entity_type, id),
{
    match entity_type {
        EntityType::Guild => match db.find_guild(id) {
            None => None,
            Some(g) => Some(Entity { entity_type, id, name: g.name }),
        },
        EntityType::Member => Some(Entity { entity_type, id, name: "NO DATA".to_owned() }),
    }
}

/// Lists every book, fully joined. A store whose references dangle is
/// answered with `IllegalState`.
pub fn get_books(db: &Database, _claims: Option<Claims>) -> (r: Result<GetBooks, Error>)
    ensures
        ({
            match books_join(db@) {
                None => r matches Err(e) && e == Error::IllegalState,
                Some(s) => r matches Ok(g) && g.books.deep_view() == s,
            }
        }),
{
    let books = match db.get_books_list() {
        Ok(b) => b,
        Err(e) => {
            return Err(e);
        },
    };
    let mut out: Vec<BookWithTitleWithOwnerWithRental> = Vec::new();
    let mut i: usize = 0;
    while i < books.len()
        invariant
            i <= books.len(),
            books.deep_view() == db@.books,
            books_join(db@) == (match books_join_from(db@, i as int) {
                None => None::<Seq<BookFullV>>,
                Some(rest) => Some(out.deep_view() + rest),
            }),
        decreases books.len() - i,
    {
        let ghost dbv = db@;
        let ghost b = db@.books[i as int];
        proof {
            assert(books.deep_view()[i as int] == books@[i as int]@);
            assert(books_join_from(dbv, i as int) == (match book_join(dbv, b) {
                None => None::<Seq<BookFullV>>,
                Some(bf) => match books_join_from(dbv, i + 1) {
                    None => None::<Seq<BookFullV>>,
                    Some(rest) => Some(seq![bf] + rest),
                },
            }));
        }
        let book = books[i].duplicate();
        let bid = match book.id {
            None => {
                return Err(Error::IllegalState);
            },
            Some(bid) => bid,
        };
        let title = match db.find_title(book.title) {
            None => {
                return Err(Error::IllegalState);
            },
            Some(t) => t,
        };
        let system = match db.get_rpg_system(title.system) {
            Ok(Some(s)) => s,
            _ => {
                return Err(Error::IllegalState);
            },
        };
        let owner = match make_entity(db, book.owner_type, book.owner) {
            None => {
                return Err(Error::IllegalState);
            },
            Some(o) => o,
        };
        let tws = TitleWithSystem::new(title, system, 0, 0);
        let joined = match db.find_rental_for(bid) {
            None => BookWithTitleWithOwnerWithRental {
                id: bid,
                quality: book.quality,
                available: true,
                external_inventory_id: book.external_inventory_id,
                rental: None,
                title: tws,
                owner,
            },
            Some(rent) => {
                let rentee = match make_entity(db, rent.rentee_type, rent.rentee) {
                    None => {
                        return Err(Error::IllegalState);
                    },
                    Some(e) => e,
                };
                BookWithTitleWithOwnerWithRental {
                    id: bid,
                    quality: book.quality,
                    available: false,
                    external_inventory_id: book.external_inventory_id,
                    rental: Some(RentalWithRentee { from: rent.from, to: rent.to, rentee }),
                    title: tws,
                    owner,
                }
            },
        };
        let ghost before = out.deep_view();
        proof {
            assert(book_join(dbv, b) == Some(joined@));
        }
        out.push(joined);
        proof {
            assert(out.deep_view() =~= before.push(joined@));
            assert(out.deep_view() + (match books_join_from(dbv, i + 1) {
                None => Seq::<BookFullV>::empty(),
                Some(rest) => rest,
            }) =~= before + (seq![joined@] + (match books_join_from(dbv, i + 1) {
                None => Seq::<BookFullV>::empty(),
                Some(rest) => rest,
            })));
        }
        i = i + 1;
    }
    proof {
        assert(books_join_from(db@, db@.books.len() as int) == Some(Seq::<BookFullV>::empty()));
        assert(match books_join(db@) {
            None => false,
            Some(s) => out.deep_view() =~= s,
        });
    }
    Ok(GetBooks { books: out })
}

/// One book: not yet wired to the store.
pub fn get_book(_db: &Database, _claims: Option<Claims>, _id: BookId) -> (r: Result<(), Error>)
    ensures
        r is Ok,
{
    Ok(())
}

/// Stores a book: not yet wired to the store; answers a placeholder id.
pub fn post_book(_db: &Database, _claims: Option<Claims>, _book: crate::api::PutPostBook) -> (r:
    Result<BookId, Error>)
    ensures
        r == Ok::<BookId, Error>(1234),
{
    Ok(1234)
}

/// Updates a book: not yet wired to the store.
pub fn put_book(_db: &Database, _claims: Option<Claims>, _book: crate::api::PutPostBook) -> (r:
    Result<(), Error>)
    ensures
        r is Ok,
{
    Ok(())
}

/// Removes the book carrying the given id; removing an unknown id changes
/// nothing and is no error.
pub fn delete_book(db: &mut Database, _claims: Option<Claims>, id: BookId) -> (r: Result<(), Error>)
    ensures
        r is Ok,
        ({
            let books = old(db)@.books;
            if crate::database::book_with_id(books, id) {
                exists|i: int|
                    0 <= i < books.len() && books[i].id == Some(id) && (forall|j: int|
                        0 <= j < i ==> books[j].id != Some(id)) && final(db)@ == (DatabaseV {
                        books: books.remove(i),
                        ..old(db)@
                    })
            } else {
                final(db)@ == old(db)@
            }
        }),
{
    match db.delete_book(id) {
        Ok(_) => Ok(()),
        Err(e) => Err(e),
    }
}

/// Lists members: not yet wired to the store or the identity provider;
/// answers the empty listing.
pub fn get_members(_db: &Database, _claims: Option<Claims>) -> (r: Result<GetMembers, Error>)
    ensures
        r matches Ok(g) && g.members.deep_view().len() == 0,
{
    Ok(GetMembers { members: vec![] })
}

/// One member: not yet wired to the store.
pub fn get_member(_db: &Database, _claims: Option<Claims>, _id: MemberId) -> (r: Result<(), Error>)
    ensures
        r is Ok,
{
    Ok(())
}

/// Lists guilds: not yet wired to the store; answers the empty listing.
pub fn get_guilds(_db: &Database, _claims: Option<Claims>) -> (r: Result<GetGuilds, Error>)
    ensures
        r matches Ok(g) && g.guilds.deep_view().len() == 0,
{
    Ok(GetGuilds { guilds: vec![] })
}

/// One guild: not yet wired to the store.
pub fn get_guild(_db: &Database, _claims: Option<Claims>, _id: GuildId) -> (r: Result<(), Error>)
    ensures
        r is Ok,
{
    Ok(())
}

/// Stores a guild: not yet wired to the store; answers a placeholder id.
pub fn post_guild(_db: &Database, _claims: Option<Claims>, _guild: PutPostGuild) -> (r: Result<
    GuildId,
    Error,
>)
    ensures
        r == Ok::<GuildId, Error>(1234),
{
    Ok(1234)
}

/// Updates a guild: not yet wired to the store.
pub fn put_guild(_db: &Database, _claims: Option<Claims>, _guild: PutPostGuild) -> (r: Result<
    (),
    Error,
>)
    ensures
        r is Ok,
{
    Ok(())
}

/// Removes a guild: not yet wired to the store.
pub fn delete_guild(_db: &Database, _claims: Option<Claims>, _guild: GuildId) -> (r: Result<
    (),
    Error,
>)
    ensures
        r is Ok,
{
    Ok(())
}

} // verus!
