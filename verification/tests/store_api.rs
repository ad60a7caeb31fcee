//! The API working layer over the record store: listings, joins and counts.

use liberation::api::PutPostRpgSystem;
use liberation::auth::Claims;
use liberation::business::delete_rpgsystem;
use liberation::business::get_books;
use liberation::business::get_rpgsystem;
use liberation::business::get_rpgsystems;
use liberation::business::get_titles;
use liberation::business::post_rpgsystem;
use liberation::database::Database;
use liberation::database::Date;
use liberation::database::EntityType;
use liberation::database::book::Book;
use liberation::database::rental::Rental;
use liberation::database::rpgsystem::RpgSystem;
use liberation::database::title::Title;
use liberation::error::Error;

fn _s(s: &str) -> String {
    String::from(s)
}

fn sample_claims() -> Claims {
    Claims {
        uid: _s("user-1"),
        roles: vec![_s("member")],
        name: _s("Ann Example"),
        email: _s("ann@example.org"),
        exp: 4102444800,
    }
}

#[test]
fn it_works() {
    assert_eq!(2 + 2, 4);
}

#[test]
fn listing_returns_every_system() {
    let mut db = Database::new(_s("mysql://localhost/api_testdb")).unwrap();
    db.insert_rpg_system(_s("Shadowrun")).unwrap();
    db.insert_rpg_system(_s("Discworld")).unwrap();
    let listing = get_rpgsystems(&db).unwrap();
    assert_eq!(listing.rpgsystems.len(), 2);
    assert_eq!(listing.rpgsystems[0].name, "Shadowrun");
    assert_eq!(listing.rpgsystems[1].name, "Discworld");
}

#[test]
fn posting_a_system_stores_it() {
    let mut db = Database::new(_s("mysql://localhost/api_testdb")).unwrap();
    let id = post_rpgsystem(
        &mut db,
        None,
        PutPostRpgSystem { rpgsystem: RpgSystem::new(None, _s("Shadowrun")) },
    )
    .unwrap();
    let stored = db.get_rpg_system(id).unwrap().unwrap();
    assert_eq!(stored.name, "Shadowrun");
}

#[test]
fn deleting_an_unknown_system_is_item_not_found() {
    let mut db = Database::new(_s("mysql://localhost/api_testdb")).unwrap();
    assert_eq!(delete_rpgsystem(&mut db, None, 77), Err(Error::ItemNotFound));
}

#[test]
fn system_view_includes_stock_only_when_logged_in() {
    let mut db = Database::new(_s("mysql://localhost/api_testdb")).unwrap();
    let system = db.insert_rpg_system(_s("Shadowrun")).unwrap();
    let sid = system.id.unwrap();
    let anonymous = get_rpgsystem(&db, None, sid).unwrap();
    assert!(!anonymous.include_stock);
    let logged_in = get_rpgsystem(&db, Some(sample_claims()), sid).unwrap();
    assert!(logged_in.include_stock);
    assert_eq!(get_rpgsystem(&db, None, 999).unwrap_err(), Error::ItemNotFound);
}

#[test]
fn titles_are_joined_with_their_system_and_counts() {
    let mut db = Database::new(_s("mysql://localhost/api_testdb")).unwrap();
    let member = db.insert_member(_s("owner-1")).unwrap();
    let system = db.insert_rpg_system(_s("Shadowrun")).unwrap();
    let sid = system.id.unwrap();
    let title_id = db
        .insert_title(&Title::new(
            None,
            _s("Sprawl Stories"),
            sid,
            _s("en"),
            _s("Catalyst"),
            2015,
            None,
        ))
        .unwrap();
    let book = Book::new(None, title_id, member.id.unwrap(), EntityType::Member, _s("good"), 7);
    let first_copy = db.insert_book(&book).unwrap();
    db.insert_book(&book).unwrap();
    db.insert_rental(&Rental::new(
        None,
        Date::new(2020, 1, 2),
        Date::new(2020, 3, 4),
        first_copy,
        member.id.unwrap(),
        EntityType::Member,
    ))
    .unwrap();

    let listing = get_titles(&db).unwrap();
    assert_eq!(listing.titles.len(), 1);
    let joined = &listing.titles[0];
    assert_eq!(joined.name, "Sprawl Stories");
    assert_eq!(joined.system.name, "Shadowrun");
    assert_eq!(joined.stock, 2);
    assert_eq!(joined.available, 1);
}

#[test]
fn books_are_joined_with_title_owner_and_rental() {
    let mut db = Database::new(_s("mysql://localhost/api_testdb")).unwrap();
    let member = db.insert_member(_s("owner-1")).unwrap();
    let contact = member.id.unwrap();
    let guild_id = db
        .insert_guild(&liberation::database::guild::Guild::new(
            None,
            _s("Readers United"),
            _s("Main Street 1"),
            contact,
        ))
        .unwrap();
    let system = db.insert_rpg_system(_s("Shadowrun")).unwrap();
    let title_id = db
        .insert_title(&Title::new(
            None,
            _s("Sprawl Stories"),
            system.id.unwrap(),
            _s("en"),
            _s("Catalyst"),
            2015,
            None,
        ))
        .unwrap();
    let book_id = db
        .insert_book(&Book::new(
            None,
            title_id,
            guild_id,
            EntityType::Guild,
            _s("worn"),
            3,
        ))
        .unwrap();
    db.insert_rental(&Rental::new(
        None,
        Date::new(2021, 5, 6),
        Date::new(2021, 7, 8),
        book_id,
        guild_id,
        EntityType::Guild,
    ))
    .unwrap();

    let listing = get_books(&db, None).unwrap();
    assert_eq!(listing.books.len(), 1);
    let joined = &listing.books[0];
    assert_eq!(joined.id, book_id);
    assert_eq!(joined.quality, "worn");
    assert!(!joined.available);
    assert_eq!(joined.title.name, "Sprawl Stories");
    assert_eq!(joined.title.system.name, "Shadowrun");
    assert_eq!(joined.owner.name, "Readers United");
    let rental = joined.rental.as_ref().unwrap();
    assert_eq!(rental.from, Date::new(2021, 5, 6));
    assert_eq!(rental.rentee.name, "Readers United");
}

#[test]
fn unrented_book_of_a_member_is_available_with_placeholder_owner() {
    let mut db = Database::new(_s("mysql://localhost/api_testdb")).unwrap();
    let member = db.insert_member(_s("owner-1")).unwrap();
    let system = db.insert_rpg_system(_s("Shadowrun")).unwrap();
    let title_id = db
        .insert_title(&Title::new(
            None,
            _s("Sprawl Stories"),
            system.id.unwrap(),
            _s("en"),
            _s("Catalyst"),
            2015,
            None,
        ))
        .unwrap();
    db.insert_book(&Book::new(
        None,
        title_id,
        member.id.unwrap(),
        EntityType::Member,
        _s("good"),
        4,
    ))
    .unwrap();

    let listing = get_books(&db, None).unwrap();
    assert_eq!(listing.books.len(), 1);
    let joined = &listing.books[0];
    assert!(joined.available);
    assert!(joined.rental.is_none());
    assert_eq!(joined.owner.name, "NO DATA");
}

#[test]
fn entity_type_reads_its_stored_text() {
    assert_eq!(EntityType::from_str("member"), Ok(EntityType::Member));
    assert_eq!(EntityType::from_str("guild"), Ok(EntityType::Guild));
    assert!(EntityType::from_str("dragon").is_err());
}

#[test]
fn title_insert_refuses_unknown_system() {
    let mut db = Database::new(_s("mysql://localhost/api_testdb")).unwrap();
    let result = db.insert_title(&Title::new(
        None,
        _s("Orphan Title"),
        42,
        _s("en"),
        _s("Nobody"),
        2000,
        None,
    ));
    match result {
        Err(Error::ConstraintError(_)) => (),
        _ => panic!("expected ConstraintError for the missing system"),
    }
}
