//! Rental store operations: the date-range checks and the referential
//! checks against books, members and guilds.

use liberation::database::Database;
use liberation::database::Date;
use liberation::database::EntityType;
use liberation::database::book::Book;
use liberation::database::guild::Guild;
use liberation::database::member::Member;
use liberation::database::rental::Rental;
use liberation::database::rpgsystem::RpgSystem;
use liberation::database::title::Title;
use liberation::error::Error;
use liberation::settings::DatabaseSettings;

fn setup() -> DatabaseSettings {
    DatabaseSettings { url: String::from("mysql://localhost/rentals_testdb") }
}

fn teardown(_settings: DatabaseSettings) {}

fn _s(s: &str) -> String {
    String::from(s)
}

fn _d(year: i32, month: u32, day: u32) -> Date {
    Date::new(year, month, day)
}

fn insert_book_default(db: &mut Database) -> Result<(u64, Book), Error> {
    let member = db.insert_member(_s("default-owner"))?;
    let system = db.insert_rpg_system(_s("Default System"))?;
    let title = Title::new(
        None,
        _s("Default Title"),
        system.id.unwrap(),
        _s("en"),
        _s("Default Publishing"),
        2020,
        None,
    );
    let title_id = db.insert_title(&title)?;
    let book = Book::new(None, title_id, member.id.unwrap(), EntityType::Member, _s("good"), 1);
    let book_id = db.insert_book(&book)?;
    Ok((book_id, Book { id: Some(book_id), ..book }))
}

#[test]
fn insert_rental_correct() {
    let settings = setup();
    let mut db = Database::from_settings(&settings).unwrap();
    let member_id = db.insert_member(_s("some-external-id")).unwrap().id.unwrap();
    let (book_id, _book) = insert_book_default(&mut db).unwrap();
    let rental_in = Rental::new(
        None,
        _d(2018, 2, 4),
        _d(2018, 4, 16),
        book_id,
        member_id,
        EntityType::Member,
    );
    let id = db.insert_rental(&rental_in).unwrap();
    let rental_out = db.get_rental(id).unwrap();
    let expected = Rental { id: Some(id), ..rental_in };
    let result = rental_out.map_or(false, |rec_rental| expected == rec_rental);
    teardown(settings);
    match result {
        true => (),
        false => panic!("Inserted rental is not in DB :("),
    }
}

#[test]
fn insert_rental_invalid_book() {
    let settings = setup();
    let mut db = Database::from_settings(&settings).unwrap();
    let (_book_id, book) = insert_book_default(&mut db).unwrap();
    let result = db.insert_rental(&Rental::new(
        None,
        _d(2014, 8, 16),
        _d(3264, 12, 08),
        1235415123,
        book.owner,
        book.owner_type,
    ));
    teardown(settings);
    match result {
        Err(Error::ConstraintError(_)) => (),
        _ => panic!("Expected DatabaseError::FieldError(FieldError::ConstraintError)"),
    }
}

#[test]
fn insert_rental_invalid_owner_id() {
    let settings = setup();
    let mut db = Database::from_settings(&settings).unwrap();
    let (book_id, book) = insert_book_default(&mut db).unwrap();
    let result = db.insert_rental(&Rental::new(
        None,
        _d(2014, 8, 16),
        _d(3264, 12, 08),
        book_id,
        12342433,
        book.owner_type,
    ));
    teardown(settings);
    match result {
        Err(Error::ConstraintError(_)) => (),
        _ => panic!("Expected DatabaseError::FieldError(FieldError::ConstraintError)"),
    }
}

#[test]
fn insert_rental_wrong_owner_type() {
    let settings = setup();
    let mut db = Database::from_settings(&settings).unwrap();
    let (_book_id, book) = insert_book_default(&mut db).unwrap();
    let result = db.insert_rental(&Rental::new(
        None,
        _d(2014, 8, 16),
        _d(3264, 12, 08),
        012481632,
        book.owner,
        match book.owner_type {
            EntityType::Member => EntityType::Guild,
            EntityType::Guild => EntityType::Member,
        },
    ));
    teardown(settings);
    match result {
        Err(Error::ConstraintError(_)) => (),
        _ => panic!("Expected DatabaseError::FieldError(FieldError::ConstraintError)"),
    }
}

#[test]
fn update_rental_correct() {
    let settings = setup();
    let mut db = Database::from_settings(&settings).unwrap();
    let (book_id, book) = insert_book_default(&mut db).unwrap();
    let orig_rental = Rental::new(
        None,
        _d(2012, 3, 4),
        _d(2056, 7, 8),
        book_id,
        book.owner,
        book.owner_type,
    );
    let rental_id = db.insert_rental(&orig_rental).unwrap();
    let member_id = db.insert_member(_s("rincewind")).unwrap().id.unwrap();
    let guild_id = db
        .insert_guild(&Guild::new(
            None,
            _s("Yordle Academy of Science and Progress"),
            _s("Piltover"),
            member_id,
        ))
        .unwrap();
    let system_id = db.insert_rpg_system(_s("Discworld")).unwrap().id.unwrap();
    let title_id = db
        .insert_title(&Title::new(
            None,
            _s("Unseen University Adventures"),
            system_id,
            _s("en"),
            _s("Twoflower Publishing"),
            2048,
            None,
        ))
        .unwrap();
    let new_book_id = db
        .insert_book(&Book::new(
            None,
            title_id,
            guild_id,
            EntityType::Guild,
            _s("impressive"),
            21,
        ))
        .unwrap();
    let rental_update = Rental {
        id: Some(rental_id),
        from: _d(2090, 10, 11),
        to: _d(2112, 1, 3),
        book: new_book_id,
        rentee: guild_id,
        rentee_type: EntityType::Guild,
    };
    db.update_rental(&rental_update).unwrap();
    let rec_rental = db.get_rental(rental_id).unwrap();
    let result = rec_rental.map_or(false, |fetched_rental| rental_update == fetched_rental);
    teardown(settings);
    match result {
        true => (),
        false => panic!("Expected updated guild to be corretly stored in DB"),
    }
}

#[test]
fn update_rental_invalid_from() {
    let settings = setup();
    let mut db = Database::from_settings(&settings).unwrap();
    let (book_id, book) = insert_book_default(&mut db).unwrap();
    let mut orig_rental = Rental::new(
        None,
        _d(2012, 3, 4),
        _d(2056, 7, 8),
        book_id,
        book.owner,
        book.owner_type,
    );
    db.insert_rental(&orig_rental).unwrap();
    orig_rental.from = _d(-99, 10, 11);
    let result = db.update_rental(&orig_rental);
    teardown(settings);
    match result {
        Err(Error::IllegalValueForType(_)) => (),
        _ => panic!("Expected DatabaseError::FieldError(FieldError::IllegalValueForType)"),
    }
}

#[test]
fn update_rental_invalid_to() {
    let settings = setup();
    let mut db = Database::from_settings(&settings).unwrap();
    let (book_id, book) = insert_book_default(&mut db).unwrap();
    let mut orig_rental = Rental::new(
        None,
        _d(2012, 3, 4),
        _d(2056, 7, 8),
        book_id,
        book.owner,
        book.owner_type,
    );
    db.insert_rental(&orig_rental).unwrap();
    orig_rental.to = _d(-99, 11, 12);
    let result = db.update_rental(&orig_rental);
    teardown(settings);
    match result {
        Err(Error::IllegalValueForType(_)) => (),
        _ => panic!("Expected DatabaseError::FieldError(FieldError::IllegalValueForType)"),
    }
}

#[test]
fn update_rental_invalid_book() {
    let settings = setup();
    let mut db = Database::from_settings(&settings).unwrap();
    let (book_id, book) = insert_book_default(&mut db).unwrap();
    let rental = Rental::new(
        None,
        _d(2012, 3, 4),
        _d(2056, 7, 8),
        book_id,
        book.owner,
        book.owner_type,
    );
    let id = db.insert_rental(&rental).unwrap();
    let mut rental = Rental { id: Some(id), ..rental };
    rental.book = 012481632;
    let result = db.update_rental(&rental);
    teardown(settings);
    match result {
        Err(Error::ConstraintError(_)) => (),
        _ => panic!("Expected DatabaseError::FieldError(FieldError::IllegalValueForType)"),
    }
}

#[test]
fn update_rental_invalid_rentee_id() {
    let settings = setup();
    let mut db = Database::from_settings(&settings).unwrap();
    let (book_id, book) = insert_book_default(&mut db).unwrap();
    let rental = Rental::new(
        None,
        _d(2012, 3, 4),
        _d(2056, 7, 8),
        book_id,
        book.owner,
        book.owner_type,
    );
    let id = db.insert_rental(&rental).unwrap();
    let mut rental = Rental { id: Some(id), ..rental };
    rental.rentee = 012481632;
    let result = db.update_rental(&rental);
    teardown(settings);
    match result {
        Err(Error::ConstraintError(_)) => (),
        _ => panic!("Expected DatabaseError::FieldError(FieldError::IllegalValueForType)"),
    }
}

#[test]
fn update_rental_wrong_rentee_type() {
    let settings = setup();
    let mut db = Database::from_settings(&settings).unwrap();
    let (book_id, book) = insert_book_default(&mut db).unwrap();
    let rental = Rental::new(
        None,
        _d(2012, 3, 4),
        _d(2056, 7, 8),
        book_id,
        book.owner,
        book.owner_type,
    );
    let id = db.insert_rental(&rental).unwrap();
    let mut rental = Rental { id: Some(id), ..rental };
    rental.rentee_type = match rental.rentee_type {
        EntityType::Member => EntityType::Guild,
        EntityType::Guild => EntityType::Member,
    };
    let result = db.update_rental(&rental);
    teardown(settings);
    match result {
        Err(Error::ConstraintError(_)) => (),
        _ => panic!("Expected DatabaseError::FieldError(FieldError::IllegalValueForType)"),
    }
}

#[test]
fn from_db_reads_member_rentee() {
    let rental = Rental::from_db(
        7,
        _d(2020, 1, 2),
        _d(2020, 3, 4),
        11,
        Some(5),
        None,
        _s("member"),
    )
    .unwrap();
    assert_eq!(rental.id, Some(7));
    assert_eq!(rental.rentee, 5);
    assert_eq!(rental.rentee_type, EntityType::Member);
}

#[test]
fn from_db_reads_guild_rentee() {
    let rental = Rental::from_db(
        8,
        _d(2020, 1, 2),
        _d(2020, 3, 4),
        11,
        None,
        Some(6),
        _s("guild"),
    )
    .unwrap();
    assert_eq!(rental.rentee, 6);
    assert_eq!(rental.rentee_type, EntityType::Guild);
}

#[test]
fn from_db_refuses_bad_rentee_type() {
    let result = Rental::from_db(
        9,
        _d(2020, 1, 2),
        _d(2020, 3, 4),
        11,
        Some(5),
        None,
        _s("dragon"),
    );
    assert_eq!(result, Err(String::from("Bad rentee_type")));
}

#[test]
fn from_db_refuses_missing_rentee_column() {
    let result = Rental::from_db(
        10,
        _d(2020, 1, 2),
        _d(2020, 3, 4),
        11,
        None,
        Some(6),
        _s("member"),
    );
    assert_eq!(
        result,
        Err(String::from(
            "Field 'rentee_member' or 'rentee_guild' is not set according to 'rentee_type'."
        ))
    );
}

#[test]
fn constructors_keep_their_fields() {
    let m = Member::new(Some(3), _s("ext-3"));
    assert_eq!(m.id, Some(3));
    assert_eq!(m.external_id, _s("ext-3"));
    let s = RpgSystem::new(None, _s("Cthulhu"));
    assert_eq!(s.id, None);
    assert_eq!(s.name, _s("Cthulhu"));
    let r = Rental::new(None, _d(2020, 1, 2), _d(2020, 3, 4), 9, 5, EntityType::Member);
    assert_eq!(r.book, 9);
    assert_eq!(r.rentee, 5);
}

#[test]
fn delete_rental_removes_the_record() {
    let settings = setup();
    let mut db = Database::from_settings(&settings).unwrap();
    let (book_id, book) = insert_book_default(&mut db).unwrap();
    let rental = Rental::new(
        None,
        _d(2018, 2, 4),
        _d(2018, 4, 16),
        book_id,
        book.owner,
        book.owner_type,
    );
    let id = db.insert_rental(&rental).unwrap();
    assert_eq!(db.delete_rental(id), Ok(true));
    assert_eq!(db.get_rental(id), Ok(None));
    assert_eq!(db.delete_rental(id), Ok(false));
    teardown(settings);
}
