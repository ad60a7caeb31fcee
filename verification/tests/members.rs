//! Member store operations, exercised as a caller would.

use liberation::database::Database;
use liberation::error::Error;

fn setup() -> String {
    String::from("members_testdb")
}

fn teardown(_dbname: String) {}

fn _serv() -> String {
    String::from("mysql://localhost")
}

fn _s(s: &str) -> String {
    String::from(s)
}

fn too_long_string() -> String {
    "X".repeat(300)
}

#[test]
fn insert_member_correct() {
    let dbname = setup();
    let mut db = Database::new(String::from(format!("{}/{}", _serv(), dbname))).unwrap();

    let member_in = db.insert_member(String::from("someexternalId")).unwrap();
    let member_out = db.get_members().unwrap().pop().unwrap();
    assert_eq!(member_in, member_out);
    teardown(dbname);
}

#[test]
fn insert_member_external_id_too_long() {
    let dbname = setup();
    let mut db = Database::new(String::from(format!("{}/{}", _serv(), dbname))).unwrap();

    let result = db.insert_member(too_long_string());
    teardown(dbname);

    match result {
        Err(Error::DataTooLong(_)) => (),
        _ => panic!("Expected DatabaseError::FieldError(FieldError::DataTooLong(\"external_id\")"),
    }
}

#[test]
fn update_member_correct() {
    let dbname = setup();
    let mut db = Database::new(String::from(format!("{}/{}", _serv(), dbname))).unwrap();

    let mut member = db.insert_member(_s("somememberId")).unwrap();
    member.external_id = _s("someotherId");
    db.update_member(&member).unwrap();
    let result = db
        .get_members()
        .unwrap()
        .pop()
        .map_or(false, |fetched_member| member == fetched_member);

    teardown(dbname);

    match result {
        true => (),
        false => panic!("Expected updated member to be corretly stored in DB"),
    }
}

#[test]
fn update_member_external_id_too_long() {
    let dbname = setup();
    let mut db = Database::new(String::from(format!("{}/{}", _serv(), dbname))).unwrap();

    let mut member = db.insert_member(String::from("somememberId")).unwrap();
    member.external_id = too_long_string();
    let result = db.update_member(&member);

    teardown(dbname);

    match result {
        Err(Error::DataTooLong(_)) => (),
        _ => panic!("Expected DatabaseError::FieldError(FieldError::DataTooLong(\"member.external_id\")"),
    }
}

#[test]
fn delete_member_removes_the_record() {
    let dbname = setup();
    let mut db = Database::new(String::from(format!("{}/{}", _serv(), dbname))).unwrap();

    let member = db.insert_member(_s("someexternalId")).unwrap();
    assert_eq!(db.delete_member(member.id.unwrap()), Ok(true));
    assert_eq!(db.get_member(member.id.unwrap()), Ok(None));
    assert_eq!(db.delete_member(member.id.unwrap()), Ok(false));
    teardown(dbname);
}
