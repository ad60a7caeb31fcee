//! Game-system store operations, exercised as a caller would.

use liberation::database::Database;
use liberation::error::Error;

fn setup() -> String {
    String::from("rpgsystems_testdb")
}

fn teardown(_dbname: String) {}

fn _serv() -> String {
    String::from("mysql://localhost")
}

fn _s(s: &str) -> String {
    String::from(s)
}

fn too_long_string() -> String {
    "X".repeat(300)
}

#[test]
fn insert_rpg_system_correct() {
    let dbname = setup();
    let mut db = Database::new(String::from(format!("{}/{}", _serv(), dbname))).unwrap();

    let system_in = db.insert_rpg_system(_s("SR5👿")).unwrap();

    let system_out = db.get_rpg_system(system_in.id.unwrap());
    teardown(dbname);
    assert_eq!(system_in, system_out.unwrap().unwrap());
}

#[test]
fn insert_rpg_system_name_too_long() {
    let dbname = setup();
    let mut db = Database::new(String::from(format!("{}/{}", _serv(), dbname))).unwrap();

    let result = db.insert_rpg_system(too_long_string());
    teardown(dbname);

    match result {
        Err(Error::DataTooLong(_)) => (),
        _ => panic!("Expected DatabaseError::FieldError(FieldError::DataTooLong(\"name\")"),
    }
}

#[test]
fn update_rpg_system_correct() {
    let dbname = setup();
    let mut db = Database::new(String::from(format!("{}/{}", _serv(), dbname))).unwrap();

    let mut system = db.insert_rpg_system(_s("SR5👿")).unwrap();
    system.name = _s("SR5");
    db.update_rpg_system(&system).unwrap();
    let recovered = db.get_rpg_system(system.id.unwrap()).unwrap();
    let result = recovered.map_or(false, |fetched_system| system == fetched_system);

    teardown(dbname);

    match result {
        true => (),
        false => panic!("Expected updated rpgsystem to be corretly stored in DB"),
    }
}

#[test]
fn update_rpg_system_name_too_long() {
    let dbname = setup();
    let mut db = Database::new(String::from(format!("{}/{}", _serv(), dbname))).unwrap();

    let mut rpgsystem = db.insert_rpg_system(String::from("SR5👿")).unwrap();
    rpgsystem.name = too_long_string();
    let result = db.update_rpg_system(&rpgsystem);

    teardown(dbname);

    match result {
        Err(Error::DataTooLong(_)) => (),
        _ => panic!(
            "Expected DatabaseError::FieldError(FieldError::DataTooLong(\"rpgsystem.name\")"
        ),
    }
}

#[test]
fn get_rpg_system_by_id_correct() {}
