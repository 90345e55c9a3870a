use booking_manager::dispatch::{Commands as TopCommands, DBArg};
use booking_manager::error::{
    insert_failure, inserting, kind_of_code, storage_error, ResourceError, StoreErrorKind,
    UNIQUE_CONSTRAINT_CODE,
};
use booking_manager::resource::{
    all_digits, create_resource, get_resource_id, get_resource_name, insert_result, lookup_result,
    Cli, CommandOutput, Commands,
};
use booking_manager::schema::{initialse_database, schema_statements, IDEMPOTENT_PREFIX};
use booking_manager::store::{Store, StoreFailure};

fn memory_connection() -> Store {
    let db = pollster::block_on(libsql::Builder::new_local(":memory:").build()).unwrap();
    Store::new(db.connect().unwrap())
}

fn initialised() -> Store {
    let mut store = memory_connection();
    initialse_database(&mut store).unwrap();
    store
}

#[test]
fn scenario_room101() {
    let mut store = initialised();
    assert_eq!(create_resource(&mut store, "Room101".to_string()).unwrap(), 1);
    match create_resource(&mut store, "Room101".to_string()) {
        Err(ResourceError::DuplicateName { name }) => assert_eq!(name, "Room101"),
        other => panic!("expected DuplicateName, got {:?}", other),
    }
    assert_eq!(get_resource_name(&mut store, "Room101".to_string()).unwrap(), 1);
    assert_eq!(get_resource_id(&mut store, 1).unwrap(), "Room101");
    match create_resource(&mut store, "101".to_string()) {
        Err(ResourceError::InvalidInput { name }) => assert_eq!(name, "101"),
        other => panic!("expected InvalidInput, got {:?}", other),
    }
}

#[test]
fn digit_only_names_are_refused() {
    let mut store = initialised();
    for name in ["0", "101", "0042", "9999999999999999999999", ""] {
        match create_resource(&mut store, name.to_string()) {
            Err(ResourceError::InvalidInput { name: n }) => assert_eq!(n, name),
            other => panic!("expected InvalidInput for {:?}, got {:?}", name, other),
        }
    }
    // nothing reached the store
    assert!(matches!(get_resource_id(&mut store, 1), Err(ResourceError::NotFound)));
}

#[test]
fn digit_names_refused_without_schema() {
    let mut store = memory_connection();
    assert!(matches!(
        create_resource(&mut store, "7".to_string()),
        Err(ResourceError::InvalidInput { .. })
    ));
}

#[test]
fn create_then_find_by_name_gives_same_id() {
    let mut store = initialised();
    for name in ["a", "Room 1", "1a", "a1", "12 ", "Ümlaut", "x".repeat(300).as_str()] {
        let id = create_resource(&mut store, name.to_string()).unwrap();
        assert_eq!(get_resource_name(&mut store, name.to_string()).unwrap(), id);
        assert_eq!(get_resource_id(&mut store, id as u32).unwrap(), name);
    }
}

#[test]
fn identifiers_increase() {
    let mut store = initialised();
    let a = create_resource(&mut store, "first".to_string()).unwrap();
    let b = create_resource(&mut store, "second".to_string()).unwrap();
    let c = create_resource(&mut store, "third".to_string()).unwrap();
    assert_eq!((a, b, c), (1, 2, 3));
}

#[test]
fn second_create_is_duplicate() {
    let mut store = initialised();
    create_resource(&mut store, "Desk".to_string()).unwrap();
    match create_resource(&mut store, "Desk".to_string()) {
        Err(ResourceError::DuplicateName { name }) => assert_eq!(name, "Desk"),
        other => panic!("expected DuplicateName, got {:?}", other),
    }
    // a different name still goes in
    assert_eq!(create_resource(&mut store, "desk".to_string()).unwrap(), 2);
}

#[test]
fn unknown_id_is_not_found() {
    let mut store = initialised();
    assert!(matches!(get_resource_id(&mut store, 1), Err(ResourceError::NotFound)));
    let id = create_resource(&mut store, "Hall".to_string()).unwrap();
    assert!(matches!(get_resource_id(&mut store, (id + 1) as u32), Err(ResourceError::NotFound)));
    assert!(matches!(get_resource_id(&mut store, 0), Err(ResourceError::NotFound)));
}

#[test]
fn unknown_name_is_not_found() {
    let mut store = initialised();
    assert!(matches!(
        get_resource_name(&mut store, "Nowhere".to_string()),
        Err(ResourceError::NotFound)
    ));
    create_resource(&mut store, "Somewhere".to_string()).unwrap();
    assert!(matches!(
        get_resource_name(&mut store, "somewhere".to_string()),
        Err(ResourceError::NotFound)
    ));
}

#[test]
fn init_twice_keeps_schema_usable() {
    let mut store = initialised();
    let id = create_resource(&mut store, "Lab".to_string()).unwrap();
    initialse_database(&mut store).unwrap();
    assert_eq!(get_resource_name(&mut store, "Lab".to_string()).unwrap(), id);
    assert_eq!(create_resource(&mut store, "Lab2".to_string()).unwrap(), id + 1);
}

#[test]
fn missing_schema_is_storage_error() {
    let mut store = memory_connection();
    match create_resource(&mut store, "Room".to_string()) {
        Err(ResourceError::Storage { message }) => {
            assert!(message.starts_with("while inserting resource 'Room': "))
        }
        other => panic!("expected Storage, got {:?}", other),
    }
    match get_resource_name(&mut store, "Room".to_string()) {
        Err(ResourceError::Storage { message }) => {
            assert!(message.starts_with("while getting resource 'Room': "))
        }
        other => panic!("expected Storage, got {:?}", other),
    }
    assert!(matches!(get_resource_id(&mut store, 1), Err(ResourceError::Storage { .. })));
}

#[test]
fn all_digits_cases() {
    assert!(all_digits(""));
    assert!(all_digits("0123456789"));
    assert!(!all_digits("12a"));
    assert!(!all_digits(" 1"));
    assert!(!all_digits("١٢"));
}

#[test]
fn code_table() {
    assert_eq!(UNIQUE_CONSTRAINT_CODE, 2067);
    assert_eq!(kind_of_code(Some(2067)), StoreErrorKind::UniqueViolation);
    assert_eq!(kind_of_code(Some(19)), StoreErrorKind::Other);
    assert_eq!(kind_of_code(Some(1555)), StoreErrorKind::Other);
    assert_eq!(kind_of_code(None), StoreErrorKind::Other);
}

#[test]
fn insert_failure_translation() {
    let dup = insert_failure(
        "Desk".to_string(),
        StoreFailure { code: Some(2067), message: "UNIQUE constraint failed".to_string() },
    );
    assert!(matches!(dup, ResourceError::DuplicateName { ref name } if name == "Desk"));
    let other = insert_failure(
        "Desk".to_string(),
        StoreFailure { code: Some(1), message: "no such table: resource".to_string() },
    );
    assert!(matches!(other, ResourceError::Storage { ref message }
        if message == "while inserting resource 'Desk': no such table: resource"));
    let no_code = insert_failure(
        "Desk".to_string(),
        StoreFailure { code: None, message: "misuse".to_string() },
    );
    assert!(matches!(no_code, ResourceError::Storage { ref message }
        if message == "while inserting resource 'Desk': misuse"));
    let plain = storage_error(
        "ctx: ".to_string(),
        StoreFailure { code: Some(2067), message: "m".to_string() },
    );
    assert!(matches!(plain, ResourceError::Storage { ref message } if message == "ctx: m"));
    assert_eq!(inserting(&"Hall".to_string()), "while inserting resource 'Hall': ");
}

#[test]
fn insert_result_cases() {
    assert_eq!(insert_result("a".to_string(), Ok(5)).unwrap(), 5);
    let r = insert_result(
        "a".to_string(),
        Err(StoreFailure { code: Some(2067), message: String::new() }),
    );
    assert!(matches!(r, Err(ResourceError::DuplicateName { ref name }) if name == "a"));
}

#[test]
fn lookup_result_cases() {
    assert!(matches!(lookup_result::<i64>("c: ".to_string(), Ok(None)), Err(ResourceError::NotFound)));
    assert_eq!(lookup_result("c: ".to_string(), Ok(Some(3i64))).unwrap(), 3);
    let failed = lookup_result::<i64>(
        "c: ".to_string(),
        Err(StoreFailure { code: Some(1), message: "boom".to_string() }),
    );
    assert!(matches!(failed, Err(ResourceError::Storage { ref message }) if message == "c: boom"));
}

#[test]
fn schema_statements_are_guarded() {
    let statements = schema_statements();
    assert_eq!(statements.len(), 2);
    assert!(statements[0].contains("resource"));
    assert!(statements[1].contains("booking"));
    for s in statements {
        assert!(s.starts_with(IDEMPOTENT_PREFIX));
    }
}

#[test]
fn database_argument() {
    assert!(matches!(DBArg::from_str(":memory:"), DBArg::Memory));
    match DBArg::from_str("bookings.db") {
        DBArg::Path(p) => assert_eq!(p, "bookings.db"),
        DBArg::Memory => panic!("expected a path"),
    }
    assert!(matches!(DBArg::from_str(":memory"), DBArg::Path(_)));
}

#[test]
fn run_and_dispatch() {
    let mut store = memory_connection();
    assert!(matches!(TopCommands::InitDatabase.dispatch(&mut store), Ok(None)));
    let create = Cli { command: Commands::Create { name: "Studio".to_string() } };
    match TopCommands::Resource(create).dispatch(&mut store) {
        Ok(Some(CommandOutput::Id(id))) => assert_eq!(id, 1),
        other => panic!("unexpected {:?}", other),
    }
    let search = Cli { command: Commands::Search { name: "Studio".to_string() } };
    assert!(matches!(search.run(&mut store), Ok(CommandOutput::Id(1))));
    let get = Cli { command: Commands::Get { id: 1 } };
    match get.run(&mut store) {
        Ok(CommandOutput::Name(n)) => assert_eq!(n, "Studio"),
        other => panic!("unexpected {:?}", other),
    }
    let missing = Cli { command: Commands::Get { id: 9 } };
    assert!(matches!(missing.run(&mut store), Err(ResourceError::NotFound)));
    let digits = Cli { command: Commands::Create { name: "42".to_string() } };
    assert!(matches!(digits.run(&mut store), Err(ResourceError::InvalidInput { .. })));
}

fn raw_memory() -> libsql::Connection {
    let db = pollster::block_on(libsql::Builder::new_local(":memory:").build()).unwrap();
    db.connect().unwrap()
}

#[test]
fn non_utf8_stored_name_is_storage_error() {
    let raw = raw_memory();
    let mut store = Store::new(raw.clone());
    initialse_database(&mut store).unwrap();
    pollster::block_on(raw.execute("INSERT INTO resource (name) VALUES (X'FF00FE')", ())).unwrap();
    match get_resource_id(&mut store, 1) {
        Err(ResourceError::Storage { message }) => {
            assert!(message.starts_with("while getting a resource by id: "))
        }
        other => panic!("expected Storage, got {:?}", other),
    }
}

#[test]
fn text_identifier_is_storage_error() {
    let raw = raw_memory();
    pollster::block_on(raw.execute("CREATE TABLE resource (id TEXT, name TEXT UNIQUE)", ())).unwrap();
    pollster::block_on(raw.execute("INSERT INTO resource (id, name) VALUES ('abc', 'Odd')", ())).unwrap();
    let mut store = Store::new(raw);
    initialse_database(&mut store).unwrap();
    assert!(matches!(
        get_resource_name(&mut store, "Odd".to_string()),
        Err(ResourceError::Storage { .. })
    ));
}

#[test]
fn name_with_nul_comes_back_whole() {
    let mut store = initialised();
    let name = "a\0b".to_string();
    let id = create_resource(&mut store, name.clone()).unwrap();
    assert_eq!(get_resource_id(&mut store, id as u32).unwrap(), name);
}
