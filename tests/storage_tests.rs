use todo_storage::models::person_from;
use todo_storage::{Borsh, FormatKind, Json, Person, Serializer, Storage, StorageError, Wincode};

#[test]
fn saves_and_loads_with_borsh() {
    let person = Person {
        name: "Andre".to_string(),
        age: 30,
    };
    let mut storage = Storage::<Person, Borsh>::new(Borsh);

    storage.save(&person).expect("borsh save should succeed");
    let loaded = storage.load().expect("borsh load should succeed");

    assert!(storage.has_data());
    assert_eq!(loaded, person);
}

#[test]
fn saves_and_loads_with_wincode() {
    let person = Person {
        name: "Andre".to_string(),
        age: 30,
    };
    let mut storage = Storage::<Person, Wincode>::new(Wincode);

    storage.save(&person).expect("wincode save should succeed");
    let loaded = storage.load().expect("wincode load should succeed");

    assert!(storage.has_data());
    assert_eq!(loaded, person);
}

#[test]
fn saves_and_loads_with_json() {
    let person = Person {
        name: "Andre".to_string(),
        age: 30,
    };
    let mut storage = Storage::<Person, Json>::new(Json);

    storage.save(&person).expect("json save should succeed");
    let loaded = storage.load().expect("json load should succeed");

    assert!(storage.has_data());
    assert_eq!(loaded, person);
}

#[test]
fn converts_borsh_to_json_and_preserves_data() {
    let person = Person {
        name: "Andre".to_string(),
        age: 30,
    };
    let mut borsh_storage = Storage::<Person, Borsh>::new(Borsh);
    borsh_storage
        .save(&person)
        .expect("borsh setup save should succeed");

    let json_storage = borsh_storage
        .convert_to(Json)
        .expect("conversion borsh->json should succeed");
    let loaded = json_storage.load().expect("json load should succeed");

    assert!(json_storage.has_data());
    assert_eq!(loaded, person);
}

#[test]
fn converts_json_to_wincode_and_preserves_data() {
    let person = Person {
        name: "Andre".to_string(),
        age: 30,
    };
    let mut json_storage = Storage::<Person, Json>::new(Json);
    json_storage
        .save(&person)
        .expect("json setup save should succeed");

    let wincode_storage = json_storage
        .convert_to(Wincode)
        .expect("conversion json->wincode should succeed");
    let loaded = wincode_storage.load().expect("wincode load should succeed");

    assert!(wincode_storage.has_data());
    assert_eq!(loaded, person);
}

#[test]
fn converts_wincode_to_borsh_and_preserves_data() {
    let person = Person {
        name: "Andre".to_string(),
        age: 30,
    };
    let mut wincode_storage = Storage::<Person, Wincode>::new(Wincode);
    wincode_storage
        .save(&person)
        .expect("wincode setup save should succeed");

    let borsh_storage = wincode_storage
        .convert_to(Borsh)
        .expect("conversion wincode->borsh should succeed");
    let loaded = borsh_storage.load().expect("borsh load should succeed");

    assert!(borsh_storage.has_data());
    assert_eq!(loaded, person);
}

fn andre() -> Person {
    Person {
        name: "Andre".to_string(),
        age: 30,
    }
}

#[test]
fn load_before_any_save_fails_with_empty_storage() {
    let borsh = Storage::<Person, Borsh>::new(Borsh);
    let wincode = Storage::<Person, Wincode>::new(Wincode);
    let json = Storage::<Person, Json>::new(Json);
    assert!(!borsh.has_data());
    assert!(!wincode.has_data());
    assert!(!json.has_data());
    assert!(matches!(borsh.load(), Err(StorageError::EmptyStorage)));
    assert!(matches!(wincode.load(), Err(StorageError::EmptyStorage)));
    assert!(matches!(json.load(), Err(StorageError::EmptyStorage)));
}

#[test]
fn converting_an_empty_store_fails_with_empty_storage() {
    let borsh = Storage::<Person, Borsh>::new(Borsh);
    assert!(matches!(borsh.convert_to(Json), Err(StorageError::EmptyStorage)));
}

#[test]
fn save_replaces_the_previous_value() {
    let mut storage = Storage::<Person, Json>::new(Json);
    storage.save(&andre()).unwrap();
    let other = Person {
        name: "Bea".to_string(),
        age: 41,
    };
    storage.save(&other).unwrap();
    assert_eq!(storage.load().unwrap(), other);
}

#[test]
fn conversion_leaves_the_source_alone() {
    let mut source = Storage::<Person, Wincode>::new(Wincode);
    source.save(&andre()).unwrap();
    let converted = source.convert_to(Json).unwrap();
    assert_eq!(source.load().unwrap(), andre());
    assert_eq!(converted.load().unwrap(), source.load().unwrap());
}

#[test]
fn borsh_writes_length_prefixed_fields_in_order() {
    let bytes = Borsh.to_bytes(&andre()).unwrap();
    assert_eq!(bytes, vec![5, 0, 0, 0, b'A', b'n', b'd', b'r', b'e', 30]);
    assert_eq!(Borsh.from_bytes::<Person>(&bytes).unwrap(), andre());
}

#[test]
fn wincode_writes_bincode_layout() {
    let bytes = Wincode.to_bytes(&andre()).unwrap();
    assert_eq!(
        bytes,
        vec![5, 0, 0, 0, 0, 0, 0, 0, b'A', b'n', b'd', b'r', b'e', 30]
    );
    assert_eq!(Wincode.from_bytes::<Person>(&bytes).unwrap(), andre());
}

#[test]
fn json_writes_fields_in_order() {
    let bytes = Json.to_bytes(&andre()).unwrap();
    assert_eq!(bytes, br#"["Andre",30]"#.to_vec());
    assert_eq!(Json.from_bytes::<Person>(&bytes).unwrap(), andre());
}

#[test]
fn round_trip_holds_for_edge_values() {
    let values = [
        Person {
            name: String::new(),
            age: 0,
        },
        Person {
            name: "Zoë \"quoted\" \\ ✓".to_string(),
            age: 255,
        },
    ];
    for v in values {
        assert_eq!(Borsh.from_bytes::<Person>(&Borsh.to_bytes(&v).unwrap()).unwrap(), v);
        assert_eq!(Wincode.from_bytes::<Person>(&Wincode.to_bytes(&v).unwrap()).unwrap(), v);
        assert_eq!(Json.from_bytes::<Person>(&Json.to_bytes(&v).unwrap()).unwrap(), v);
    }
}

#[test]
fn decode_failures_are_tagged_with_their_format() {
    assert!(matches!(Borsh.from_bytes::<Person>(&[1, 2]), Err(StorageError::Borsh(_))));
    assert!(matches!(Wincode.from_bytes::<Person>(&[]), Err(StorageError::Wincode(_))));
    assert!(matches!(Json.from_bytes::<Person>(b"{"), Err(StorageError::Json(_))));
}

#[test]
fn error_messages_name_the_format() {
    assert_eq!(StorageError::EmptyStorage.message(), "storage has no data");
    assert_eq!(StorageError::Borsh("bad".to_string()).message(), "borsh error: bad");
    assert_eq!(StorageError::Wincode("bad".to_string()).message(), "wincode error: bad");
    assert_eq!(StorageError::Json("bad".to_string()).message(), "json error: bad");
}

#[test]
fn person_from_builds_the_record_or_tags_the_error() {
    let ok = person_from(Ok(("Andre".to_string(), 30)), FormatKind::Json).unwrap();
    assert_eq!(ok, andre());
    assert!(matches!(
        person_from(Err("boom".to_string()), FormatKind::Wincode),
        Err(StorageError::Wincode(m)) if m == "boom"
    ));
}
