use toml_edit::{value, DocumentMut, Item};
use tomldb::path::split_path;
use tomldb::{Import, KeyValueType, TableAction, TableArgs, Types};

#[test]
fn the_record_of_a_request() {
    let mut args = TableArgs::default();
    assert_eq!(args.to_string(), "-t '' -X str ''");
    args.set_table("a.b");
    args.set_key("k");
    assert_eq!(args.to_string(), "-t 'a.b' -X str 'k'");
    args.set_value(value(5));
    args.set_value_ty(Types::Integer);
    assert_eq!(args.to_string(), "-t 'a.b' -X int 'k' -- 5");
    args.set_modify(true);
    assert_eq!(args.to_string(), "--modify -t 'a.b' -X int 'k' -- 5");
    args.set_remove(true);
    assert_eq!(args.to_string(), "--modify --remove -t 'a.b' -X int 'k' -- 5");
    args.set_modify(false);
    assert_eq!(args.to_string(), "--remove -t 'a.b' -X int 'k' -- 5");
    args.set_extended_value_ty(Some(Types::Append));
    assert_eq!(args.to_string(), "--remove -t 'a.b' -X int -Y append 'k' -- 5");
    args.set_value(value("hello world"));
    assert_eq!(args.to_string(), "--remove -t 'a.b' -X int -Y append 'k' -- \"hello world\"");
    args.set_value(Item::None);
    assert_eq!(args.to_string(), "--remove -t 'a.b' -X int -Y append 'k' -- ");
}

#[test]
fn the_record_of_an_import_names_its_path() {
    let mut args = TableArgs::default();
    args.set_table("t");
    let import =
        Import { path: "other.toml".to_string(), contents: Some("a = 1\n".to_string()) };
    args.set_kvp("k", import);
    assert_eq!(args.value_type(), Types::Import);
    assert_eq!(args.import_path(), Some("other.toml"));
    assert_eq!(args.extended_value_type(), None);
    assert_eq!(args.to_string(), "-t 't' -X import 'k' -- 'other.toml'");
    // The path is written for an import only.
    args.set_value_ty(Types::Object);
    assert_eq!(args.to_string(), "-t 't' -X obj 'k' -- a = 1\n");
}

#[test]
fn the_record_of_an_action() {
    let mut args = TableArgs::default();
    args.set_table("t");
    args.set_kvp("k", "v");
    let request = "-t 't' -X str 'k' -- \"v\"";
    assert_eq!(TableAction::Insert(args.clone()).to_string(), format!("insert {}", request));
    assert_eq!(TableAction::Replace(args.clone()).to_string(), format!("replace {}", request));
    assert_eq!(TableAction::Remove(args.clone()).to_string(), format!("remove {}", request));
    assert_eq!(TableAction::View(args.clone()).to_string(), format!("view {}", request));
    assert_eq!(TableAction::Exists(args.clone()).to_string(), format!("exists {}", request));
    assert_eq!(TableAction::WouldRemove.to_string(), "");
    assert_eq!(TableAction::WouldReplace.to_string(), "");
    assert_eq!(TableAction::RejectTypeMismatch.to_string(), "");
    assert_eq!(TableAction::RejectExistingValueMismatch.to_string(), "");
    assert_eq!(TableAction::InternalRejectMissingTable.to_string(), "");
    assert_eq!(TableAction::NoOP.to_string(), "");
    assert_eq!(TableAction::Insert(args).clone().to_string(), format!("insert {}", request));
}

#[test]
fn values_know_their_type_and_their_item() {
    assert_eq!("v".db_type(), Types::String);
    assert_eq!("v".to_toml_item().as_str(), Some("v"));
    assert_eq!("v".to_toml_item().to_string(), "\"v\"");
    assert_eq!(String::from("w").db_type(), Types::String);
    assert_eq!(String::from("w").to_toml_item().as_str(), Some("w"));
    assert_eq!(7u32.db_type(), Types::Integer);
    assert_eq!(7u32.to_toml_item().as_integer(), Some(7));
    assert_eq!(u32::MAX.to_toml_item().as_integer(), Some(4294967295));
    assert_eq!(8u64.db_type(), Types::Integer);
    assert_eq!(8u64.to_toml_item().as_integer(), Some(8));
    assert_eq!(u64::MAX.to_toml_item().as_integer(), Some(-1));
    assert_eq!(9usize.db_type(), Types::Integer);
    assert_eq!(9usize.to_toml_item().as_integer(), Some(9));
    assert_eq!(9usize.to_toml_item().to_string(), "9");
}

#[test]
fn items_are_typed_by_their_kind() {
    let doc = "s = \"v\"\nb = true\nf = 1.5\ni = 5\no = { a = 1 }\na = [1, 2]\nd = 1979-05-27\n[t]\n[[u]]\n"
        .parse::<DocumentMut>()
        .unwrap();
    let expected = [
        ("s", Types::String),
        ("b", Types::Bool),
        ("f", Types::Float),
        ("i", Types::Integer),
        ("o", Types::Object),
        ("a", Types::Append),
        ("d", Types::String),
        ("t", Types::Import),
        ("u", Types::Object),
    ];
    for (key, ty) in expected {
        let item = doc.as_table().get(key).unwrap();
        assert_eq!(item.db_type(), ty, "{}", key);
        assert_eq!(item.to_toml_item().to_string(), item.to_string());
    }
    assert_eq!(Item::None.db_type(), Types::String);
    assert!(Item::None.to_toml_item().is_none());
}

#[test]
fn the_type_of_an_item_is_a_type_that_the_item_has() {
    let doc = "s = \"v\"\nb = true\nf = 1.5\ni = 5\no = { a = 1 }\na = [1, 2]\nd = 1979-05-27\n[t]\n[[u]]\n"
        .parse::<DocumentMut>()
        .unwrap();
    for key in ["s", "b", "f", "i", "o", "a", "t"] {
        let item = doc.as_table().get(key).unwrap();
        assert!(item.db_type().is_type(item), "{}", key);
        let mut args = TableArgs::default();
        args.set_kvp("k", item.clone());
        assert!(args.is_well_formed(), "{}", key);
    }
    // No type asks for a date, for an array of tables, or for no item.
    for key in ["d", "u"] {
        let item = doc.as_table().get(key).unwrap();
        assert!(!item.db_type().is_type(item), "{}", key);
    }
    assert!(!Item::None.db_type().is_type(&Item::None));
}

#[test]
fn integers_render_in_decimal() {
    assert_eq!(0u32.to_toml_item().to_string(), "0");
    assert_eq!(7u32.to_toml_item().to_string(), "7");
    assert_eq!(1234567890u64.to_toml_item().to_string(), "1234567890");
    assert_eq!(u64::MAX.to_toml_item().to_string(), "-1");
    assert_eq!((1u64 << 63).to_toml_item().to_string(), "-9223372036854775808");
    assert_eq!((i64::MAX as u64).to_toml_item().to_string(), "9223372036854775807");
}

#[test]
fn set_kvp_sets_key_value_and_type() {
    let mut args = TableArgs::default();
    args.set_table("t");
    args.set_modify(true);
    args.set_kvp("k", 5u32);
    assert_eq!(args.key(), "k");
    assert_eq!(args.table(), "t");
    assert_eq!(args.value_type(), Types::Integer);
    assert_eq!(args.value().unwrap().as_integer(), Some(5));
    assert!(args.modify());
    assert!(!args.remove());
    let copy = args.clone();
    assert_eq!(copy.to_string(), args.to_string());
    assert_eq!(copy.to_string(), "--modify -t 't' -X int 'k' -- 5");
}

#[test]
fn an_import_brings_the_root_table() {
    let import = Import {
        path: "other.toml".to_string(),
        contents: Some("a = 1\n[b]\nc = 2\n".to_string()),
    };
    assert_eq!(import.db_type(), Types::Import);
    let item = import.to_toml_item();
    let table = item.as_table().unwrap();
    assert_eq!(table.get("a").unwrap().as_integer(), Some(1));
    assert_eq!(
        table.get("b").unwrap().as_table().unwrap().get("c").unwrap().as_integer(),
        Some(2)
    );
    assert!(Types::Import.is_type(&item));
}

#[test]
fn an_import_that_cannot_be_read_or_parsed_brings_nothing() {
    let unread = Import { path: "missing.toml".to_string(), contents: None };
    assert!(unread.to_toml_item().is_none());
    let broken = Import { path: "broken.toml".to_string(), contents: Some("a = = 1".to_string()) };
    assert!(broken.to_toml_item().is_none());
    let mut args = TableArgs::default();
    args.set_table("t");
    args.set_kvp("k", broken);
    assert!(args.value().unwrap().is_none());
    assert_eq!(args.to_string(), "-t 't' -X import 'k' -- 'broken.toml'");
}

#[test]
fn an_imported_table_is_inserted_and_then_exists() {
    let mut doc = DocumentMut::new();
    let mut args = TableArgs::default();
    args.set_table("t");
    args.set_kvp(
        "k",
        Import { path: "other.toml".to_string(), contents: Some("a = 1\n".to_string()) },
    );
    assert!(matches!(args.eval(&mut doc), Ok(TableAction::Insert(..))));
    assert_eq!(doc["t"]["k"]["a"].as_integer(), Some(1));
    assert!(matches!(args.eval(&mut doc), Ok(TableAction::Exists(..))));
    let mut other = TableArgs::default();
    other.set_table("t");
    other.set_kvp(
        "k",
        Import { path: "other.toml".to_string(), contents: Some("a = 2\n".to_string()) },
    );
    assert!(matches!(other.eval(&mut doc), Ok(TableAction::RejectExistingValueMismatch)));
}

#[test]
fn table_paths_split_at_their_dots() {
    assert_eq!(split_path("a.b.c"), vec!["a", "b", "c"]);
    assert_eq!(split_path("a"), vec!["a"]);
    assert_eq!(split_path(""), vec![""]);
    assert_eq!(split_path("."), vec!["", ""]);
    assert_eq!(split_path("a..b"), vec!["a", "", "b"]);
    assert_eq!(split_path(".a."), vec!["", "a", ""]);
    assert_eq!(split_path("t\u{e9}.\u{4e2d}"), vec!["t\u{e9}", "\u{4e2d}"]);
    for path in ["a.b.c", "", "..", "x.y", "plain"] {
        let expected: Vec<&str> = path.split('.').collect();
        assert_eq!(split_path(path), expected);
    }
}
