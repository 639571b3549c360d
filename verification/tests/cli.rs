use clap::{Arg, ArgAction, Command};
use toml_edit::Item;
use tomldb::cmd::push_tail;
use tomldb::{split_cmd, TableAction, TableArgs};

fn table_args() -> Vec<Arg> {
    vec![
        Arg::new("remove").long("remove").short('r').action(ArgAction::SetTrue),
        Arg::new("modify").long("modify").short('m').action(ArgAction::SetTrue),
        Arg::new("table").long("table").short('t').default_value(""),
        Arg::new("key").required(true),
        Arg::new("value"),
    ]
}

fn cli() -> Command {
    let mut command = Command::new("test");
    for name in ["insert", "replace", "remove", "view", "exists"] {
        command = command.subcommand(Command::new(name).args(table_args()));
    }
    command
}

fn parse(args: Vec<String>) -> TableAction {
    let matches = cli().get_matches_from(args);
    let (name, matches) = matches.subcommand().unwrap();
    let mut args = TableArgs::default();
    args.set_remove(matches.get_flag("remove"));
    args.set_modify(matches.get_flag("modify"));
    args.set_table(matches.get_one::<String>("table").unwrap());
    args.set_key(matches.get_one::<String>("key").unwrap());
    if let Some(value) = matches.get_one::<String>("value") {
        args.set_value(value.parse::<Item>().unwrap());
    }
    match name {
        "insert" => TableAction::Insert(args),
        "replace" => TableAction::Replace(args),
        "remove" => TableAction::Remove(args),
        "view" => TableAction::View(args),
        "exists" => TableAction::Exists(args),
        other => panic!("no such action: {}", other),
    }
}

#[test]
fn test_cli_args() {
    let args = split_cmd("test insert --table 'test' key -- \'value\'").unwrap();
    let command = parse(args);

    assert!(matches!(command, TableAction::Insert(..)));
    if let TableAction::Insert(args) = command {
        assert!(!args.remove());
        assert!(!args.modify());
        assert_eq!("test", args.table());
        assert_eq!("key", args.key());
        assert_eq!("value", args.value().unwrap().as_str().unwrap());
    }
}

#[test]
fn a_command_line_becomes_an_action() {
    let command = parse(split_cmd("test view -m -t a.b key").unwrap());
    assert!(matches!(command, TableAction::View(..)));
    assert_eq!(command.to_string(), "view --modify -t 'a.b' -X str 'key'");
    let command = parse(split_cmd("test replace -r -m key -- { x = 1 }").unwrap());
    assert_eq!(command.to_string(), "replace --modify --remove -t '' -X str 'key' -- { x = 1 }");
}

#[test]
fn what_follows_the_marker_is_one_argument() {
    assert_eq!(
        split_cmd("test insert --table 'test' key -- 'value'").unwrap(),
        vec!["test", "insert", "--table", "test", "key", "--", "'value'"]
    );
    assert_eq!(
        split_cmd("insert key --   { a = 1, b = \"two words\" }  ").unwrap(),
        vec!["insert", "key", "--", "{ a = 1, b = \"two words\" }"]
    );
    assert_eq!(split_cmd("a -- b -- c").unwrap(), vec!["a", "--", "b -- c"]);
    assert_eq!(split_cmd("a --  \t ").unwrap(), vec!["a", "--", ""]);
    assert_eq!(split_cmd("a --b -- ").unwrap(), vec!["a", "--b", "--", ""]);
    assert_eq!(split_cmd(" -- x").unwrap(), vec!["--", "x"]);
    assert_eq!(split_cmd("insert key -- it's").unwrap(), vec!["insert", "key", "--", "it's"]);
    assert_eq!(
        split_cmd("\u{e9}t\u{e9} 'cl\u{e9}' -- \u{a0}\u{4e2d} \u{6587}\u{2003}").unwrap(),
        vec!["\u{e9}t\u{e9}", "cl\u{e9}", "--", "\u{4e2d} \u{6587}"]
    );
}

#[test]
fn without_the_marker_a_command_splits_as_in_a_shell() {
    assert_eq!(
        split_cmd("insert 'a b' c\\ d \"e f\"").unwrap(),
        vec!["insert", "a b", "c d", "e f"]
    );
    assert_eq!(split_cmd("a --b --").unwrap(), vec!["a", "--b", "--"]);
    assert_eq!(split_cmd("a--b").unwrap(), vec!["a--b"]);
    assert_eq!(split_cmd("a - - b").unwrap(), vec!["a", "-", "-", "b"]);
    assert_eq!(split_cmd("").unwrap(), Vec::<String>::new());
}

#[test]
fn a_command_that_a_shell_would_not_take_splits_into_nothing() {
    assert!(split_cmd("insert 'open").is_none());
    assert!(split_cmd("insert 'open -- value").is_none());
    assert!(split_cmd("insert \"open -- value\"").is_none());
}

#[test]
fn the_tail_follows_two_dashes() {
    let args = vec!["a".to_string(), "b".to_string()];
    assert_eq!(push_tail(Some(args.clone()), " y z ").unwrap(), vec!["a", "b", "--", "y z"]);
    assert_eq!(push_tail(Some(Vec::new()), "y").unwrap(), vec!["--", "y"]);
    assert_eq!(push_tail(Some(args.clone()), "").unwrap(), vec!["a", "b", "--", ""]);
    assert_eq!(push_tail(Some(args.clone()), " \n\t ").unwrap(), vec!["a", "b", "--", ""]);
    assert_eq!(
        push_tail(Some(args), "\u{a0}\u{4e2d} \u{e9}\u{2003}").unwrap(),
        vec!["a", "b", "--", "\u{4e2d} \u{e9}"]
    );
    assert!(push_tail(None, "y").is_none());
}
