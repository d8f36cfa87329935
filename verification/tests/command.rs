use greeter::command::{
    close_application, commands, dispatch, lookup, Command, Outcome, EXIT_STATUS,
};
use greeter::text::same_text;

#[test]
fn table_has_two_commands() {
    let table = commands();
    assert_eq!(table, vec![Command::Greet, Command::CloseApplication]);
    assert_eq!(table.len(), 2);
}

#[test]
fn names_of_the_commands() {
    assert_eq!(Command::Greet.name(), "greet");
    assert_eq!(Command::CloseApplication.name(), "close_application");
    assert_ne!(Command::Greet.name(), Command::CloseApplication.name());
}

#[test]
fn lookup_finds_each_name() {
    assert_eq!(lookup("greet"), Some(Command::Greet));
    assert_eq!(lookup("close_application"), Some(Command::CloseApplication));
    for command in commands() {
        assert_eq!(lookup(command.name()), Some(command));
    }
}

#[test]
fn lookup_is_exact() {
    assert_eq!(lookup(""), None);
    assert_eq!(lookup("Greet"), None);
    assert_eq!(lookup("greet "), None);
    assert_eq!(lookup("gree"), None);
    assert_eq!(lookup("close-application"), None);
    assert_eq!(lookup("close_applicatio\u{441}"), None);
}

#[test]
fn close_application_gives_status_zero() {
    assert_eq!(close_application(), 0);
    assert_eq!(EXIT_STATUS, 0);
}

#[test]
fn invoke_greet_replies() {
    match Command::Greet.invoke("World") {
        Outcome::Reply(text) => {
            assert_eq!(text, "Hello, World! You've been greeted from Rust!")
        }
        Outcome::Exit(status) => panic!("left with {}", status),
    }
}

#[test]
fn invoke_close_application_exits() {
    assert!(matches!(Command::CloseApplication.invoke("ignored"), Outcome::Exit(0)));
}

#[test]
fn dispatch_by_name() {
    match dispatch("greet", "") {
        Some(Outcome::Reply(text)) => assert_eq!(text, "Hello, ! You've been greeted from Rust!"),
        other => panic!("{:?}", other),
    }
    assert!(matches!(dispatch("close_application", ""), Some(Outcome::Exit(0))));
}

#[test]
fn dispatch_of_an_unknown_name() {
    assert!(dispatch("open_application", "x").is_none());
    assert!(dispatch("", "greet").is_none());
}

#[test]
fn same_text_compares_contents() {
    assert!(same_text("", ""));
    assert!(same_text("greet", "greet"));
    assert!(same_text("Zoë", "Zoë"));
    assert!(!same_text("greet", "greed"));
    assert!(!same_text("greet", "greets"));
    assert!(!same_text("greets", "greet"));
    assert!(!same_text("", "a"));
    assert!(!same_text("e\u{301}", "\u{e9}"));
}
