use greet_app::greeting::greet;

#[test]
fn greet_empty_name() {
    assert_eq!(greet(""), "Hello, ! You've been greeted from Rust!");
}

#[test]
fn greet_world() {
    assert_eq!(greet("World"), "Hello, World! You've been greeted from Rust!");
}

#[test]
fn greet_inserts_name_verbatim() {
    for name in ["Ada", "  spaced  ", "Zoë", "{name}", "a!b,c", "日本"] {
        let expected = format!("Hello, {}! You've been greeted from Rust!", name);
        assert_eq!(greet(name), expected);
    }
}

#[test]
fn greet_repeated_calls_agree() {
    let first = greet("Grace");
    let second = greet("Grace");
    assert_eq!(first, second);
    assert_eq!(first, "Hello, Grace! You've been greeted from Rust!");
}
