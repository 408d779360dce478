use config_store::greet;

#[test]
fn greets_by_name() {
    assert_eq!(greet("World"), "Hello, World! You've been greeted from Rust!");
}

#[test]
fn greets_an_empty_name() {
    assert_eq!(greet(""), "Hello, ! You've been greeted from Rust!");
}

#[test]
fn greets_a_name_beyond_ascii() {
    assert_eq!(greet("Zoë 李"), "Hello, Zoë 李! You've been greeted from Rust!");
}

#[test]
fn greeting_keeps_braces_in_the_name() {
    assert_eq!(greet("{}"), "Hello, {}! You've been greeted from Rust!");
}
