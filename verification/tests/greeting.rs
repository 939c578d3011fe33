use tauri_app::greet;
use tauri_app::greeting;

#[test]
fn greet_empty_name() {
    assert_eq!(greet(""), "Hello, ! You've been greeted from Rust!");
}

#[test]
fn greet_world() {
    assert_eq!(greet("World"), "Hello, World! You've been greeted from Rust!");
}

#[test]
fn greet_is_reachable_by_its_module_path() {
    assert_eq!(greeting::greet("World"), greet("World"));
}

#[test]
fn greet_keeps_the_name_as_given() {
    assert_eq!(greet("Ada Lovelace"), "Hello, Ada Lovelace! You've been greeted from Rust!");
    assert_eq!(greet("  padded  "), "Hello,   padded  ! You've been greeted from Rust!");
    assert_eq!(greet("UPPER lower"), "Hello, UPPER lower! You've been greeted from Rust!");
    assert_eq!(greet("two\nlines"), "Hello, two\nlines! You've been greeted from Rust!");
    assert_eq!(greet("tab\there"), "Hello, tab\there! You've been greeted from Rust!");
}

#[test]
fn greet_does_not_read_the_name_as_a_pattern() {
    assert_eq!(greet("{}"), "Hello, {}! You've been greeted from Rust!");
    assert_eq!(greet("{name}"), "Hello, {name}! You've been greeted from Rust!");
    assert_eq!(greet("%s \\n"), "Hello, %s \\n! You've been greeted from Rust!");
    assert_eq!(greet("<b>bold</b>"), "Hello, <b>bold</b>! You've been greeted from Rust!");
}

#[test]
fn greet_takes_text_beyond_ascii() {
    assert_eq!(greet("Zoë"), "Hello, Zoë! You've been greeted from Rust!");
    assert_eq!(greet("世界"), "Hello, 世界! You've been greeted from Rust!");
    assert_eq!(greet("🦀"), "Hello, 🦀! You've been greeted from Rust!");
    assert_eq!(greet("e\u{301}"), "Hello, e\u{301}! You've been greeted from Rust!");
}

#[test]
fn greet_of_a_greeting_nests() {
    let inner = greet("World");
    assert_eq!(
        greet(&inner),
        "Hello, Hello, World! You've been greeted from Rust!! You've been greeted from Rust!"
    );
}

#[test]
fn greet_adds_a_fixed_frame_round_the_name() {
    let names = ["", "a", "World", "Zoë", "世界", "a name with spaces", "!!!"];
    for name in names {
        let text = greet(name);
        assert_eq!(text, format!("Hello, {}! You've been greeted from Rust!", name));
        assert_eq!(text.len(), name.len() + 39);
        assert_eq!(text.chars().count(), name.chars().count() + 39);
        assert!(text.starts_with("Hello, "));
        assert!(text.ends_with("! You've been greeted from Rust!"));
        assert_eq!(&text[7..7 + name.len()], name);
    }
}

#[test]
fn greet_takes_a_long_name() {
    let name = "x".repeat(100_000);
    let text = greet(&name);
    assert_eq!(text.len(), 100_039);
    assert_eq!(text, format!("Hello, {}! You've been greeted from Rust!", name));
}

#[test]
fn greet_gives_the_same_text_each_time() {
    let name = String::from("World");
    let first = greet(&name);
    let second = greet(&name);
    assert_eq!(first, second);
    assert_eq!(name, "World");
}

#[test]
fn greet_tells_names_apart() {
    assert_ne!(greet("World"), greet("world"));
    assert_ne!(greet(""), greet(" "));
}
