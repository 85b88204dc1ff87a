use file_access::greeting::greet;

#[test]
fn test_greet_with_name() {
    let result = greet("World");
    assert_eq!(result, "Hello, World! You've been greeted from Rust!");
}

#[test]
fn test_greet_with_empty_string() {
    let result = greet("");
    assert_eq!(result, "Hello, ! You've been greeted from Rust!");
}

#[test]
fn test_greet_with_special_characters() {
    let result = greet("测试用户");
    assert_eq!(result, "Hello, 测试用户! You've been greeted from Rust!");
}

#[test]
fn test_greet_with_long_name() {
    let long_name = "A".repeat(1000);
    let result = greet(&long_name);
    assert!(result.starts_with("Hello, "));
    assert!(result.ends_with("! You've been greeted from Rust!"));
    assert!(result.contains(&long_name));
}

#[test]
fn test_greet_returns_string() {
    let result = greet("Test");
    assert!(result.is_ascii());
    assert!(!result.is_empty());
}
