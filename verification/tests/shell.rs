use paper_index::shell::{greet, toggle_devtools};

#[test]
fn greeting_names_the_guest() {
    assert_eq!(greet("Ada"), "Hello, Ada! You've been greeted from Rust!");
    assert_eq!(greet(""), "Hello, ! You've been greeted from Rust!");
}

#[test]
fn devtools_open_only_in_a_debug_build_in_development() {
    assert_eq!(toggle_devtools(true, Some("dev")), Ok(()));
    assert_eq!(
        toggle_devtools(true, Some("prod")),
        Err("DevTools functionality is not yet fully implemented".to_string())
    );
    assert_eq!(
        toggle_devtools(true, None),
        Err("DevTools functionality is not yet fully implemented".to_string())
    );
    assert_eq!(
        toggle_devtools(false, Some("dev")),
        Err("DevTools access is disabled in production builds for security reasons".to_string())
    );
    assert_eq!(
        toggle_devtools(false, None),
        Err("DevTools access is disabled in production builds for security reasons".to_string())
    );
}
