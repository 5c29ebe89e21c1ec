use jvlauncher::scrape::{apply_semantic_chunking, choose_main_content};
use jvlauncher::windows::WindowTracker;

#[test]
fn test_chunking_keeps_short_text() {
    let text = "first paragraph\n\nsecond paragraph";
    assert_eq!(apply_semantic_chunking(text), text);
}

#[test]
fn test_chunking_caps_long_text() {
    let para = "x".repeat(100);
    let mut text = String::new();
    for i in 0..400 {
        if i > 0 {
            text.push_str("\n\n");
        }
        text.push_str(&para);
    }
    assert!(text.len() > 32000);
    let chunked = apply_semantic_chunking(&text);
    assert!(chunked.len() < text.len());
    assert!(chunked.starts_with(&format!("{}\n\n", para)));
    assert!(chunked.contains("\n\n[Content extracted: ~"));
    assert!(chunked.ends_with("% of original page. Focused on main content and removed boilerplate.]"));
    // the kept body stays within three quarters of the cap (plus the
    // closing blank line of the last kept paragraph)
    let body_len = chunked.find("\n\n[Content extracted").unwrap();
    assert!(body_len <= 24002);
}

#[test]
fn test_choose_main_content_picks_first_substantial() {
    let long_a = format!("a{}", "y".repeat(250));
    let candidates = vec![
        None,
        Some("   \n\t ".to_string()),
        Some("short".to_string()),
        Some(long_a.clone()),
        Some(format!("b{}", "z".repeat(300))),
    ];
    assert_eq!(choose_main_content(&candidates, "fallback".to_string()), long_a);
    let none: Vec<Option<String>> = vec![None, Some("tiny".to_string())];
    assert_eq!(choose_main_content(&none, "fallback".to_string()), "fallback");
}

#[test]
fn test_window_tracker_bookkeeping() {
    let mut t = WindowTracker::new();
    t.register_app_window(1, "w1".to_string());
    t.register_app_window(2, "w2".to_string());
    t.register_app_window(1, "w1-replaced".to_string());
    assert_eq!(t.windows.len(), 2);
    assert!(t.windows.contains(&(1, "w1-replaced".to_string())));
    t.unregister_app_window(2);
    assert_eq!(t.windows, vec![(1, "w1-replaced".to_string())]);

    assert_eq!(t.restore_focus_to_previous_app(), None);
    t.capture_current_app(Some("com.example.editor".to_string()));
    assert_eq!(
        t.restore_focus_to_previous_app().as_deref(),
        Some("com.example.editor")
    );
    // an unknown frontmost application keeps the earlier capture
    t.capture_current_app(None);
    assert_eq!(
        t.restore_focus_to_previous_app().as_deref(),
        Some("com.example.editor")
    );
}
