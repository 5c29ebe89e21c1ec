use jvlauncher::icons::{default_favicon_url, sanitize_filename};

#[test]
fn test_sanitize_filename() {
    assert_eq!(sanitize_filename("My App"), "My App");
    assert_eq!(sanitize_filename("My/App"), "My_App");
    assert_eq!(sanitize_filename("My:App*"), "My_App_");
}

#[test]
fn test_default_favicon_url() {
    let url = url::Url::parse("https://example.com/some/path").unwrap();
    let favicon = default_favicon_url(url.scheme(), url.host_str().unwrap_or(""));
    assert_eq!(favicon, "https://example.com/favicon.ico");
}
