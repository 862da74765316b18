use wallpaper_layer::validation::{validate_deep_link, validate_oauth_url, validate_updater_endpoint};

#[test]
fn test_valid_updater_endpoint() {
    assert!(validate_updater_endpoint(
        "https://github.com/MyWallpapers/app/releases/download/v1.0.0/latest.json"
    )
    .is_ok());
}

#[test]
fn test_valid_updater_endpoint_dev_tag() {
    assert!(validate_updater_endpoint(
        "https://github.com/MyWallpapers/app/releases/download/v1.0.0-dev/latest.json"
    )
    .is_ok());
}

#[test]
fn test_updater_rejects_http() {
    assert!(validate_updater_endpoint(
        "http://github.com/MyWallpapers/app/releases/download/v1.0.0/latest.json"
    )
    .is_err());
}

#[test]
fn test_updater_rejects_wrong_host() {
    assert!(validate_updater_endpoint(
        "https://evil.com/MyWallpapers/app/releases/download/v1.0.0/latest.json"
    )
    .is_err());
}

#[test]
fn test_updater_rejects_wrong_path() {
    assert!(validate_updater_endpoint(
        "https://github.com/evil/repo/releases/download/v1.0.0/latest.json"
    )
    .is_err());
}

#[test]
fn test_updater_rejects_garbage() {
    assert!(validate_updater_endpoint("not a url").is_err());
}

#[test]
fn updater_errors_carry_their_messages() {
    assert_eq!(validate_updater_endpoint("not a url"), Err("Invalid endpoint URL".to_string()));
    assert_eq!(
        validate_updater_endpoint("http://github.com/MyWallpapers/app/releases/download/x"),
        Err("Endpoint must use HTTPS".to_string())
    );
    assert_eq!(
        validate_updater_endpoint("https://GITHUB.com.evil.io/MyWallpapers/app/releases/download/x"),
        Err("Endpoint must be on github.com".to_string())
    );
    assert_eq!(
        validate_updater_endpoint("https://github.com/MyWallpapers/app/releases/"),
        Err("Endpoint must point to MyWallpapers/app releases".to_string())
    );
    // The parser lower-cases the host, so this one is accepted.
    assert!(validate_updater_endpoint(
        "https://GitHub.com/MyWallpapers/app/releases/download/v2/latest.json"
    )
    .is_ok());
}

#[test]
fn test_validate_oauth_url_https() {
    assert!(
        validate_oauth_url("https://accounts.google.com/o/oauth2/auth?client_id=123").is_ok()
    );
}

#[test]
fn test_validate_oauth_url_localhost_http() {
    assert!(validate_oauth_url("http://localhost:3000/callback").is_ok());
    assert!(validate_oauth_url("http://127.0.0.1:8080/callback").is_ok());
}

#[test]
fn test_validate_oauth_url_rejects_non_localhost_http() {
    assert!(validate_oauth_url("http://evil.com/phish").is_err());
    assert!(validate_oauth_url("http://example.com").is_err());
}

#[test]
fn test_validate_oauth_url_rejects_private_ips() {
    assert!(validate_oauth_url("https://10.0.0.1/callback").is_err());
    assert!(validate_oauth_url("https://192.168.1.1/callback").is_err());
    assert!(validate_oauth_url("https://172.16.0.1/callback").is_err());
}

#[test]
fn test_validate_oauth_url_rejects_schemes() {
    assert!(validate_oauth_url("ftp://example.com").is_err());
    assert!(validate_oauth_url("javascript:alert(1)").is_err());
    assert!(validate_oauth_url("data:text/html,<h1>hi</h1>").is_err());
    assert!(validate_oauth_url("file:///etc/passwd").is_err());
}

#[test]
fn test_validate_oauth_url_rejects_garbage() {
    assert!(validate_oauth_url("not a url").is_err());
    assert!(validate_oauth_url("").is_err());
}

#[test]
fn test_validate_oauth_url_rejects_ipv6_private() {
    assert!(validate_oauth_url("https://[::1]/callback").is_err());
    assert!(validate_oauth_url("https://[fd12::1]/callback").is_err());
    assert!(validate_oauth_url("https://[fc00::1]/callback").is_err());
    assert!(validate_oauth_url("https://[fe80::1]/callback").is_err());
    assert!(validate_oauth_url("https://[::]/callback").is_err());
    assert!(validate_oauth_url("https://[::ffff:10.0.0.1]/callback").is_err());
    assert!(validate_oauth_url("https://[::ffff:192.168.1.1]/callback").is_err());
    assert!(validate_oauth_url("https://[::ffff:127.0.0.1]/callback").is_err());
}

#[test]
fn test_validate_oauth_url_allows_public_ipv6() {
    assert!(validate_oauth_url("https://[2607:f8b0:4004:800::200e]/callback").is_ok());
}

#[test]
fn oauth_edges_of_private_ranges() {
    assert!(validate_oauth_url("https://172.15.255.255/cb").is_ok());
    assert!(validate_oauth_url("https://172.31.255.255/cb").is_err());
    assert!(validate_oauth_url("https://172.32.0.1/cb").is_ok());
    assert!(validate_oauth_url("https://169.254.1.1/cb").is_err());
    assert!(validate_oauth_url("https://0.0.0.0/cb").is_err());
    assert!(validate_oauth_url("https://8.8.8.8/cb").is_ok());
    assert!(validate_oauth_url("https://[::ffff:8.8.8.8]/cb").is_ok());
    assert!(validate_oauth_url("http://[::1]:9000/cb").is_ok());
    assert_eq!(
        validate_oauth_url("http://example.com"),
        Err("HTTP is only allowed for localhost".to_string())
    );
    assert_eq!(
        validate_oauth_url("https://10.1.2.3/"),
        Err("HTTPS to private/internal IPs is not allowed".to_string())
    );
    assert_eq!(
        validate_oauth_url("ftp://example.com"),
        Err("URL must use https:// (or http:// for localhost)".to_string())
    );
    assert_eq!(validate_oauth_url("not a url"), Err("Invalid URL".to_string()));
}

#[test]
fn test_deep_link_valid_paths() {
    assert!(validate_deep_link("mywallpaper://callback?code=abc").is_some());
    assert!(validate_deep_link("mywallpaper://auth/complete").is_some());
    assert!(validate_deep_link("mywallpaper://oauth/google?token=x").is_some());
    assert!(validate_deep_link("mywallpaper://login").is_some());
    assert!(validate_deep_link("mywallpaper://app/settings").is_some());
    assert!(validate_deep_link("mywallpaper://").is_some());
    assert!(validate_deep_link("mywallpaper:///").is_some());
}

#[test]
fn test_deep_link_rejects_invalid() {
    assert!(validate_deep_link("https://evil.com").is_none());
    assert!(validate_deep_link("javascript:alert(1)").is_none());
    assert!(validate_deep_link("mywallpaper://evil/path").is_none());
    assert!(validate_deep_link("mywallpaper://admin/delete").is_none());
    assert!(validate_deep_link("not a url").is_none());
}

#[test]
fn deep_link_comes_back_normalized() {
    assert_eq!(
        validate_deep_link("MyWallpaper://callback?code=a b"),
        Some("mywallpaper://callback?code=a%20b".to_string())
    );
}
