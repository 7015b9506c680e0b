use ram::static_files::{asset_path, cache_control, falls_back_to_index};

#[test]
fn test_cache_control_hashed_js() {
    let control = cache_control("ram-ui-abc123.js");
    assert!(control.contains("immutable"));
}

#[test]
fn test_cache_control_html() {
    let control = cache_control("index.html");
    assert_eq!(control, "no-cache");
}

#[test]
fn test_cache_control_default() {
    let control = cache_control("favicon.ico");
    assert!(control.contains("3600"));
}

#[test]
fn cache_control_exact_values() {
    assert_eq!(cache_control("app-1f2e.wasm"), "public, max-age=31536000, immutable");
    assert_eq!(cache_control("style-9a.css"), "public, max-age=31536000, immutable");
    // A hyphen alone does not make an asset immutable.
    assert_eq!(cache_control("logo-big.png"), "public, max-age=3600");
    // Neither does the extension without a hyphen.
    assert_eq!(cache_control("app.js"), "public, max-age=3600");
}

#[test]
fn asset_path_trims_all_leading_slashes() {
    assert_eq!(asset_path("/index.html"), "index.html");
    assert_eq!(asset_path("///a/b.js"), "a/b.js");
    assert_eq!(asset_path(""), "");
    assert_eq!(asset_path("x/"), "x/");
}

#[test]
fn spa_fallback_only_without_dot() {
    assert!(falls_back_to_index("devices/local"));
    assert!(falls_back_to_index(""));
    assert!(!falls_back_to_index("missing.png"));
}
