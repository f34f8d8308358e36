use log_rs::banner::{BannerConfig, print_address, render};

// ---------------------------------------------------------------------------
// BannerConfig construction
// ---------------------------------------------------------------------------

#[test]
fn test_banner_config_creation() {
    let config = BannerConfig {
        name: "TestApp",
        version: "1.0.0",
        tagline: Some("A test application"),
        addr: Some("127.0.0.1:8080"),
    };

    assert_eq!(config.name, "TestApp");
    assert_eq!(config.version, "1.0.0");
    assert_eq!(config.tagline, Some("A test application"));
    assert_eq!(config.addr, Some("127.0.0.1:8080"));
}

#[test]
fn test_banner_config_with_none_values() {
    let config = BannerConfig {
        name: "TestApp",
        version: "1.0.0",
        tagline: None,
        addr: None,
    };

    assert_eq!(config.tagline, None);
    assert_eq!(config.addr, None);
}

#[test]
fn test_banner_config_lifetime() {
    let name = String::from("TestApp");
    let version = String::from("1.0.0");

    let config = BannerConfig {
        name: &name,
        version: &version,
        tagline: None,
        addr: None,
    };

    assert_eq!(config.name, "TestApp");
}

// ---------------------------------------------------------------------------
// Tagline defaulting
// ---------------------------------------------------------------------------

#[test]
fn test_default_tagline_when_none() {
    let config = BannerConfig {
        name: "TestApp",
        version: "1.0.0",
        tagline: None,
        addr: None,
    };

    // The default tagline should be "app.rs framework"
    let tagline = config.tagline.unwrap_or("app.rs framework");
    assert_eq!(tagline, "app.rs framework");
}

#[test]
fn test_custom_tagline_when_some() {
    let config = BannerConfig {
        name: "TestApp",
        version: "1.0.0",
        tagline: Some("Custom tagline"),
        addr: None,
    };

    let tagline = config.tagline.unwrap_or("app.rs framework");
    assert_eq!(tagline, "Custom tagline");
}

// ---------------------------------------------------------------------------
// Full configurations
// ---------------------------------------------------------------------------

#[test]
fn test_full_config_with_all_fields() {
    let config = BannerConfig {
        name: "MyApp",
        version: "1.2.3",
        tagline: Some("The best app ever"),
        addr: Some("127.0.0.1:8080"),
    };

    assert_eq!(config.name, "MyApp");
    assert_eq!(config.version, "1.2.3");
    assert_eq!(config.tagline.unwrap(), "The best app ever");
    assert_eq!(config.addr.unwrap(), "127.0.0.1:8080");
}

#[test]
fn test_minimal_config() {
    let config = BannerConfig {
        name: "MinimalApp",
        version: "0.1.0",
        tagline: None,
        addr: None,
    };

    assert_eq!(config.name, "MinimalApp");
    assert_eq!(config.version, "0.1.0");
    assert!(config.tagline.is_none());
    assert!(config.addr.is_none());
}

#[test]
fn test_config_with_only_addr() {
    let config = BannerConfig {
        name: "ServerApp",
        version: "1.0.0",
        tagline: None,
        addr: Some("0.0.0.0:8080"),
    };

    assert!(config.addr.is_some());
    assert!(config.tagline.is_none());
}

#[test]
fn test_config_with_only_tagline() {
    let config = BannerConfig {
        name: "InfoApp",
        version: "1.0.0",
        tagline: Some("Just information"),
        addr: None,
    };

    assert!(config.tagline.is_some());
    assert!(config.addr.is_none());
}

// ---------------------------------------------------------------------------
// Edge cases
// ---------------------------------------------------------------------------

#[test]
fn test_empty_name() {
    let config = BannerConfig {
        name: "",
        version: "1.0.0",
        tagline: None,
        addr: None,
    };

    assert_eq!(config.name, "");
}

#[test]
fn test_empty_version() {
    let config = BannerConfig {
        name: "TestApp",
        version: "",
        tagline: None,
        addr: None,
    };

    assert_eq!(config.version, "");
}

#[test]
fn test_very_long_name() {
    let long_name = "A".repeat(1000);
    let config = BannerConfig {
        name: &long_name,
        version: "1.0.0",
        tagline: None,
        addr: None,
    };

    assert_eq!(config.name.len(), 1000);
}

#[test]
fn test_special_characters_in_tagline() {
    let config = BannerConfig {
        name: "TestApp",
        version: "1.0.0",
        tagline: Some("App with \u{1f680} emoji and <special> chars"),
        addr: None,
    };

    assert!(config.tagline.unwrap().contains("\u{1f680}"));
    assert!(config.tagline.unwrap().contains("<special>"));
}

#[test]
fn test_multiline_tagline() {
    let config = BannerConfig {
        name: "TestApp",
        version: "1.0.0",
        tagline: Some("Line 1\nLine 2\nLine 3"),
        addr: None,
    };

    assert!(config.tagline.unwrap().contains('\n'));
}

#[test]
fn test_version_with_pre_release() {
    let config = BannerConfig {
        name: "TestApp",
        version: "1.0.0-alpha.1+build.123",
        tagline: None,
        addr: None,
    };

    assert_eq!(config.version, "1.0.0-alpha.1+build.123");
}

// ---------------------------------------------------------------------------
// Address rendering
// ---------------------------------------------------------------------------

#[test]
fn address_with_specific_ip() {
    let result = print_address("127.0.0.1", 8080);
    assert_eq!(result, "\x1b[32m127.0.0.1:8080\x1b[0m");
}

#[test]
fn address_wildcard_shows_port_only() {
    let result = print_address("0.0.0.0", 3000);
    assert_eq!(result, "\x1b[32m:3000\x1b[0m");
}

#[test]
fn address_ipv6_wildcard_shows_port_only() {
    let result = print_address("::", 8080);
    assert_eq!(result, "\x1b[32m:8080\x1b[0m");
}

#[test]
fn address_port_zero() {
    let result = print_address("127.0.0.1", 0);
    assert_eq!(result, "\x1b[32m127.0.0.1:0\x1b[0m");
}

#[test]
fn address_max_port() {
    let result = print_address("127.0.0.1", 65535);
    assert_eq!(result, "\x1b[32m127.0.0.1:65535\x1b[0m");
}

#[test]
fn address_color_codes_present() {
    let result = print_address("127.0.0.1", 8080);
    assert!(result.starts_with("\x1b[32m"));
    assert!(result.ends_with("\x1b[0m"));
}

// ---------------------------------------------------------------------------
// Banner text
// ---------------------------------------------------------------------------

#[test]
fn banner_text_uses_default_tagline() {
    let config = BannerConfig {
        name: "TestApp",
        version: "1.0.0",
        tagline: None,
        addr: None,
    };
    let text = render(&config, None);
    assert!(text.contains("app.rs framework"));
    assert!(text.contains("v1.0.0"));
}

#[test]
fn banner_text_with_address_line() {
    let config = BannerConfig {
        name: "MyServer",
        version: "2.0.0",
        tagline: Some("Fast and reliable"),
        addr: Some("0.0.0.0:3000"),
    };
    let text = render(&config, Some(("0.0.0.0", 3000)));
    assert!(text.contains("MyServer"));
    assert!(text.contains("listening on"));
    assert!(text.contains(":3000"));
    assert!(!text.contains("0.0.0.0"));
    assert!(text.contains("Fast and reliable"));
}

#[test]
fn banner_text_without_address_has_no_listening_line() {
    let config = BannerConfig {
        name: "TestApp",
        version: "1.0.0",
        tagline: None,
        addr: None,
    };
    let text = render(&config, None);
    assert!(!text.contains("listening on"));
}
