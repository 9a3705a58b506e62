use workhelix_cli_common::license::{display_license, format_license, license_text};
use workhelix_cli_common::LicenseType;

#[test]
fn test_license_type() {
    assert_eq!(LicenseType::MIT.name(), "MIT");
    assert_eq!(LicenseType::Apache2.name(), "Apache-2.0");
    assert_eq!(LicenseType::CC0.name(), "CC0-1.0");
}

#[test]
fn test_license_type_from_str() {
    assert_eq!(LicenseType::parse("MIT"), Some(LicenseType::MIT));
    assert_eq!(LicenseType::parse("mit"), Some(LicenseType::MIT));
    assert_eq!(LicenseType::parse("Apache-2.0"), Some(LicenseType::Apache2));
    assert_eq!(LicenseType::parse("apache"), Some(LicenseType::Apache2));
    assert_eq!(LicenseType::parse("CC0-1.0"), Some(LicenseType::CC0));
    assert_eq!(LicenseType::parse("cc0"), Some(LicenseType::CC0));
    assert_eq!(LicenseType::parse("unknown"), None);
}

#[test]
fn test_license_type_name() {
    assert_eq!(LicenseType::MIT.name(), "MIT");
    assert_eq!(LicenseType::Apache2.name(), "Apache-2.0");
    assert_eq!(LicenseType::CC0.name(), "CC0-1.0");
}

#[test]
fn test_display_license_mit() {
    let output = display_license("test-tool", LicenseType::MIT);
    assert!(output.contains("test-tool"));
    assert!(output.contains("MIT"));
    assert!(output.contains("Permission is hereby granted"));
    assert!(output.contains("Commercial use"));
}

#[test]
fn test_display_license_apache() {
    let output = display_license("test-tool", LicenseType::Apache2);
    assert!(output.contains("test-tool"));
    assert!(output.contains("Apache"));
    assert!(output.contains("Patent use"));
}

#[test]
fn test_display_license_cc0() {
    let output = display_license("test-tool", LicenseType::CC0);
    assert!(output.contains("test-tool"));
    assert!(output.contains("CC0"));
    assert!(output.contains("No rights reserved"));
}

#[test]
fn parse_upper_takes_only_upper_case_names() {
    assert_eq!(LicenseType::parse_upper("APACHE2"), Some(LicenseType::Apache2));
    assert_eq!(LicenseType::parse_upper("apache2"), None);
    assert_eq!(LicenseType::parse_upper(""), None);
}

#[test]
fn parse_folds_mixed_case() {
    assert_eq!(LicenseType::parse("aPaChE2"), Some(LicenseType::Apache2));
    assert_eq!(LicenseType::parse("Cc0-1.0"), Some(LicenseType::CC0));
}

#[test]
fn license_text_exact_for_cc0() {
    let text = license_text("tool", LicenseType::CC0, "LICENSE");
    assert_eq!(
        text,
        "tool is licensed under CC0-1.0\n\n\
         Creative Commons CC0 1.0 Universal - Public domain dedication:\n\
         • No rights reserved\n\
         • Can be used for any purpose\n\
         • No attribution required\n\
         \n\
         For full license text, see: LICENSE\n"
    );
}

#[test]
fn plain_license_pointer_off_terminal() {
    let text = format_license("tool", LicenseType::Apache2, false);
    assert!(text.starts_with("tool is licensed under Apache-2.0\n\n"));
    assert!(text.ends_with("\n\nFor full license text, see: LICENSE file in project root\n"));
    let styled = format_license("tool", LicenseType::Apache2, true);
    assert!(styled.contains("LICENSE file in project root"));
    assert!(styled.ends_with('\n'));
}
