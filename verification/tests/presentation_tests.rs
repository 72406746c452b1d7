use vscwhere::models::{Options, OutputFormat, VSCodeInstance};
use vscwhere::output::{format_text, get_property_value};
use vscwhere::version::parse_version;

fn instance(path: &str, version: &str) -> VSCodeInstance {
    VSCodeInstance {
        installation_path: path.to_string(),
        installation_version: version.to_string(),
        product_path: format!("{}/Code.exe", path),
        product_id: "stable".to_string(),
        is_prerelease: false,
        display_name: "Visual Studio Code".to_string(),
        extensions_path: "/home/user/.vscode/extensions".to_string(),
        user_data_path: "/home/user/AppData/Roaming/Code".to_string(),
    }
}

#[test]
fn options_default_values() {
    let o = Options::default();
    assert!(o.all);
    assert!(!o.prerelease);
    assert!(!o.latest);
    assert!(matches!(o.format, OutputFormat::Text));
    assert!(o.property.is_none());
    assert!(!o.nologo);
    assert!(!o.sort);
    assert!(!o.help);
}

#[test]
fn options_parse_flags_and_values() {
    let args: Vec<String> = vec![
        "-prerelease".to_string(),
        "-FORMAT".to_string(),
        "JSON".to_string(),
        "-property".to_string(),
        "ProductId".to_string(),
        "-nologo".to_string(),
        "-sort".to_string(),
        "-latest".to_string(),
    ];
    let o = Options::parse(&args);
    assert!(o.prerelease);
    assert!(matches!(o.format, OutputFormat::Json));
    assert_eq!(o.property.as_deref(), Some("ProductId"));
    assert!(o.nologo);
    assert!(o.sort);
    assert!(o.latest);
    assert!(!o.help);
}

#[test]
fn options_parse_ignores_unknown_and_handles_help_spellings() {
    for help in ["-help", "-?", "/?"] {
        let args: Vec<String> = vec!["bogus".to_string(), help.to_string()];
        let o = Options::parse(&args);
        assert!(o.help);
    }
    let args: Vec<String> = vec!["--prerelease".to_string()];
    assert!(!Options::parse(&args).prerelease);
}

#[test]
fn options_parse_format_without_value() {
    let args: Vec<String> = vec!["-format".to_string()];
    let o = Options::parse(&args);
    assert!(matches!(o.format, OutputFormat::Text));
    let args2: Vec<String> = vec!["-format".to_string(), "xml".to_string()];
    let o2 = Options::parse(&args2);
    assert!(matches!(o2.format, OutputFormat::Text));
}

#[test]
fn options_parse_property_consumes_next_argument() {
    let args: Vec<String> =
        vec!["-property".to_string(), "-sort".to_string(), "-nologo".to_string()];
    let o = Options::parse(&args);
    assert_eq!(o.property.as_deref(), Some("-sort"));
    assert!(!o.sort);
    assert!(o.nologo);
}

#[test]
fn property_lookup_is_case_insensitive() {
    let i = instance("/apps/code", "1.90.0");
    assert_eq!(get_property_value(&i, "installationPath").as_deref(), Some("/apps/code"));
    assert_eq!(get_property_value(&i, "INSTALLATIONVERSION").as_deref(), Some("1.90.0"));
    assert_eq!(get_property_value(&i, "productpath").as_deref(), Some("/apps/code/Code.exe"));
    assert_eq!(get_property_value(&i, "ProductId").as_deref(), Some("stable"));
    assert_eq!(get_property_value(&i, "isPrerelease").as_deref(), Some("false"));
    assert_eq!(get_property_value(&i, "displayName").as_deref(), Some("Visual Studio Code"));
    assert_eq!(
        get_property_value(&i, "extensionsPath").as_deref(),
        Some("/home/user/.vscode/extensions")
    );
    assert_eq!(
        get_property_value(&i, "userDataPath").as_deref(),
        Some("/home/user/AppData/Roaming/Code")
    );
    assert!(get_property_value(&i, "noSuchProperty").is_none());
}

#[test]
fn property_lookup_renders_prerelease_flag() {
    let mut i = instance("/apps/code", "1.90.0");
    i.is_prerelease = true;
    assert_eq!(get_property_value(&i, "isprerelease").as_deref(), Some("true"));
}

#[test]
fn format_text_renders_labelled_block() {
    let i = instance("/apps/code", "1.90.0");
    let text = format_text(&[i], None);
    let expected = "installationPath: /apps/code\n\
                    installationVersion: 1.90.0\n\
                    productPath: /apps/code/Code.exe\n\
                    productId: stable\n\
                    isPrerelease: false\n\
                    displayName: Visual Studio Code\n\
                    extensionsPath: /home/user/.vscode/extensions\n\
                    userDataPath: /home/user/AppData/Roaming/Code";
    assert_eq!(text, expected);
}

#[test]
fn format_text_separates_records_with_blank_line() {
    let a = instance("/apps/one", "1.0.0");
    let b = instance("/apps/two", "2.0.0");
    let text = format_text(&[a, b], None);
    assert!(text.contains("userDataPath: /home/user/AppData/Roaming/Code\n\ninstallationPath: /apps/two"));
    assert!(!text.ends_with('\n'));
}

#[test]
fn format_text_with_property_filter() {
    let a = instance("/apps/one", "1.0.0");
    let b = instance("/apps/two", "2.0.0");
    let text = format_text(&[a, b], Some("installationPath"));
    assert_eq!(text, "/apps/one\n/apps/two");
}

#[test]
fn format_text_empty_inputs() {
    assert_eq!(format_text(&[], None), "");
    assert_eq!(format_text(&[], Some("productId")), "");
    let a = instance("/apps/one", "1.0.0");
    assert_eq!(format_text(&[a], Some("noSuchProperty")), "");
}

#[test]
fn format_text_pops_one_trailing_empty_property_line() {
    let a = instance("/apps/one", "1.0.0");
    let mut b = instance("/apps/two", "2.0.0");
    b.product_id = "".to_string();
    let text = format_text(&[a, b], Some("productId"));
    assert_eq!(text, "stable");
}

#[test]
fn parse_version_splits_numeric_chunks() {
    assert_eq!(parse_version("1.90.0"), vec![1, 90, 0]);
    assert_eq!(parse_version("10.2"), vec![10, 2]);
    assert_eq!(parse_version(""), Vec::<u32>::new());
    assert_eq!(parse_version("1..2"), vec![1, 2]);
    assert_eq!(parse_version("1.beta.3"), vec![1, 3]);
    assert_eq!(parse_version("007"), vec![7]);
}

#[test]
fn parse_version_accepts_a_leading_plus() {
    assert_eq!(parse_version("1.+5.2"), vec![1, 5, 2]);
    assert_eq!(parse_version("+7"), vec![7]);
    assert_eq!(parse_version("+"), Vec::<u32>::new());
    assert_eq!(parse_version("++3"), Vec::<u32>::new());
    assert_eq!(parse_version("-3"), Vec::<u32>::new());
}

#[test]
fn parse_version_drops_overflowing_chunks() {
    assert_eq!(parse_version("4294967295"), vec![4294967295]);
    assert_eq!(parse_version("4294967296.1"), vec![1]);
    assert_eq!(parse_version("99999999999999999999.2"), vec![2]);
}
