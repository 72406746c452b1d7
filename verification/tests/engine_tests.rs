use vscwhere::discovery::{
    build_instance, determine_quality_from_display_name, discover_installations, find_executable,
    get_extensions_folder_name, get_user_data_folder_name, is_vscode_installation,
    package_manifest_path, product_manifest_path, Candidate,
};
use vscwhere::manifest::{read_package_manifest, read_product_manifest};
use vscwhere::models::{DiskFacts, Environment, PackageInfo, ProductInfo, RegistryEntry};

fn entry(publisher: &str, display_name: &str, install_location: &str) -> RegistryEntry {
    RegistryEntry {
        publisher: publisher.to_string(),
        display_name: display_name.to_string(),
        install_location: install_location.to_string(),
    }
}

fn full_facts() -> DiskFacts {
    DiskFacts {
        root_exists: true,
        stable_exe_exists: true,
        insiders_exe_exists: false,
        exploration_exe_exists: false,
    }
}

fn env() -> Environment {
    Environment {
        user_profile: Some("/home/user".to_string()),
        app_data: Some("/home/user/AppData/Roaming".to_string()),
    }
}

fn candidate(e: RegistryEntry, facts: DiskFacts) -> Candidate {
    Candidate { entry: e, facts, product_text: None, package_text: None }
}

#[test]
fn validator_accepts_target() {
    assert!(is_vscode_installation(
        "Microsoft Corporation",
        "Microsoft Visual Studio Code (User)"
    ));
    assert!(is_vscode_installation(
        "MICROSOFT CORPORATION",
        "microsoft visual studio code insiders"
    ));
}

#[test]
fn validator_rejects_other_publishers_and_names() {
    assert!(!is_vscode_installation("Someone Else", "Microsoft Visual Studio Code"));
    assert!(!is_vscode_installation("Microsoft Corporation", "Microsoft Office"));
    assert!(!is_vscode_installation("", ""));
}

#[test]
fn nonmatching_entries_never_surface() {
    let user = vec![
        candidate(entry("Someone Else", "Microsoft Visual Studio Code", "/a"), full_facts()),
        candidate(entry("Microsoft Corporation", "Microsoft Office", "/b"), full_facts()),
        candidate(entry("Microsoft Corporation", "Microsoft Visual Studio Code", ""), full_facts()),
    ];
    let machine = Vec::new();
    let found = discover_installations(&user, &machine, &env(), true);
    assert!(found.is_empty());
}

#[test]
fn duplicate_paths_keep_first_seen_across_scopes() {
    let user = vec![candidate(
        entry("Microsoft Corporation", "Microsoft Visual Studio Code (User)", "/apps/Code"),
        full_facts(),
    )];
    let machine = vec![candidate(
        entry("Microsoft Corporation", "Microsoft Visual Studio Code", "/APPS/CODE"),
        full_facts(),
    )];
    let found = discover_installations(&user, &machine, &env(), true);
    assert_eq!(found.len(), 1);
    assert_eq!(found[0].installation_path, "/apps/Code");
    assert_eq!(found[0].display_name, "Microsoft Visual Studio Code (User)");
}

#[test]
fn distinct_paths_both_kept_in_order() {
    let user = vec![candidate(
        entry("Microsoft Corporation", "Microsoft Visual Studio Code (User)", "/apps/one"),
        full_facts(),
    )];
    let machine = vec![candidate(
        entry("Microsoft Corporation", "Microsoft Visual Studio Code", "/apps/two"),
        full_facts(),
    )];
    let found = discover_installations(&user, &machine, &env(), true);
    assert_eq!(found.len(), 2);
    assert_eq!(found[0].installation_path, "/apps/one");
    assert_eq!(found[1].installation_path, "/apps/two");
}

#[test]
fn prerelease_excluded_when_disabled() {
    let user = vec![candidate(
        entry("Microsoft Corporation", "Microsoft Visual Studio Code Insiders", "/apps/ins"),
        DiskFacts {
            root_exists: true,
            stable_exe_exists: false,
            insiders_exe_exists: true,
            exploration_exe_exists: false,
        },
    )];
    let machine = Vec::new();
    let excluded = discover_installations(&user, &machine, &env(), false);
    assert!(excluded.is_empty());
    let included = discover_installations(&user, &machine, &env(), true);
    assert_eq!(included.len(), 1);
    assert!(included[0].is_prerelease);
    assert_eq!(included[0].product_id, "insider");
}

#[test]
fn discarded_prerelease_does_not_block_later_entry_at_same_path() {
    let user = vec![candidate(
        entry("Microsoft Corporation", "Microsoft Visual Studio Code Insiders", "/apps/code"),
        DiskFacts {
            root_exists: true,
            stable_exe_exists: false,
            insiders_exe_exists: true,
            exploration_exe_exists: false,
        },
    )];
    let machine = vec![candidate(
        entry("Microsoft Corporation", "Microsoft Visual Studio Code", "/apps/code"),
        full_facts(),
    )];
    let found = discover_installations(&user, &machine, &env(), false);
    assert_eq!(found.len(), 1);
    assert!(!found[0].is_prerelease);
    assert_eq!(found[0].product_id, "stable");
}

#[test]
fn insider_manifest_quality_sets_prerelease_and_folder() {
    let product = Some(ProductInfo {
        name_short: None,
        name_long: None,
        quality: Some("insider".to_string()),
        data_folder_name: None,
    });
    let built = build_instance(
        "/apps/code",
        "Microsoft Visual Studio Code",
        &product,
        &None,
        DiskFacts {
            root_exists: true,
            stable_exe_exists: false,
            insiders_exe_exists: true,
            exploration_exe_exists: false,
        },
        &env(),
    )
    .unwrap();
    assert!(built.is_prerelease);
    assert_eq!(built.extensions_path, "/home/user/.vscode-insiders/extensions");
}

#[test]
fn insider_manifest_with_custom_data_folder() {
    let product = Some(ProductInfo {
        name_short: None,
        name_long: None,
        quality: Some("insider".to_string()),
        data_folder_name: Some(".custom-folder".to_string()),
    });
    let built = build_instance(
        "/apps/code",
        "Microsoft Visual Studio Code",
        &product,
        &None,
        full_facts(),
        &env(),
    )
    .unwrap();
    assert!(built.is_prerelease);
    assert_eq!(built.extensions_path, "/home/user/.custom-folder/extensions");
}

#[test]
fn missing_package_manifest_yields_unknown_version() {
    let built = build_instance(
        "/apps/code",
        "Microsoft Visual Studio Code",
        &None,
        &None,
        full_facts(),
        &env(),
    )
    .unwrap();
    assert_eq!(built.installation_version, "unknown");
}

#[test]
fn missing_install_root_yields_no_record() {
    let built = build_instance(
        "/apps/gone",
        "Microsoft Visual Studio Code",
        &Some(ProductInfo {
            name_short: None,
            name_long: Some("Visual Studio Code".to_string()),
            quality: Some("stable".to_string()),
            data_folder_name: None,
        }),
        &Some(PackageInfo { version: Some("1.90.0".to_string()) }),
        DiskFacts {
            root_exists: false,
            stable_exe_exists: true,
            insiders_exe_exists: true,
            exploration_exe_exists: true,
        },
        &env(),
    );
    assert!(built.is_none());
}

#[test]
fn missing_executable_yields_no_record() {
    let built = build_instance(
        "/apps/code",
        "Microsoft Visual Studio Code",
        &None,
        &None,
        DiskFacts {
            root_exists: true,
            stable_exe_exists: false,
            insiders_exe_exists: false,
            exploration_exe_exists: false,
        },
        &env(),
    );
    assert!(built.is_none());
}

#[test]
fn missing_environment_roots_yield_no_record() {
    let no_profile = Environment {
        user_profile: None,
        app_data: Some("/home/user/AppData/Roaming".to_string()),
    };
    let no_app_data = Environment { user_profile: Some("/home/user".to_string()), app_data: None };
    for e in [no_profile, no_app_data] {
        let built = build_instance(
            "/apps/code",
            "Microsoft Visual Studio Code",
            &None,
            &None,
            full_facts(),
            &e,
        );
        assert!(built.is_none());
    }
}

#[test]
fn end_to_end_stable_record() {
    let user = vec![Candidate {
        entry: entry(
            "Microsoft Corporation",
            "Microsoft Visual Studio Code (User)",
            "/fakepath/Code",
        ),
        facts: full_facts(),
        product_text: Some(
            "{\"nameLong\": \"Visual Studio Code\", \"quality\": \"stable\"}".to_string(),
        ),
        package_text: Some("{\"version\": \"1.90.0\"}".to_string()),
    }];
    let machine = Vec::new();
    let found = discover_installations(&user, &machine, &env(), false);
    assert_eq!(found.len(), 1);
    let rec = &found[0];
    assert_eq!(rec.installation_path, "/fakepath/Code");
    assert_eq!(rec.installation_version, "1.90.0");
    assert_eq!(rec.product_id, "stable");
    assert!(!rec.is_prerelease);
    assert_eq!(rec.display_name, "Visual Studio Code");
    assert_eq!(rec.product_path, "/fakepath/Code/Code.exe");
    assert_eq!(rec.extensions_path, "/home/user/.vscode/extensions");
    assert_eq!(rec.user_data_path, "/home/user/AppData/Roaming/Code");
}

#[test]
fn quality_inference_from_display_name() {
    assert_eq!(determine_quality_from_display_name("Microsoft Visual Studio Code Insiders"), "insider");
    assert_eq!(determine_quality_from_display_name("VS Code EXPLORATION build"), "exploration");
    assert_eq!(determine_quality_from_display_name("Microsoft Visual Studio Code"), "stable");
}

#[test]
fn channel_folder_tables_are_distinct() {
    assert_eq!(get_extensions_folder_name("stable"), ".vscode");
    assert_eq!(get_extensions_folder_name("insider"), ".vscode-insiders");
    assert_eq!(get_extensions_folder_name("exploration"), ".vscode-exploration");
    assert_eq!(get_extensions_folder_name("anything-else"), ".vscode");
    assert_eq!(get_user_data_folder_name("stable"), "Code");
    assert_eq!(get_user_data_folder_name("INSIDER"), "Code - Insiders");
    assert_eq!(get_user_data_folder_name("exploration"), "Code - Exploration");
    assert_eq!(get_user_data_folder_name("weird"), "Code");
}

#[test]
fn executable_search_order_is_stable_first() {
    let all = DiskFacts {
        root_exists: true,
        stable_exe_exists: true,
        insiders_exe_exists: true,
        exploration_exe_exists: true,
    };
    assert_eq!(find_executable("/r", all).unwrap(), "/r/Code.exe");
    let only_exploration = DiskFacts {
        root_exists: true,
        stable_exe_exists: false,
        insiders_exe_exists: false,
        exploration_exe_exists: true,
    };
    assert_eq!(find_executable("/r", only_exploration).unwrap(), "/r/Code - Exploration.exe");
    let none = DiskFacts {
        root_exists: true,
        stable_exe_exists: false,
        insiders_exe_exists: false,
        exploration_exe_exists: false,
    };
    assert!(find_executable("/r", none).is_none());
}

#[test]
fn manifest_paths_under_install_root() {
    assert_eq!(product_manifest_path("/r"), "/r/resources/app/product.json");
    assert_eq!(package_manifest_path("/r"), "/r/resources/app/package.json");
}

#[test]
fn product_manifest_parsing_extracts_fields() {
    let text = Some(
        "{\"nameShort\": \"Code\", \"nameLong\": \"Visual Studio Code\", \"quality\": \"insider\", \"dataFolderName\": \".vscode-insiders\", \"other\": 3}"
            .to_string(),
    );
    let info = read_product_manifest(&text).unwrap();
    assert_eq!(info.name_short.as_deref(), Some("Code"));
    assert_eq!(info.name_long.as_deref(), Some("Visual Studio Code"));
    assert_eq!(info.quality.as_deref(), Some("insider"));
    assert_eq!(info.data_folder_name.as_deref(), Some(".vscode-insiders"));
}

#[test]
fn manifest_parsing_tolerates_absence_and_garbage() {
    assert!(read_product_manifest(&None).is_none());
    assert!(read_product_manifest(&Some("not json at all".to_string())).is_none());
    assert!(read_package_manifest(&None).is_none());
    assert!(read_package_manifest(&Some("{broken".to_string())).is_none());
    let empty = read_product_manifest(&Some("{}".to_string())).unwrap();
    assert!(empty.name_long.is_none());
    assert!(empty.quality.is_none());
    let version = read_package_manifest(&Some("{\"version\": \"1.2.3\"}".to_string())).unwrap();
    assert_eq!(version.version.as_deref(), Some("1.2.3"));
    let nonstring = read_package_manifest(&Some("{\"version\": 5}".to_string())).unwrap();
    assert!(nonstring.version.is_none());
    let nonobject = read_product_manifest(&Some("[1, 2]".to_string())).unwrap();
    assert!(nonobject.name_long.is_none());
    assert!(nonobject.quality.is_none());
}
