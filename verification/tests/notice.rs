use notalawyer::notice::{crate_link, render_license_list, License, LicenseList, Package};

const SEPARATOR: &str = "--------------------------------------------------------------------------";

fn package(name: &str, version: &str, repository: Option<&str>) -> Package {
    Package {
        name: name.to_string(),
        version: version.to_string(),
        repository: repository.map(|r| r.to_string()),
    }
}

#[test]
fn crate_link_uses_repository_when_present() {
    assert_eq!(
        crate_link("serde", Some("https://github.com/serde-rs/serde")),
        " https://github.com/serde-rs/serde "
    );
}

#[test]
fn crate_link_falls_back_to_crates_io_page() {
    assert_eq!(
        crate_link("serde", None),
        " https://crates.io/crates/serde "
    );
}

#[test]
fn crate_link_keeps_an_empty_repository() {
    assert_eq!(crate_link("serde", Some("")), "  ");
}

#[test]
fn empty_license_list_renders_empty_notice() {
    let list = LicenseList { licenses: Vec::new() };
    assert_eq!(render_license_list(&list), "");
}

#[test]
fn license_without_users_renders_name_text_and_separator() {
    let list = LicenseList {
        licenses: vec![License {
            name: "MIT License".to_string(),
            text: "Permission is hereby granted".to_string(),
            used_by: Vec::new(),
        }],
    };
    let expected = format!("MIT License\n Used by:\n\nPermission is hereby granted\n{SEPARATOR}\n");
    assert_eq!(render_license_list(&list), expected);
}

#[test]
fn notice_lists_each_crate_with_its_link() {
    let list = LicenseList {
        licenses: vec![
            License {
                name: "MIT License".to_string(),
                text: "MIT text".to_string(),
                used_by: vec![
                    package("serde", "1.0.210", Some("https://github.com/serde-rs/serde")),
                    package("itoa", "1.0.11", None),
                ],
            },
            License {
                name: "Apache License 2.0".to_string(),
                text: "Apache text".to_string(),
                used_by: vec![package("camino", "1.2.6", Some("https://github.com/camino-rs/camino"))],
            },
        ],
    };
    let expected = format!(
        "MIT License\n Used by:\n  - serde 1.0.210 ( https://github.com/serde-rs/serde )\n  - itoa 1.0.11 ( https://crates.io/crates/itoa )\n\nMIT text\n{SEPARATOR}\n\
         Apache License 2.0\n Used by:\n  - camino 1.2.6 ( https://github.com/camino-rs/camino )\n\nApache text\n{SEPARATOR}\n"
    );
    assert_eq!(render_license_list(&list), expected);
}

#[test]
fn notice_of_two_lists_is_their_notices_in_turn() {
    let first = License {
        name: "MIT License".to_string(),
        text: "MIT text".to_string(),
        used_by: vec![package("itoa", "1.0.11", None)],
    };
    let second = License {
        name: "ISC License".to_string(),
        text: "ISC text".to_string(),
        used_by: vec![package("ring", "0.17.14", Some("https://github.com/briansmith/ring"))],
    };
    let both = LicenseList { licenses: vec![first.clone(), second.clone()] };
    let only_first = LicenseList { licenses: vec![first] };
    let only_second = LicenseList { licenses: vec![second] };
    assert_eq!(
        render_license_list(&both),
        render_license_list(&only_first) + &render_license_list(&only_second)
    );
}

#[test]
fn every_crate_line_stands_in_the_notice() {
    let list = LicenseList {
        licenses: vec![License {
            name: "MIT License".to_string(),
            text: "MIT text".to_string(),
            used_by: vec![
                package("a", "0.1.0", None),
                package("b", "0.2.0", Some("https://example.org/b")),
                package("c", "0.3.0", None),
            ],
        }],
    };
    let notice = render_license_list(&list);
    assert!(notice.contains("  - a 0.1.0 ( https://crates.io/crates/a )\n  - b 0.2.0 ( https://example.org/b )\n  - c 0.3.0 ( https://crates.io/crates/c )\n"));
}
