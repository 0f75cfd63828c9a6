use notalawyer::config::{continue_config_lookup, manifest_toml_path, start_config_lookup, ConfigLookup};

fn probe_of(step: &ConfigLookup) -> Option<(String, String)> {
    match step {
        ConfigLookup::Probe { dir, about_toml } => Some((dir.clone(), about_toml.clone())),
        _ => None,
    }
}

#[test]
fn manifest_path_is_in_the_manifest_dir() {
    assert_eq!(manifest_toml_path("/work/app"), "/work/app/Cargo.toml");
}

#[test]
fn lookup_starts_in_the_manifest_dir() {
    let step = start_config_lookup("/work/app/Cargo.toml");
    assert_eq!(
        probe_of(&step),
        Some(("/work/app".to_string(), "/work/app/about.toml".to_string()))
    );
}

#[test]
fn missing_file_moves_to_the_parent_dir() {
    let step = continue_config_lookup("/work/app", None);
    assert_eq!(probe_of(&step), Some(("/work".to_string(), "/work/about.toml".to_string())));
}

#[test]
fn lookup_reaches_the_root_then_falls_back() {
    let step = continue_config_lookup("/work", None);
    assert_eq!(probe_of(&step), Some(("/".to_string(), "/about.toml".to_string())));
    let step = continue_config_lookup("/", None);
    assert!(matches!(step, ConfigLookup::Fallback));
}

fn accepted_of(step: &ConfigLookup) -> Option<Vec<String>> {
    match step {
        ConfigLookup::Found(cfg) => Some(cfg.accepted.iter().map(|l| l.to_string()).collect()),
        _ => None,
    }
}

/// Runs the lookup the way the build script does, over files held in memory.
fn run_lookup(manifest_path: &str, files: &[(&str, &str)]) -> ConfigLookup {
    let mut step = start_config_lookup(manifest_path);
    loop {
        match step {
            ConfigLookup::Probe { dir, about_toml } => {
                let contents = files.iter().find(|(path, _)| *path == about_toml).map(|(_, text)| *text);
                step = continue_config_lookup(&dir, contents);
            }
            done => return done,
        }
    }
}

#[test]
fn accepted_configuration_ends_the_lookup() {
    let step = continue_config_lookup("/work/app", Some("accepted = [\"MIT\", \"Apache-2.0\"]\n"));
    assert_eq!(accepted_of(&step), Some(vec!["MIT".to_string(), "Apache-2.0".to_string()]));
}

#[test]
fn nearest_accepted_configuration_wins() {
    let files = [
        ("/w/c/about.toml", "accepted = [\"ISC\"]\n"),
        ("/w/about.toml", "accepted = [\"MIT\"]\n"),
    ];
    let step = run_lookup("/w/c/Cargo.toml", &files);
    assert_eq!(accepted_of(&step), Some(vec!["ISC".to_string()]));
}

#[test]
fn invalid_nearer_file_is_skipped_for_a_farther_one() {
    let files = [
        ("/w/c/about.toml", "accepted = [\n"),
        ("/w/about.toml", "accepted = [\"MIT\"]\n"),
    ];
    let step = run_lookup("/w/c/Cargo.toml", &files);
    assert_eq!(accepted_of(&step), Some(vec!["MIT".to_string()]));
}

#[test]
fn files_outside_the_ancestors_do_not_count() {
    let files = [
        ("/w/c/sub/about.toml", "accepted = [\"ISC\"]\n"),
        ("/w/d/about.toml", "accepted = [\"MIT\"]\n"),
    ];
    let step = run_lookup("/w/c/Cargo.toml", &files);
    assert!(matches!(step, ConfigLookup::Fallback));
}

#[test]
fn configuration_without_accepted_is_skipped() {
    let step = continue_config_lookup("/work/app", Some("targets = []\n"));
    assert_eq!(probe_of(&step), Some(("/work".to_string(), "/work/about.toml".to_string())));
}

#[test]
fn text_that_is_not_toml_is_skipped() {
    let step = continue_config_lookup("/work/app", Some("accepted = [\n"));
    assert_eq!(probe_of(&step), Some(("/work".to_string(), "/work/about.toml".to_string())));
}

#[test]
fn relative_manifest_starts_in_the_current_dir() {
    let step = start_config_lookup("Cargo.toml");
    assert_eq!(probe_of(&step), Some(("".to_string(), "about.toml".to_string())));
    let step = continue_config_lookup("", None);
    assert!(matches!(step, ConfigLookup::Fallback));
}
