use boiler::BoilerplateRecord;
use boiler::SourceKind;
use boiler::boiler_ls;
use boiler::resolve;

fn rec(access: &str, name: &str, kind: SourceKind, path: &str) -> BoilerplateRecord {
    BoilerplateRecord {
        access_name: access.to_string(),
        name: name.to_string(),
        kind,
        path: path.to_string(),
    }
}

#[test]
fn listing_prints_one_entry_per_record_in_order() {
    let records = vec![
        rec("web", "Web starter", SourceKind::Local, "/tpl/web"),
        rec("cli", "Command-line starter", SourceKind::Local, "/tpl/cli"),
    ];
    let lines = boiler_ls(&records);
    assert_eq!(lines.len(), 3);
    assert_eq!(lines[0], "The available boilerplates are:");
    assert_eq!(lines[1], "    web\n\tWeb starter");
    assert_eq!(lines[2], "    cli\n\tCommand-line starter");
}

#[test]
fn listing_of_empty_config_is_just_the_header() {
    let records: Vec<BoilerplateRecord> = Vec::new();
    let lines = boiler_ls(&records);
    assert_eq!(lines.len(), 1);
    assert_eq!(lines[0], "The available boilerplates are:");
}

#[test]
fn unknown_name_matches_nothing() {
    let records = vec![
        rec("web", "Web starter", SourceKind::Local, "/tpl/web"),
        rec("cli", "Command-line starter", SourceKind::Remote, ""),
    ];
    let found = resolve(&"gui".to_string(), &records);
    assert!(found.is_empty());
}

#[test]
fn matching_is_exact_and_case_sensitive() {
    let records = vec![
        rec("web", "Web starter", SourceKind::Local, "/tpl/web"),
        rec("Web", "Other", SourceKind::Local, "/tpl/other"),
    ];
    assert_eq!(resolve(&"web".to_string(), &records), vec![0]);
    assert_eq!(resolve(&"Web".to_string(), &records), vec![1]);
    assert!(resolve(&"web ".to_string(), &records).is_empty());
}

#[test]
fn duplicate_access_names_all_match_in_order() {
    let records = vec![
        rec("web", "First web starter", SourceKind::Local, "/tpl/one"),
        rec("cli", "Command-line starter", SourceKind::Local, "/tpl/cli"),
        rec("web", "Second web starter", SourceKind::Local, "/tpl/two"),
    ];
    let found = resolve(&"web".to_string(), &records);
    assert_eq!(found, vec![0, 2]);
}
