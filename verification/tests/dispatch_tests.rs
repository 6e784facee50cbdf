use boiler::Command;
use boiler::boiler_command_not_found;
use boiler::boiler_version;
use boiler::dispatch;

fn args(items: &[&str]) -> Vec<String> {
    items.iter().map(|s| s.to_string()).collect()
}

#[test]
fn no_arguments_lists() {
    let c = dispatch(&args(&["boiler"]));
    assert_eq!(c, Command::List);
}

#[test]
fn ls_lists() {
    let c = dispatch(&args(&["boiler", "ls"]));
    assert_eq!(c, Command::List);
}

#[test]
fn version_is_reserved() {
    let c = dispatch(&args(&["boiler", "version"]));
    assert_eq!(c, Command::Version);
}

#[test]
fn other_argument_is_an_access_name() {
    let c = dispatch(&args(&["boiler", "web"]));
    assert_eq!(c, Command::Boil("web".to_string()));
}

#[test]
fn extra_arguments_are_ignored() {
    let c = dispatch(&args(&["boiler", "web", "ls"]));
    assert_eq!(c, Command::Boil("web".to_string()));
}

#[test]
fn version_banner_is_fixed() {
    assert_eq!(boiler_version(), "Boiler v0.1.0");
}

#[test]
fn not_found_report_names_the_problem() {
    let lines = boiler_command_not_found();
    assert_eq!(lines.len(), 2);
    assert!(lines[0].contains("No such command"));
    assert_eq!(lines[0], "Boiler: No such command!");
    assert_eq!(lines[1], "Boiler: Try 'boiler ls' for available options");
}
