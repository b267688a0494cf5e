use waybar_extensions::config::UnfinishedProjectsConfig;
use waybar_extensions::system::failed_units;
use waybar_extensions::github::get_icon;
use waybar_extensions::projects::age_class;
use waybar_extensions::text::{push_decimal, str_eq};
use waybar_extensions::waybar::columnize_output;
use waybar_extensions::weather::get_wind_direction;

#[test]
fn columnize_pads_to_widest_cell() {
    let headings = vec![String::from("Repository"), String::from("Changes")];
    let rows = vec![
        vec![String::from("projA"), String::from("2")],
        vec![String::from("longproject"), String::from("10")],
    ];
    let table = columnize_output(&rows, &headings);
    let expected = "<b>Repository </b>    <b>Changes</b>\nprojA          2      \nlongproject    10     ";
    assert_eq!(table, expected);
}

#[test]
fn columnize_heading_only() {
    let headings = vec![String::from("Repository"), String::from("Changes")];
    let rows: Vec<Vec<String>> = vec![];
    let table = columnize_output(&rows, &headings);
    assert_eq!(table, "<b>Repository</b>    <b>Changes</b>");
}

#[test]
fn columnize_allows_short_rows() {
    let headings = vec![String::from("Name"), String::from("Count")];
    let rows = vec![vec![String::from("only")]];
    let table = columnize_output(&rows, &headings);
    assert_eq!(table, "<b>Name</b>    <b>Count</b>\nonly");
}

#[test]
fn wind_direction_names() {
    assert_eq!(get_wind_direction(0), "N");
    assert_eq!(get_wind_direction(11), "N");
    assert_eq!(get_wind_direction(12), "NNE");
    assert_eq!(get_wind_direction(90), "E");
    assert_eq!(get_wind_direction(180), "S");
    assert_eq!(get_wind_direction(270), "W");
    assert_eq!(get_wind_direction(348), "NNW");
    assert_eq!(get_wind_direction(349), "N");
    assert_eq!(get_wind_direction(360), "N");
}

#[test]
fn notification_icons() {
    assert_eq!(get_icon("PullRequest"), "\u{ea64}");
    assert_eq!(get_icon("Issue"), "\u{eb0c}");
    assert_eq!(get_icon("Discussion"), "\u{f442}");
    assert_eq!(get_icon("Release"), "\u{f02b}");
    assert_eq!(get_icon("CheckSuite"), "CheckSuite");
}

fn project_config() -> UnfinishedProjectsConfig {
    UnfinishedProjectsConfig {
        project_dirs: vec![String::from("~/projects")],
        max_file_depth: Some(4),
        max_project_depth: None,
        active_age: 1,
        warning_age: 7,
        critical_age: 30,
    }
}

#[test]
fn project_age_classes() {
    let config = project_config();
    assert_eq!(age_class(None, &config), None);
    assert_eq!(age_class(Some(0), &config), None);
    assert_eq!(age_class(Some(86_400), &config), None);
    assert_eq!(age_class(Some(86_401), &config), Some("active"));
    assert_eq!(age_class(Some(8 * 86_400), &config), Some("warning"));
    assert_eq!(age_class(Some(31 * 86_400), &config), Some("critical"));
}

#[test]
fn failed_units_from_unit_listing() {
    let listing = "  UNIT LOAD ACTIVE SUB DESCRIPTION\n\
                   \u{25cf} foo.service loaded failed failed A broken service\n\
                   \u{25cf} bar.service loaded active running A fine service\n\
                   \u{25cf} baz.timer loaded failed failed A broken timer\n\
                   \n\
                   LOAD = whether the unit definition was loaded\n";
    assert_eq!(failed_units(listing), vec!["foo.service", "baz.timer"]);
}

#[test]
fn failed_units_stop_at_blank_line() {
    let listing = "HEADING\n\n\u{25cf} after.service loaded failed failed ignored\n";
    assert_eq!(failed_units(listing), Vec::<String>::new());
}

#[test]
fn failed_units_of_empty_listing() {
    assert_eq!(failed_units(""), Vec::<String>::new());
    assert_eq!(failed_units("only a heading"), Vec::<String>::new());
}

#[test]
fn string_helpers() {
    assert!(str_eq("same", "same"));
    assert!(!str_eq("same", "sane"));
    assert!(!str_eq("long", "longer"));
    assert!(str_eq("", ""));

    let mut rendered = String::from("n = ");
    push_decimal(&mut rendered, 1_234_567_890);
    assert_eq!(rendered, "n = 1234567890");
    let mut zero = String::new();
    push_decimal(&mut zero, 0);
    assert_eq!(zero, "0");
}
