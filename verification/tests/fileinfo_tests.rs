use rissois::fileinfo::{file_info_from_output, parse_output};
use rissois::timestamp::Timestamp;

fn utility_output() -> Vec<String> {
    vec![
        String::from("file: \"/Users/vineet/code/rissois/Cargo.toml\""),
        String::from("type: \"TEXT\""),
        String::from("creator: \"\""),
        String::from("created: 10/01/2023 17:56:59"),
        String::from("modified: 10/02/2023 08:01:02"),
    ]
}

#[test]
fn test_parse_output_picks_the_three_fields() {
    let raw = parse_output(&utility_output());
    assert_eq!(
        Some(String::from("\"/Users/vineet/code/rissois/Cargo.toml\"")),
        raw.file
    );
    assert_eq!(Some(String::from("10/01/2023 17:56:59")), raw.created);
    assert_eq!(Some(String::from("10/02/2023 08:01:02")), raw.modified);
}

#[test]
fn test_parse_output_last_line_wins() {
    let lines = vec![
        String::from("created: 01/01/2020 00:00:00"),
        String::from("created: 10/01/2023 17:56:59"),
    ];
    let raw = parse_output(&lines);
    assert_eq!(Some(String::from("10/01/2023 17:56:59")), raw.created);
    assert_eq!(None, raw.file);
    assert_eq!(None, raw.modified);
}

#[test]
fn test_parse_output_value_stops_at_second_separator() {
    // The value runs from the first separator to the next one, as a
    // separator-splitting reader sees it.
    let lines = vec![String::from("created: left: right")];
    let raw = parse_output(&lines);
    assert_eq!(Some(String::from("left")), raw.created);
}

#[test]
fn test_file_info_from_output() {
    let info = file_info_from_output("/tmp/x", &utility_output()).unwrap();
    assert_eq!("/tmp/x", info.path);
    assert_eq!(
        Timestamp {
            year: 2023,
            month: 10,
            day: 1,
            hour: 17,
            minute: 56,
            second: 59
        },
        info.created
    );
    assert_eq!(
        Timestamp {
            year: 2023,
            month: 10,
            day: 2,
            hour: 8,
            minute: 1,
            second: 2
        },
        info.modified
    );
}

#[test]
fn test_file_info_missing_fields() {
    let lines = vec![String::from("file: \"/tmp/x\"")];
    assert_eq!(
        "file info output has no created or modified time",
        file_info_from_output("/tmp/x", &lines).unwrap_err()
    );
}

#[test]
fn test_file_info_bad_datetime() {
    let lines = vec![
        String::from("created: 99/99/9999 99:99:99"),
        String::from("modified: 10/02/2023 08:01:02"),
    ];
    assert_eq!(
        "invalid datetime string",
        file_info_from_output("/tmp/x", &lines).unwrap_err()
    );
}
