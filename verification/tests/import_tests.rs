use regex::Regex;
use rissois::import::{
    cli_import, filename_slug, make_title, note_skeleton, target_filepath, TsPrefix,
};
use rissois::timestamp::Timestamp;

fn sample_ts() -> Timestamp {
    Timestamp {
        year: 2023,
        month: 10,
        day: 1,
        hour: 17,
        minute: 56,
        second: 59,
    }
}

#[test]
fn test_filename_slug() {
    assert_eq!(filename_slug("/path/to/MyFile.txt"), "my_file");
    assert_eq!(filename_slug("/path/to/My File.txt"), "my_file");
    assert_eq!(filename_slug("/path/to/my_File.txt"), "my_file");
    assert_eq!(filename_slug("/path/to/myFILE.txt"), "my_file");
    assert_eq!(filename_slug("/path/to/myfile.log.txt"), "myfile_log");
    assert_eq!(filename_slug("/path/to/my-file.txt"), "my_file");
}

#[test]
fn test_make_title() {
    assert_eq!("My File", make_title("/path/to/MyFile.txt"));
    assert_eq!("My File", make_title("/path/to/My_File.txt"));
}

#[test]
fn test_target_filepath() {
    let target_dir = "/tmp";
    let src = "/Users/vineet/Dropbox/notes/JVM.org";
    let target = target_filepath(target_dir, src, &sample_ts());
    let re = Regex::new(r"\d{14}-jvm.org").unwrap();
    assert!(re.is_match(&target));

    let src = "/Users/vineet/Dropbox/notes/RabbitMQ.rst";
    let target = target_filepath(target_dir, src, &sample_ts());
    let re = Regex::new(r"\d{14}-rabbit_mq.org").unwrap();
    assert!(re.is_match(&target));
}

#[test]
fn test_target_filepath_exact() {
    let target = target_filepath("/tmp", "/notes/My File.txt", &sample_ts());
    assert_eq!("/tmp/20231001175659-my_file.org", target);
}

#[test]
fn test_note_skeleton_exact() {
    let imported_at = Timestamp {
        year: 2024,
        month: 1,
        day: 2,
        hour: 3,
        minute: 4,
        second: 5,
    };
    let content = note_skeleton(
        "0000-id",
        "/notes/MyFile.txt",
        &String::from("My Title"),
        &imported_at,
        &sample_ts(),
    );
    let expected = ":PROPERTIES:\n\
                    :ID:               0000-id\n\
                    :ORIG_NOTE:        /notes/MyFile.txt\n\
                    :ORIG_IMPORTED_AT: [2024-01-02 Tue 03:04]\n\
                    :ORIG_CREATED_AT:  [2023-10-01 Sun 17:56]\n\
                    :END:\n\
                    #+title: My Title\n\n";
    assert_eq!(expected, content);
}

#[test]
fn test_cli_import_writes_fresh_target() {
    let now = Timestamp {
        year: 2024,
        month: 1,
        day: 2,
        hour: 3,
        minute: 4,
        second: 5,
    };
    let created = sample_ts();
    let r = cli_import(
        "/notes/MyFile.txt",
        "/tmp",
        &TsPrefix::Created,
        &None,
        &now,
        &created,
        Some(false),
    );
    let (target, content) = r.unwrap();
    assert_eq!("/tmp/20231001175659-my_file.org", target);
    assert!(content.starts_with(":PROPERTIES:\n:ID:               "));
    assert!(content.contains("\n:ORIG_NOTE:        /notes/MyFile.txt\n"));
    assert!(content.contains("\n:ORIG_IMPORTED_AT: [2024-01-02 Tue 03:04]\n"));
    assert!(content.contains("\n:ORIG_CREATED_AT:  [2023-10-01 Sun 17:56]\n"));
    assert!(content.ends_with("\n:END:\n#+title: My File\n\n"));
    // The generated note identifier is the 36-character hyphenated UUID form.
    let id_line_start = ":PROPERTIES:\n:ID:               ".len();
    let id = &content[id_line_start..content.find("\n:ORIG_NOTE:").unwrap()];
    assert_eq!(36, id.len());
}

#[test]
fn test_cli_import_now_prefix_and_given_title() {
    let now = Timestamp {
        year: 2024,
        month: 1,
        day: 2,
        hour: 3,
        minute: 4,
        second: 5,
    };
    let r = cli_import(
        "/notes/MyFile.txt",
        "/tmp",
        &TsPrefix::Now,
        &Some(String::from("Given Title")),
        &now,
        &sample_ts(),
        Some(false),
    );
    let (target, content) = r.unwrap();
    assert_eq!("/tmp/20240102030405-my_file.org", target);
    assert!(content.ends_with("#+title: Given Title\n\n"));
}

#[test]
fn test_cli_import_refuses_existing_target() {
    let r = cli_import(
        "/notes/MyFile.txt",
        "/tmp",
        &TsPrefix::Now,
        &None,
        &sample_ts(),
        &sample_ts(),
        Some(true),
    );
    assert_eq!("File already exists. Aborting", r.unwrap_err());
}

#[test]
fn test_cli_import_reports_failed_existence_check() {
    let r = cli_import(
        "/notes/MyFile.txt",
        "/tmp",
        &TsPrefix::Now,
        &None,
        &sample_ts(),
        &sample_ts(),
        None,
    );
    assert_eq!("Unable to check existence of target file", r.unwrap_err());
}

#[test]
fn test_stem_keeps_leading_dot_name() {
    assert_eq!(filename_slug("/home/user/.txt"), "_txt");
    assert_eq!(filename_slug("relative-name.org"), "relative_name");
}

#[test]
fn test_trailing_slash_names_the_directory() {
    assert_eq!(filename_slug("/path/to/MyDir/"), "my_dir");
    assert_eq!(filename_slug("/path/to/MyDir//"), "my_dir");
}
