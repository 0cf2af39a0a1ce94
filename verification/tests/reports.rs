use spritecollab::datafiles::{
    discord_preview, read_and_report_error, AnimDataXmlOpenError, DataReadError, DatafilesReport,
    XmlCheckFailure, DISCORD_UPDATE_INFO,
};

#[test]
fn json_error_is_classified_with_its_path() {
    let err = DataReadError::SerdeJson {
        message: String::from("expected value at line 3 column 9"),
        line: 3,
        column: 9,
    };
    match DatafilesReport::from_data_read_error(String::from("work/sprite_config.json"), err) {
        DatafilesReport::JsonDeserializeError { path, message, line, column } => {
            assert_eq!(path, "work/sprite_config.json");
            assert_eq!(message, "expected value at line 3 column 9");
            assert_eq!(line, 3);
            assert_eq!(column, 9);
        }
        _ => panic!("wrong variant"),
    }
}

#[test]
fn csv_io_and_domain_errors_are_classified() {
    let csv = DataReadError::SerdeCsv { message: String::from("bad record"), line: 2 };
    assert!(matches!(
        DatafilesReport::from_data_read_error(String::from("credit_names.txt"), csv),
        DatafilesReport::CsvDeserializeError { .. }
    ));
    let io = DataReadError::Io { message: String::from("permission denied") };
    assert!(matches!(
        DatafilesReport::from_data_read_error(String::from("tracker.json"), io),
        DatafilesReport::IoError { .. }
    ));
    let dup = DataReadError::CreditsDuplicateCreditId(String::from("CREDIT_7"));
    match DatafilesReport::from_data_read_error(String::from("credit_names.txt"), dup) {
        DatafilesReport::CreditsDuplicateCreditId { credit_id, .. } => {
            assert_eq!(credit_id, "CREDIT_7")
        }
        _ => panic!("wrong variant"),
    }
}

#[test]
fn every_read_failure_is_reported_and_propagated() {
    let out: Result<u32, DataReadError> =
        Err(DataReadError::Io { message: String::from("gone") });
    let (back, report) = read_and_report_error(String::from("a/b.json"), out);
    assert!(back.is_err());
    match report {
        Some(DatafilesReport::IoError { path, message }) => {
            assert_eq!(path, "a/b.json");
            assert_eq!(message, "gone");
        }
        _ => panic!("a failure must produce a report"),
    }
}

#[test]
fn a_successful_read_reports_nothing() {
    let out: Result<u32, DataReadError> = Ok(5);
    let (back, report) = read_and_report_error(String::from("a/b.json"), out);
    assert_eq!(back.unwrap(), 5);
    assert!(report.is_none());
}

#[test]
fn short_form_names_the_file_and_the_error() {
    let rep = DatafilesReport::IoError {
        path: String::from("workdir/spritecollab/tracker.json"),
        message: String::from("No such file or directory"),
    };
    assert_eq!(rep.format_short(), "Failed reading tracker.json: No such file or directory");
    assert_eq!(DatafilesReport::Success.format_short(), "Success.");
}

#[test]
fn short_form_of_an_aggregate_lists_every_entity() {
    let rep = DatafilesReport::AnimDataXmlErrors(vec![
        XmlCheckFailure {
            monster_id: 3,
            form_path: vec![1, 2],
            error: AnimDataXmlOpenError::Io(String::from("missing")),
        },
        XmlCheckFailure {
            monster_id: 44,
            form_path: vec![],
            error: AnimDataXmlOpenError::Parse(String::from("bad root")),
        },
    ]);
    assert_eq!(
        rep.format_short(),
        "Failed reading one or more animation data XML files:\n3/1/2: I/O error: missing\n44/: invalid animation data: bad root"
    );
}

#[test]
fn rich_form_titles_follow_the_outcome() {
    let (title_ok, body_ok) = DatafilesReport::Success.format_for_discord(None);
    assert_eq!(title_ok, "SpriteCollab Update Recovered");
    assert_eq!(body_ok, "The SpriteCollab data update is working again.");
    let rep = DatafilesReport::IoError {
        path: String::from("x/tracker.json"),
        message: String::from("gone"),
    };
    let (title, body) = rep.format_for_discord(None);
    assert_eq!(title, "Failed SpriteCollab Update");
    assert_eq!(
        body,
        format!("*{}*\n\n**Description**:\nFailed reading tracker.json: gone", DISCORD_UPDATE_INFO)
    );
}

#[test]
fn rich_form_embeds_the_offending_line() {
    let rep = DatafilesReport::JsonDeserializeError {
        path: String::from("x/c.json"),
        message: String::from("expected value at line 2 column 1"),
        line: 2,
        column: 1,
    };
    let source = "first line\nbroken line\nthird line";
    let (_, body) = rep.format_for_discord(Some(source));
    assert_eq!(
        body,
        format!(
            "*{}*\n\n**Description**:\nFailed reading c.json: expected value at line 2 column 1\nLine 2:\n```\nbroken line\n```",
            DISCORD_UPDATE_INFO
        )
    );
}

#[test]
fn unknown_line_or_short_file_omits_the_excerpt() {
    // a known line number beyond the file: ten lines, line 42 wanted
    let ten_lines = "1\n2\n3\n4\n5\n6\n7\n8\n9\n10\n";
    assert_eq!(discord_preview(Some(ten_lines), 42), "");
    // line zero means the position is unknown
    assert_eq!(discord_preview(Some(ten_lines), 0), "");
    // an unreadable file omits the excerpt too
    assert_eq!(discord_preview(None, 2), "");
}

#[test]
fn long_lines_are_truncated_with_an_ellipsis() {
    let long = "x".repeat(400);
    let content = format!("short\n{}", long);
    let preview = discord_preview(Some(&content), 2);
    let expected = format!("\nLine 2:\n```\n{}...\n```", "x".repeat(300));
    assert_eq!(preview, expected);
}

#[test]
fn short_lines_are_embedded_whole() {
    assert_eq!(discord_preview(Some("a\nbc\nd"), 2), "\nLine 2:\n```\nbc\n```");
    // a line ending in a carriage return is stripped of it
    assert_eq!(discord_preview(Some("a\r\nbc\r\nd"), 1), "\nLine 1:\n```\na\n```");
}
