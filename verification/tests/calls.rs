use magika_bridge::filetype::{FileType, OverwriteReason, PriorGuess};
use magika_bridge::invoke::{admit_content, admit_path, reply, Admission};
use magika_bridge::number::Score;
use serde_json::Value;

fn record(buffer: Option<Vec<u8>>) -> Value {
    let bytes = buffer.unwrap();
    assert_eq!(bytes.last(), Some(&0));
    assert!(!bytes[..bytes.len() - 1].contains(&0));
    serde_json::from_slice(&bytes[..bytes.len() - 1]).unwrap()
}

fn rejected<S, I>(admission: Admission<S, I>) -> bool {
    matches!(admission, Admission::Rejected)
}

#[test]
fn content_without_a_session_is_rejected() {
    assert!(rejected(admit_content::<u32>(None, Some(b"\x89PNG\r\n\x1a\n"))));
}

#[test]
fn content_that_is_absent_is_rejected() {
    assert!(rejected(admit_content(Some(7u32), None)));
    assert!(rejected(admit_content::<u32>(None, None)));
}

#[test]
fn content_with_a_session_is_admitted_as_it_is() {
    let data: Vec<u8> = vec![0, 159, 146, 150, 0];
    match admit_content(Some(7u32), Some(&data)) {
        Admission::Admitted { session, input } => {
            assert_eq!(session, 7);
            assert_eq!(input, &data[..]);
        }
        Admission::Rejected => panic!("rejected"),
    }
}

#[test]
fn empty_content_is_admitted() {
    match admit_content(Some(7u32), Some(b"")) {
        Admission::Admitted { session, input } => {
            assert_eq!(session, 7);
            assert!(input.is_empty());
        }
        Admission::Rejected => panic!("rejected"),
    }
}

#[test]
fn a_path_without_a_session_is_rejected() {
    assert!(rejected(admit_path::<u32>(None, Some(b"/tmp"))));
}

#[test]
fn a_path_that_is_absent_is_rejected() {
    assert!(rejected(admit_path(Some(7u32), None)));
    assert!(rejected(admit_path::<u32>(None, None)));
}

#[test]
fn a_path_in_utf8_is_admitted_as_it_is() {
    match admit_path(Some(7u32), Some("/tmp/caf\u{e9}.txt".as_bytes())) {
        Admission::Admitted { session, input } => {
            assert_eq!(session, 7);
            assert_eq!(input, "/tmp/caf\u{e9}.txt");
        }
        Admission::Rejected => panic!("rejected"),
    }
}

#[test]
fn a_path_that_is_not_utf8_is_admitted_with_replacements() {
    match admit_path(Some(7u32), Some(b"/tmp/\xff\xfe.bin")) {
        Admission::Admitted { input, .. } => {
            assert_eq!(input, "/tmp/\u{fffd}\u{fffd}.bin");
        }
        Admission::Rejected => panic!("rejected"),
    }
}

#[test]
fn a_session_can_be_handed_through_by_reference() {
    let mut calls: u32 = 0;
    match admit_content(Some(&mut calls), Some(b"abc")) {
        Admission::Admitted { session, .. } => *session += 1,
        Admission::Rejected => panic!("rejected"),
    }
    assert_eq!(calls, 1);
}

#[test]
fn an_outcome_is_answered_with_an_ok_record() {
    let ft = FileType::Inferred {
        label: "txt".to_string(),
        score: Score::parse("0.25").unwrap(),
        prior: Some(PriorGuess {
            label: "python".to_string(),
            reason: OverwriteReason::LowConfidence,
        }),
    };
    let json = record(reply(Ok(ft)));
    assert_eq!(json["status"], "ok");
    assert_eq!(json["type"], "file");
    assert_eq!(json["overwrite_reason"], "low-confidence");
    assert_eq!(json["dl"], "python");
}

#[test]
fn a_failure_is_answered_with_an_error_record() {
    let json = record(reply(Err("No such file or directory (os error 2)".to_string())));
    assert_eq!(json["status"], "error");
    assert_eq!(json["message"], "No such file or directory (os error 2)");
    assert!(!json["message"].as_str().unwrap().is_empty());
    assert_eq!(json.as_object().unwrap().len(), 2);
}

#[test]
fn a_reply_is_the_record_and_a_closing_zero() {
    let buffer = reply(Err("gone".to_string())).unwrap();
    assert_eq!(buffer, b"{\"status\":\"error\",\"message\":\"gone\"}\0".to_vec());
}

#[test]
fn a_nul_in_a_message_or_label_still_has_a_buffer() {
    let json = record(reply(Err("broken\0pipe".to_string())));
    assert_eq!(json["status"], "error");
    assert_eq!(json["message"], "broken\0pipe");
    let ft = FileType::Ruled { label: "a\0b".to_string(), score: Score::parse("1.0").unwrap() };
    let json = record(reply(Ok(ft)));
    assert_eq!(json["status"], "ok");
    assert_eq!(json["output"], "a\0b");
}

#[test]
fn every_reply_has_status_ok_or_error() {
    let verdicts: Vec<Result<FileType, String>> = vec![
        Ok(FileType::Directory { label: "directory".to_string(), score: Score::parse("1.0").unwrap() }),
        Ok(FileType::Symlink { label: "symlink".to_string(), score: Score::parse("1.0").unwrap() }),
        Ok(FileType::Ruled { label: "empty".to_string(), score: Score::parse("1.0").unwrap() }),
        Err(String::new()),
        Err("\"}".to_string()),
    ];
    for verdict in verdicts {
        let expected = if verdict.is_ok() { "ok" } else { "error" };
        let json = record(reply(verdict));
        assert_eq!(json["status"], expected);
    }
}

#[test]
fn one_session_after_another_gets_the_same_answers() {
    let mut first: u32 = 0;
    for _ in 0..5 {
        match admit_content(Some(&mut first), Some(b"abc")) {
            Admission::Admitted { session, .. } => *session += 1,
            Admission::Rejected => panic!("rejected"),
        }
    }
    assert_eq!(first, 5);
    let before = reply(Err("gone".to_string()));
    let mut second: u32 = 0;
    match admit_content(Some(&mut second), Some(b"abc")) {
        Admission::Admitted { session, .. } => *session += 1,
        Admission::Rejected => panic!("rejected"),
    }
    assert_eq!(second, 1);
    assert_eq!(reply(Err("gone".to_string())), before);
}
