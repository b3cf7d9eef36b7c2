use mobile_dispatch::dispatch::ToolError;
use mobile_dispatch::system_profile::{read_u32, DeveloperTools, Error, ParseFailure};

fn read(text: &str) -> Result<DeveloperTools, Error> {
    DeveloperTools::new(Ok(text.as_bytes().to_vec()))
}

#[test]
fn reads_version() {
    let text = "Developer:\n\n    Developer Tools:\n\n      Version: 11.3 (11C29)\n      Location: /Applications/Xcode.app\n";
    assert_eq!(read(text).unwrap().version, (11, 3));
    assert_eq!(read("Version: 9.0").unwrap().version, (9, 0));
}

#[test]
fn leftmost_whole_word_version_wins() {
    assert_eq!(read("XVersion: 1.2 Version: 3.4 Version: 5.6").unwrap().version, (3, 4));
    assert_eq!(read("Version: 1.2a Version: 7.8").unwrap().version, (7, 8));
}

#[test]
fn unicode_word_characters_block_boundaries() {
    assert_eq!(read("Version: 1.2é Version: 3.4").unwrap().version, (3, 4));
    assert!(matches!(read("éVersion: 1.2"), Err(Error::VersionNotMatched { .. })));
}

#[test]
fn unicode_digits_match_but_do_not_parse() {
    match read("Version: ١.2") {
        Err(Error::MajorVersionInvalid { major, cause }) => {
            assert_eq!(major, "١");
            assert_eq!(cause, ParseFailure::InvalidDigit);
        }
        other => panic!("expected an invalid major version, got {:?}", other),
    }
    match read("Version: 1.٢") {
        Err(Error::MinorVersionInvalid { minor, cause }) => {
            assert_eq!(minor, "٢");
            assert_eq!(cause, ParseFailure::InvalidDigit);
        }
        other => panic!("expected an invalid minor version, got {:?}", other),
    }
}

#[test]
fn missing_version() {
    match read("Developer Tools: none") {
        Err(e @ Error::VersionNotMatched { .. }) => {
            assert_eq!(
                e.message(),
                "No version number was found within the `SPDeveloperToolsDataType` data: \"Developer Tools: none\""
            );
        }
        _ => panic!("expected no version"),
    }
    assert!(matches!(read("Version: .3"), Err(Error::VersionNotMatched { .. })));
    assert!(matches!(read("Version: 11"), Err(Error::VersionNotMatched { .. })));
    assert!(matches!(read(""), Err(Error::VersionNotMatched { .. })));
}

#[test]
fn oversized_numbers() {
    match read("Version: 4294967296.1") {
        Err(e @ Error::MajorVersionInvalid { .. }) => {
            assert_eq!(e.message(), "The major version \"4294967296\" wasn't a valid number: number too large to fit in target type");
        }
        _ => panic!("expected an invalid major version"),
    }
    match read("Version: 1.99999999999") {
        Err(Error::MinorVersionInvalid { minor, cause }) => {
            assert_eq!(minor, "99999999999");
            assert_eq!(cause, ParseFailure::PosOverflow);
        }
        _ => panic!("expected an invalid minor version"),
    }
    assert_eq!(read("Version: 4294967295.0").unwrap().version, (4294967295, 0));
}

#[test]
fn reading_u32_follows_std() {
    for s in ["0", "42", "+7", "4294967295", "4294967296", "", "+", "1a", "٣", "99999999999x", "-1"] {
        let expected = s.parse::<u32>().map_err(|e| e.to_string());
        let got = read_u32(&s.to_string()).map_err(|c| match c {
            ParseFailure::Empty => "cannot parse integer from empty string".to_string(),
            ParseFailure::InvalidDigit => "invalid digit found in string".to_string(),
            ParseFailure::PosOverflow => "number too large to fit in target type".to_string(),
        });
        assert_eq!(got, expected, "input {:?}", s);
    }
}

#[test]
fn version_from_given_captures() {
    let dt = DeveloperTools::from_captures(Some(("12".to_string(), "4".to_string())), String::new()).unwrap();
    assert_eq!(dt.version, (12, 4));
    match DeveloperTools::from_captures(None, "text".to_string()) {
        Err(Error::VersionNotMatched { data }) => assert_eq!(data, "text"),
        _ => panic!("expected no version"),
    }
}

#[test]
fn tool_and_encoding_failures() {
    match DeveloperTools::new(Err(ToolError { detail: "not found".to_string() })) {
        Err(e @ Error::SystemProfilerFailed(_)) => assert_eq!(e.message(), "`system_profiler` call failed: not found"),
        _ => panic!("expected a tool failure"),
    }
    match DeveloperTools::new(Ok(vec![b'o', b'k', 0xff, 0xfe])) {
        Err(Error::OutputInvalidUtf8(u)) => {
            assert_eq!(u.valid_up_to, 2);
            assert_eq!(u.error_len, Some(1));
        }
        _ => panic!("expected invalid UTF-8"),
    }
}

#[test]
fn invalid_utf8_message_names_where_decoding_stopped() {
    for bytes in [vec![b'o', b'k', 0xff, 0xfe], vec![b'o', b'k', 0xe2, 0x82], vec![0xc0]] {
        let std_text = std::str::from_utf8(&bytes).unwrap_err().to_string();
        match DeveloperTools::new(Ok(bytes.clone())) {
            Err(e @ Error::OutputInvalidUtf8(_)) => {
                assert_eq!(e.message(), format!("`system_profiler` output contained invalid UTF-8: {}", std_text));
            }
            _ => panic!("expected invalid UTF-8"),
        }
    }
}

#[test]
fn version_messages_quote_like_debug() {
    for raw in ["\"", "a\\b", "x\ny", "\t\r", "١"] {
        let e = Error::MajorVersionInvalid { major: raw.to_string(), cause: ParseFailure::InvalidDigit };
        assert_eq!(e.message(), format!("The major version {:?} wasn't a valid number: invalid digit found in string", raw));
        let e = Error::MinorVersionInvalid { minor: raw.to_string(), cause: ParseFailure::PosOverflow };
        assert_eq!(e.message(), format!("The minor version {:?} wasn't a valid number: number too large to fit in target type", raw));
    }
    let e = Error::VersionNotMatched { data: "line one\nline \"two\"".to_string() };
    let msg = e.message();
    assert!(!msg.contains('\n'));
    assert_eq!(msg, format!("No version number was found within the `SPDeveloperToolsDataType` data: {:?}", "line one\nline \"two\""));
}
