use wsl_usb_manager::{is_arrival_or_removal, ACTION_INTERFACE_ARRIVAL, ACTION_INTERFACE_REMOVAL};
use wsl_usb_manager::{
    can_ellipsize, contains_char, contains_text, ellipsize_middle, join, parse_u32, parse_version, replace, split, Args, CliExit,
    Version,
};

fn strings(words: &[&str]) -> Vec<String> {
    words.iter().map(|w| w.to_string()).collect()
}

#[test]
fn version_with_build_metadata() {
    assert_eq!(parse_version("4.1.0+42.Branch.master.Sha.0123abcd"), Version { major: 4, minor: 1, patch: 0 });
    assert_eq!(parse_version("4.3.0"), Version { major: 4, minor: 3, patch: 0 });
}

#[test]
fn version_missing_parts_are_zero() {
    assert_eq!(parse_version("3"), Version { major: 3, minor: 0, patch: 0 });
    assert_eq!(parse_version(""), Version { major: 0, minor: 0, patch: 0 });
    assert_eq!(parse_version("x.2.y"), Version { major: 0, minor: 2, patch: 0 });
    assert_eq!(parse_version("5.0.1\n"), Version { major: 5, minor: 0, patch: 0 });
    assert_eq!(parse_version("+4.2.0"), Version { major: 0, minor: 0, patch: 0 });
    assert_eq!(parse_version("4.99999999999.1"), Version { major: 4, minor: 0, patch: 1 });
}

#[test]
fn legacy_versions() {
    assert!(Version { major: 3, minor: 9, patch: 9 }.is_legacy());
    assert!(!Version { major: 4, minor: 0, patch: 0 }.is_legacy());
}

#[test]
fn ellipsize_keeps_short_text() {
    assert_eq!(ellipsize_middle("short", 10), "short");
    assert_eq!(ellipsize_middle("exactly10!", 10), "exactly10!");
}

#[test]
fn ellipsize_cuts_the_middle() {
    assert_eq!(ellipsize_middle("abcdefghijklmnop", 9), "abc...nop");
    assert_eq!(ellipsize_middle("USB Mass Storage Device", 15), "USB Ma...Device");
    assert_eq!(ellipsize_middle("ab  cdefgh  ij", 11), "ab...ij");
    assert_eq!(ellipsize_middle("abcd", 3), "...");
}

#[test]
fn ellipsize_measures_bytes() {
    // "aéa" is three characters but four bytes.
    assert!(can_ellipsize("aéa", 3));
    assert_eq!(ellipsize_middle("aéa", 3), "...");
    assert_eq!(ellipsize_middle("aéa", 4), "aéa");
    assert_eq!(ellipsize_middle("éabcdefgé", 7), "é...é");
    for (text, max_len) in [("Gerät für USB-Übertragung", 13), ("aéa", 3), ("abcdefghijklmnop", 9)] {
        let r = ellipsize_middle(text, max_len);
        assert!(r.len() <= max_len && r.len() <= text.len());
    }
}

#[test]
fn ellipsize_refuses_a_cut_inside_a_character() {
    // The first cut, one byte in, falls inside the two-byte "é".
    assert!(!can_ellipsize("éééé", 5));
    assert!(!can_ellipsize("abcdef", 2));
    assert!(can_ellipsize("ab", 2));
    assert!(can_ellipsize("ééééé", 7));
}

#[test]
fn args_parsing() {
    assert_eq!(Args::parse(&Vec::new()), Ok(Args { minimized: false }));
    assert_eq!(Args::parse(&strings(&["--minimized"])), Ok(Args { minimized: true }));
    assert_eq!(Args::parse(&strings(&["-v"])), Err(CliExit::Version));
    assert_eq!(Args::parse(&strings(&["--version"])), Err(CliExit::Version));
    assert_eq!(Args::parse(&strings(&["--minimized", "--help"])), Err(CliExit::Help));
    assert_eq!(Args::parse(&strings(&["-h", "--bogus"])), Err(CliExit::Help));
    assert_eq!(Args::parse(&strings(&["--bogus", "-v"])), Err(CliExit::UnknownArgument("--bogus".to_string())));
}

#[test]
fn split_keeps_empty_pieces() {
    assert_eq!(split("a\\b\\\\c", '\\'), strings(&["a", "b", "", "c"]));
    assert_eq!(split("", '.'), strings(&[""]));
    assert_eq!(split("4.", '.'), strings(&["4", ""]));
}

#[test]
fn replace_and_search() {
    assert_eq!(replace("VID_1234&PID_5678", "VID_", ""), "1234&PID_5678");
    assert_eq!(replace("aaa", "aa", "b"), "ba");
    assert!(contains_text("needs administrator rights", "administrator"));
    assert!(!contains_text("needs admin rights", "administrator"));
    assert!(contains_text("x", ""));
    assert!(contains_char("6&1a2b", '&'));
    assert!(!contains_char("ABCDEF", '&'));
    assert_eq!(join(&strings(&["bind", "--busid", "1-1"]), " "), "bind --busid 1-1");
    assert_eq!(join(&Vec::new(), " "), "");
}

#[test]
fn u32_parsing_agrees_with_std() {
    let cases = [
        "", "+", "++1", "-0", "-1", "0", "007", "+42", " 1", "1 ", "4294967295", "4294967296",
        "99999999999999999999", "1_000", "\u{663}", "12a", "0\n",
    ];
    for case in cases {
        assert_eq!(parse_u32(case), case.parse::<u32>().ok(), "input {case:?}");
    }
    assert_eq!(parse_u32("4294967295"), Some(u32::MAX));
    assert_eq!(parse_u32("+0010"), Some(10));
}

#[test]
fn only_arrival_and_removal_call_for_a_listing() {
    assert!(is_arrival_or_removal(ACTION_INTERFACE_ARRIVAL));
    assert!(is_arrival_or_removal(ACTION_INTERFACE_REMOVAL));
    assert!(!is_arrival_or_removal(2));
    assert!(!is_arrival_or_removal(-1));
}
