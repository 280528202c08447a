use pino::error::PinoError;
use pino::manifest::{char_is_space, contains_bytes, is_pino_manifest, project_name};

#[test]
fn manifest_names_the_framework() {
    assert!(is_pino_manifest("[dependencies]\npino-core = \"0.1\"\n"));
    assert!(is_pino_manifest("pino-core"));
    assert!(!is_pino_manifest("[dependencies]\npino_core = \"0.1\"\n"));
    assert!(!is_pino_manifest("pino-cor"));
    assert!(!is_pino_manifest(""));
}

#[test]
fn bytes_are_found_anywhere() {
    assert!(contains_bytes(b"hello", b"ell"));
    assert!(contains_bytes(b"hello", b"hello"));
    assert!(contains_bytes(b"hello", b"lo"));
    assert!(contains_bytes(b"hello", b""));
    assert!(contains_bytes(b"", b""));
    assert!(!contains_bytes(b"hello", b"hellos"));
    assert!(!contains_bytes(b"hello", b"lol"));
    assert!(!contains_bytes(b"aab", b"aba"));
    assert!(contains_bytes(b"aaab", b"aab"));
}

#[test]
fn white_space_is_what_the_standard_library_says() {
    for code in 0u32..0x3100 {
        if let Some(c) = char::from_u32(code) {
            assert_eq!(char_is_space(c), c.is_whitespace());
        }
    }
    assert!(!char_is_space('\u{FEFF}'));
    assert!(!char_is_space('😀'));
}

#[test]
fn project_name_is_read_from_the_name_line() {
    let manifest = "[package]\nname = \"demo\"\nversion = \"0.1.0\"\n";
    assert_eq!(project_name(manifest), Some("demo".to_string()));
    assert_eq!(project_name("name=plain"), Some("plain".to_string()));
    assert_eq!(project_name("  name\t=  \"spaced out\"  \r\n"), Some("spaced out".to_string()));
    assert_eq!(project_name("name = \"\"quoted\"\"\n"), Some("quoted".to_string()));
    assert_eq!(project_name("name = \"a\" = \"b\"\n"), Some("a".to_string()));
    assert_eq!(project_name("name ="), Some("".to_string()));
    assert_eq!(project_name("name = \"\""), Some("".to_string()));
    assert_eq!(project_name("name = \" inner \""), Some(" inner ".to_string()));
    assert_eq!(project_name("namespace = \"x\"\n"), Some("x".to_string()));
    assert_eq!(project_name("name = \"é€\"\n"), Some("é€".to_string()));
}

#[test]
fn project_name_takes_the_first_line_that_gives_one() {
    assert_eq!(project_name("name\nname = one\nname = two\n"), Some("one".to_string()));
    assert_eq!(project_name("x = 1\n\n\nname = late"), Some("late".to_string()));
    assert_eq!(project_name("# name = no\nname = yes\n"), Some("yes".to_string()));
}

#[test]
fn project_name_is_missing_where_no_line_gives_one() {
    assert_eq!(project_name(""), None);
    assert_eq!(project_name("\n\n"), None);
    assert_eq!(project_name("[package]\nversion = \"1\"\n"), None);
    assert_eq!(project_name("name\n"), None);
    assert_eq!(project_name("nam = x\n"), None);
    assert_eq!(project_name("my name = x\n"), None);
}

fn reference_name(manifest: &str) -> Option<String> {
    for line in manifest.lines() {
        if line.trim().starts_with("name") {
            if let Some(name) = line.split('=').nth(1) {
                return Some(name.trim().trim_matches('"').to_string());
            }
        }
    }
    None
}

#[test]
fn project_name_agrees_with_the_standard_library() {
    let pieces = ["name", "=", "\"", " ", "\t", "\r", "\n", "x", "\u{a0}", "é", "nam"];
    let mut state = 0x2545F4914F6CDD1Du64;
    for _ in 0..4000 {
        let mut text = String::new();
        for _ in 0..((state >> 60) as usize + 1) {
            state ^= state << 13;
            state ^= state >> 7;
            state ^= state << 17;
            text.push_str(pieces[(state % pieces.len() as u64) as usize]);
        }
        assert_eq!(project_name(&text), reference_name(&text), "{:?}", text);
    }
}

#[test]
fn errors_convert_to_numbers() {
    assert_eq!(u64::from(PinoError::Custom(0x2004)), 0x2004);
    let code: u64 = PinoError::InvalidInstructionData.into();
    assert_eq!(code, pino::error::error_code(PinoError::InvalidInstructionData));
}
