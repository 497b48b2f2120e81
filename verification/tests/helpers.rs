use decider::config::{Choice, ChoiceLookupError, ConfigError};
use decider::helpers::{
    get_optional_value, get_required_value, normalize_uefi_path, parse_choice,
    parse_choice_bytes, parse_key_values, utf16_nul_terminated_bytes,
};
use decider::text::{chars_of, is_whitespace, same_text};

fn pairs(items: &[(&str, &str)]) -> Vec<(String, String)> {
    items.iter().map(|(k, v)| (k.to_string(), v.to_string())).collect()
}

#[test]
fn key_values_skip_comments_and_blank_lines() {
    assert_eq!(parse_key_values("a = 1\n# c\n\nb=2"), pairs(&[("a", "1"), ("b", "2")]));
}

#[test]
fn key_values_of_empty_text() {
    assert_eq!(parse_key_values(""), pairs(&[]));
    assert_eq!(parse_key_values("\n\n\n"), pairs(&[]));
}

#[test]
fn key_values_drop_lines_without_key_or_value() {
    assert_eq!(parse_key_values("=1\nk=\n = \nno equals sign\nx=y"), pairs(&[("x", "y")]));
}

#[test]
fn key_values_split_at_the_first_equals_sign() {
    assert_eq!(parse_key_values("a=b=c"), pairs(&[("a", "b=c")]));
    assert_eq!(parse_key_values("a = = c"), pairs(&[("a", "= c")]));
}

#[test]
fn key_values_trim_keys_and_values() {
    assert_eq!(
        parse_key_values("  key one \t=\t value one  \r\nk2=v2\r\n"),
        pairs(&[("key one", "value one"), ("k2", "v2")])
    );
}

#[test]
fn key_values_trim_unicode_white_space() {
    assert_eq!(parse_key_values("\u{a0}a\u{2003}=\u{3000}1\u{85}"), pairs(&[("a", "1")]));
}

#[test]
fn key_values_keep_a_comment_sign_inside_a_line() {
    assert_eq!(parse_key_values("a=1 # one\n  # b=2"), pairs(&[("a", "1 # one")]));
}

#[test]
fn key_values_keep_duplicates_in_order() {
    assert_eq!(parse_key_values("a=1\na=2"), pairs(&[("a", "1"), ("a", "2")]));
}

#[test]
fn lookup_takes_the_first_of_two_equal_keys() {
    let kv = parse_key_values("a=1\nb=2\na=3");
    assert_eq!(get_optional_value(&kv, "a"), Some("1"));
    assert_eq!(get_optional_value(&kv, "b"), Some("2"));
    assert_eq!(get_optional_value(&kv, "c"), None);
}

#[test]
fn required_value_reports_a_missing_key() {
    let kv = parse_key_values("a=1");
    assert_eq!(get_required_value(&kv, "a"), Ok("1"));
    assert_eq!(get_required_value(&kv, "A"), Err(ConfigError::MissingKey));
}

#[test]
fn normalize_turns_slashes() {
    assert_eq!(normalize_uefi_path("/x/y"), "\\x\\y");
    assert_eq!(normalize_uefi_path("\\EFI/systemd\\a.efi"), "\\EFI\\systemd\\a.efi");
    assert_eq!(normalize_uefi_path(""), "");
}

#[test]
fn normalize_is_idempotent() {
    for path in ["/x/y", "\\x\\y", "a//b", "plain", "/"] {
        let once = normalize_uefi_path(path);
        assert_eq!(normalize_uefi_path(&once), once);
    }
    assert_eq!(normalize_uefi_path("\\x\\y"), "\\x\\y");
}

#[test]
fn utf16_of_ascii() {
    assert_eq!(utf16_nul_terminated_bytes(""), vec![0, 0]);
    assert_eq!(utf16_nul_terminated_bytes("A"), vec![0x41, 0, 0, 0]);
    assert_eq!(
        utf16_nul_terminated_bytes("5-linux"),
        vec![0x35, 0, 0x2d, 0, 0x6c, 0, 0x69, 0, 0x6e, 0, 0x75, 0, 0x78, 0, 0, 0]
    );
}

#[test]
fn utf16_of_wide_characters() {
    assert_eq!(utf16_nul_terminated_bytes("\u{e9}"), vec![0xe9, 0x00, 0, 0]);
    assert_eq!(utf16_nul_terminated_bytes("\u{20ac}"), vec![0xac, 0x20, 0, 0]);
    assert_eq!(utf16_nul_terminated_bytes("\u{ffff}"), vec![0xff, 0xff, 0, 0]);
    assert_eq!(utf16_nul_terminated_bytes("\u{10000}"), vec![0x00, 0xd8, 0x00, 0xdc, 0, 0]);
    assert_eq!(utf16_nul_terminated_bytes("\u{1f600}"), vec![0x3d, 0xd8, 0x00, 0xde, 0, 0]);
    assert_eq!(utf16_nul_terminated_bytes("\u{10ffff}"), vec![0xff, 0xdb, 0xff, 0xdf, 0, 0]);
}

#[test]
fn utf16_agrees_with_the_standard_encoder() {
    for text in ["nixos-generation-42", "a\u{1f600}b\u{e9}", "\u{d7ff}\u{e000}"] {
        let mut expected: Vec<u8> = Vec::new();
        for unit in text.encode_utf16() {
            expected.extend_from_slice(&unit.to_le_bytes());
        }
        expected.extend_from_slice(&[0, 0]);
        assert_eq!(utf16_nul_terminated_bytes(text), expected);
    }
}

#[test]
fn choice_of_an_entry() {
    assert_eq!(
        parse_choice("choice_type=entry_id\nentry_id=5-linux"),
        Ok(Choice::Entry("5-linux".to_string()))
    );
}

#[test]
fn choice_of_the_newest_generation() {
    assert_eq!(parse_choice("choice_type=nixos-current"), Ok(Choice::NixosCurrent));
}

#[test]
fn choice_of_a_chainload_mode() {
    assert_eq!(
        parse_choice("choice_type=chainload_windows"),
        Ok(Choice::Chainload("windows".to_string()))
    );
    assert_eq!(
        parse_choice("choice_type = chainload_a_b"),
        Ok(Choice::Chainload("a_b".to_string()))
    );
}

#[test]
fn choice_of_an_unknown_type() {
    assert_eq!(parse_choice("choice_type=bogus"), Err(ChoiceLookupError::ParseError));
    assert_eq!(parse_choice("choice_type=chainload_"), Err(ChoiceLookupError::ParseError));
    assert_eq!(parse_choice("choice_type=chainload"), Err(ChoiceLookupError::ParseError));
    assert_eq!(parse_choice("choice_type=NIXOS-CURRENT"), Err(ChoiceLookupError::ParseError));
}

#[test]
fn choice_without_its_type() {
    assert_eq!(parse_choice(""), Err(ChoiceLookupError::ParseError));
    assert_eq!(parse_choice("entry_id=5-linux"), Err(ChoiceLookupError::ParseError));
}

#[test]
fn choice_of_an_entry_without_its_identifier() {
    assert_eq!(parse_choice("choice_type=entry_id"), Err(ChoiceLookupError::ParseError));
    assert_eq!(parse_choice("choice_type=entry_id\nentry_id="), Err(ChoiceLookupError::ParseError));
}

#[test]
fn choice_by_the_older_key_names() {
    assert_eq!(parse_choice("mode=entry\nentry=7-old"), Ok(Choice::Entry("7-old".to_string())));
    assert_eq!(parse_choice("mode=nixos-current"), Ok(Choice::NixosCurrent));
    assert_eq!(
        parse_choice("choice_type=entry\nentry_id=a\nentry=b"),
        Ok(Choice::Entry("a".to_string()))
    );
    assert_eq!(
        parse_choice("mode=bogus\nchoice_type=nixos-current"),
        Ok(Choice::NixosCurrent)
    );
}

#[test]
fn choice_takes_the_first_of_two_types() {
    assert_eq!(
        parse_choice("choice_type=nixos-current\nchoice_type=bogus"),
        Ok(Choice::NixosCurrent)
    );
}

#[test]
fn choice_from_bytes() {
    assert_eq!(
        parse_choice_bytes(&b"choice_type=entry_id\nentry_id=5-linux\n".to_vec()),
        Ok(Choice::Entry("5-linux".to_string()))
    );
    assert_eq!(parse_choice_bytes(&Vec::new()), Err(ChoiceLookupError::ParseError));
}

#[test]
fn choice_from_bytes_that_are_not_utf8() {
    let mut bytes = b"choice_type=entry_id\nentry_id=a".to_vec();
    bytes.push(0xff);
    bytes.extend_from_slice(b"b");
    assert_eq!(parse_choice_bytes(&bytes), Ok(Choice::Entry("a\u{fffd}b".to_string())));
}

#[test]
fn white_space_characters() {
    for c in [' ', '\t', '\n', '\r', '\u{b}', '\u{c}', '\u{85}', '\u{a0}', '\u{1680}', '\u{2000}',
        '\u{200a}', '\u{2028}', '\u{2029}', '\u{202f}', '\u{205f}', '\u{3000}']
    {
        assert!(is_whitespace(c));
    }
    for c in ['a', '0', '#', '=', '\u{200b}', '\u{180e}', '\u{feff}', '\u{0}'] {
        assert!(!is_whitespace(c));
    }
}

#[test]
fn white_space_agrees_with_the_standard_library() {
    for code in 0u32..0x3100 {
        if let Some(c) = char::from_u32(code) {
            assert_eq!(is_whitespace(c), c.is_whitespace(), "U+{:04X}", code);
        }
    }
}

#[test]
fn characters_of_a_text() {
    assert_eq!(chars_of(""), Vec::<char>::new());
    assert_eq!(chars_of("a\u{e9}\u{1f600}"), vec!['a', '\u{e9}', '\u{1f600}']);
}

#[test]
fn key_values_agree_with_the_standard_library() {
    let texts = [
        "a = 1\n# c\n\nb=2",
        "a=1\r\nb=2\r\n",
        "a=1\rb=2",
        "\u{feff}a=1",
        " \u{2028}k\u{2029} = v\u{b}\u{c}\n",
        "k=v\u{2028}k2=v2",
        "=\n==\n a = \n = b \n#=\nx#=y\n\n\n",
        "k = v = w\nk2==\n",
        "\n\n\nlast=line",
        "trailing=newline\n\n",
        "k\t=\tv\t\n\tk2\t=\tv2",
        "\u{3000}wide\u{3000}=\u{a0}space\u{a0}",
        "no newline at all",
        "",
        "\r",
        "\r\n",
        "a=\r\n=b\r\n",
    ];
    for text in texts {
        let mut expected: Vec<(String, String)> = Vec::new();
        for raw_line in text.lines() {
            let line = raw_line.trim();
            if line.is_empty() || line.starts_with('#') {
                continue;
            }
            if let Some((key, value)) = line.split_once('=') {
                let (key, value) = (key.trim(), value.trim());
                if !key.is_empty() && !value.is_empty() {
                    expected.push((key.to_string(), value.to_string()));
                }
            }
        }
        assert_eq!(parse_key_values(text), expected, "{:?}", text);
    }
}

#[test]
fn comparing_texts() {
    assert!(same_text("abc", "abc"));
    assert!(!same_text("abc", "abd"));
    assert!(!same_text("abc", "ab"));
    assert!(same_text("", ""));
}
