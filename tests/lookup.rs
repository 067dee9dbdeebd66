use unicode_script::tables::SCRIPT;
use unicode_script::{get_script, Script, UNICODE_VERSION};

fn script_of_u32(c: u32) -> Option<Script> {
    char::from_u32(c).map(get_script)
}

#[test]
fn test_get_script() {
    assert_eq!(get_script('a'), Script::Latin);
    assert_eq!(get_script('.'), Script::Common);
    assert_eq!(get_script('カ'), Script::Katakana);
    assert_eq!(get_script('🦳'), Script::Common);
}

#[test]
fn katakana_ka_by_code_point() {
    assert_eq!(script_of_u32(0x30AB), Some(Script::Katakana));
}

#[test]
fn emoji_without_script_is_common() {
    assert_eq!(script_of_u32(0x1F9B3), Some(Script::Common));
}

#[test]
fn unassigned_hebrew_block_point_is_unknown() {
    assert_eq!(script_of_u32(0x0590), Some(Script::Unknown));
}

#[test]
fn points_past_the_last_range_are_unknown() {
    assert_eq!(get_script('\u{10FFFF}'), Script::Unknown);
    assert_eq!(get_script('\u{E0080}'), Script::Unknown);
}

#[test]
fn first_and_last_code_points() {
    assert_eq!(get_script('\u{0}'), Script::Common);
    assert_eq!(get_script('\u{E01EF}'), Script::Inherited);
}

#[test]
fn assorted_scripts() {
    assert_eq!(get_script('Z'), Script::Latin);
    assert_eq!(get_script('\u{3B1}'), Script::Greek);
    assert_eq!(get_script('\u{5D0}'), Script::Hebrew);
    assert_eq!(get_script('\u{627}'), Script::Arabic);
    assert_eq!(get_script('\u{4E00}'), Script::Han);
    assert_eq!(get_script('\u{3042}'), Script::Hiragana);
    assert_eq!(get_script('\u{AC00}'), Script::Hangul);
    assert_eq!(get_script('\u{300}'), Script::Inherited);
    assert_eq!(get_script('\u{1E900}'), Script::Adlam);
    assert_eq!(get_script('\u{1E2C0}'), Script::Wancho);
}

#[test]
fn unicode_version_is_recorded() {
    assert_eq!(UNICODE_VERSION, (12, 1, 0));
}

#[test]
fn table_is_sorted_and_disjoint() {
    for (i, &(low, high, script)) in SCRIPT.iter().enumerate() {
        assert!(low <= high);
        assert!(high <= 0x10FFFF);
        assert_ne!(script, Script::Unknown);
        if i + 1 < SCRIPT.len() {
            let (next_low, _, next_script) = SCRIPT[i + 1];
            assert!(high < next_low);
            if high + 1 == next_low {
                assert_ne!(script, next_script);
            }
        }
    }
}

#[test]
fn range_ends_resolve_to_their_tag() {
    for &(low, high, script) in SCRIPT.iter() {
        if let Some(s) = script_of_u32(low) {
            assert_eq!(s, script);
        }
        if let Some(s) = script_of_u32(high) {
            assert_eq!(s, script);
        }
        if low > 0 {
            if let Some(s) = script_of_u32(low - 1) {
                assert_ne!(s, script);
            }
        }
        if high < 0x10FFFF {
            if let Some(s) = script_of_u32(high + 1) {
                assert_ne!(s, script);
            }
        }
    }
}

#[test]
fn every_char_matches_a_linear_scan() {
    let mut c: u32 = 0;
    while c <= 0x10FFFF {
        if let Some(ch) = char::from_u32(c) {
            let expected = SCRIPT
                .iter()
                .find(|&&(low, high, _)| low <= c && c <= high)
                .map(|&(_, _, s)| s)
                .unwrap_or(Script::Unknown);
            assert_eq!(get_script(ch), expected);
        }
        c += 0x101;
    }
}

#[test]
fn repeated_lookups_agree() {
    for ch in ['a', '.', '\u{590}', '\u{30AB}', '\u{1F9B3}', '\u{10FFFF}'] {
        let first = get_script(ch);
        for _ in 0..3 {
            assert_eq!(get_script(ch), first);
        }
    }
}
