use unicode_script::tables::SCRIPT;
use unicode_script::Script;

fn all_scripts() -> Vec<Script> {
    let mut scripts: Vec<Script> = SCRIPT.iter().map(|&(_, _, s)| s).collect();
    scripts.push(Script::Unknown);
    scripts.sort();
    scripts.dedup();
    scripts
}

#[test]
fn hb_codes_match_harfbuzz_constants() {
    assert_eq!(Script::Latin.to_hb_script(), harfbuzz_sys::HB_SCRIPT_LATIN);
    assert_eq!(Script::Katakana.to_hb_script(), harfbuzz_sys::HB_SCRIPT_KATAKANA);
    assert_eq!(Script::Common.to_hb_script(), harfbuzz_sys::HB_SCRIPT_COMMON);
    assert_eq!(Script::Inherited.to_hb_script(), harfbuzz_sys::HB_SCRIPT_INHERITED);
    assert_eq!(Script::CanadianAboriginal.to_hb_script(), harfbuzz_sys::HB_SCRIPT_CANADIAN_SYLLABICS);
    assert_eq!(Script::Wancho.to_hb_script(), harfbuzz_sys::HB_SCRIPT_WANCHO);
}

#[test]
fn hb_codes_exact_values() {
    assert_eq!(Script::Latin.to_hb_script(), 1281455214);
    assert_eq!(Script::Katakana.to_hb_script(), 1264676449);
    assert_eq!(Script::Adlam.to_hb_script(), 1097100397);
    assert_eq!(Script::Unknown.to_hb_script(), 1517976186);
}

#[test]
fn hb_codes_are_distinct_and_valid() {
    let scripts = all_scripts();
    assert_eq!(scripts.len(), 153);
    let mut codes: Vec<u32> = scripts.iter().map(|s| s.to_hb_script()).collect();
    assert!(codes.iter().all(|&c| c != harfbuzz_sys::HB_SCRIPT_INVALID));
    codes.sort();
    codes.dedup();
    assert_eq!(codes.len(), scripts.len());
}

#[test]
fn hb_code_round_trips_through_the_code_table() {
    let scripts = all_scripts();
    for &s in scripts.iter() {
        let code = s.to_hb_script();
        let back: Vec<Script> = scripts.iter().copied().filter(|t| t.to_hb_script() == code).collect();
        assert_eq!(back, vec![s]);
    }
}
