use memflex::{single, DynPattern, Matcher, Pattern, PatternError};

#[test]
fn pattern_test_char_to_u8() {
    assert_eq!(single('0'), 0x0);
    assert_eq!(single('9'), 0x9);
    assert_eq!(single('A'), 0xA);
    assert_eq!(single('F'), 0xF);
}

#[test]
fn static_test_char_to_u8() {
    assert_eq!(single('0'), 0x0);
    assert_eq!(single('9'), 0x9);
    assert_eq!(single('A'), 0xA);
    assert_eq!(single('F'), 0xF);
}

#[test]
fn test_pattern_search() {
    let memory: [u8; 10] = [0, 1, 2, 3, 4, 5, 6, 7, 8, 9];

    let ida = Pattern::<4>::from_ida_style("02 03 ? 05");
    let peid = Pattern::<4>::from_peid_style("02 03 ?? 05");
    let code = Pattern::<4>::from_code_style(b"\x02\x03\x00\x05", "xx?x");

    assert_eq!(ida.len(), 4);
    assert_eq!(peid.len(), 4);
    assert_eq!(code.len(), 4);

    assert!(memory.windows(ida.len()).any(|t| ida.matches(t)));
    assert!(memory.windows(peid.len()).any(|t| peid.matches(t)));
    assert!(memory.windows(code.len()).any(|t| code.matches(t)));
}

#[test]
fn test_single_lowercase() {
    assert_eq!(single('a'), 0xA);
    assert_eq!(single('f'), 0xF);
    assert_eq!(single('b'), 0xB);
}

#[test]
fn test_all_notations_match_same_window() {
    let data = b"\x11\x22\x33";

    let ida = Pattern::<3>::from_ida_style("11 ? 33");
    let peid = Pattern::<3>::from_peid_style("11 ?? 33");
    let code = Pattern::<3>::from_code_style(b"\x11\x00\x33", "x?x");

    assert!(ida.matches(data));
    assert!(peid.matches(data));
    assert!(code.matches(data));
}

#[test]
fn test_matches_wrong_length_window() {
    let pat = Pattern::<2>::from_ida_style("11 22");
    assert!(pat.matches(b"\x11\x22"));
    assert!(!pat.matches(b"\x11"));
    assert!(!pat.matches(b"\x11\x22\x00"));

    let dyn_pat = DynPattern::from_ida_style("11 22").unwrap();
    assert!(dyn_pat.matches(b"\x11\x22"));
    assert!(!dyn_pat.matches(b"\x11"));
    assert!(!dyn_pat.matches(b"\x11\x22\x00"));
}

#[test]
fn test_exact_must_equal_and_wildcard_any() {
    let pat = Pattern::<3>::from_ida_style("11 ? 33");
    assert!(pat.matches(b"\x11\x00\x33"));
    assert!(pat.matches(b"\x11\xff\x33"));
    assert!(!pat.matches(b"\x12\x00\x33"));
    assert!(!pat.matches(b"\x11\x00\x34"));
}

#[test]
fn test_dyn_from_bytes_reflexive() {
    let data = [5u8, 6, 7, 8];
    let pat = DynPattern::from_bytes(&data).unwrap();
    assert_eq!(pat.size(), 4);
    assert!(pat.matches(&data));
}

#[test]
fn test_dyn_from_pattern_keeps_tokens() {
    let fixed = Pattern::<3>::from_ida_style("AA ? CC");
    let dynamic = DynPattern::from_pattern(&fixed);
    assert_eq!(dynamic.size(), 3);
    assert!(dynamic.matches(b"\xaa\x42\xcc"));
    assert!(!dynamic.matches(b"\xab\x42\xcc"));
}

#[test]
fn test_empty_pattern_rejected() {
    assert_eq!(DynPattern::from_ida_style("").unwrap_err(), PatternError::Empty);
    assert_eq!(DynPattern::from_ida_style("   ").unwrap_err(), PatternError::Empty);
    assert_eq!(DynPattern::from_peid_style("").unwrap_err(), PatternError::Empty);
    assert_eq!(DynPattern::from_bytes(&[]).unwrap_err(), PatternError::Empty);
    assert_eq!(DynPattern::from_code_style(&[], "").unwrap_err(), PatternError::Empty);
}

#[test]
fn test_malformed_pattern_rejected() {
    assert_eq!(DynPattern::from_ida_style("GG").unwrap_err(), PatternError::Malformed);
    assert_eq!(DynPattern::from_ida_style("1").unwrap_err(), PatternError::Malformed);
    assert_eq!(DynPattern::from_ida_style("112").unwrap_err(), PatternError::Malformed);
    assert_eq!(DynPattern::from_ida_style("11 ?? 33").unwrap_err(), PatternError::Malformed);
    assert_eq!(DynPattern::from_peid_style("11 ? 33").unwrap_err(), PatternError::Malformed);
    assert_eq!(
        DynPattern::from_code_style(b"\x11\x22", "x").unwrap_err(),
        PatternError::Malformed
    );
    assert_eq!(
        DynPattern::from_code_style(b"\x11\x22", "xy").unwrap_err(),
        PatternError::Malformed
    );
}

#[test]
fn test_spacing_is_flexible() {
    let a = DynPattern::from_ida_style("11  ?   33").unwrap();
    assert!(a.matches(b"\x11\x00\x33"));
    let b = DynPattern::from_ida_style("  11 ? 33  ").unwrap();
    assert!(b.matches(b"\x11\x00\x33"));
    let c = DynPattern::from_ida_style("ab cd").unwrap();
    assert!(c.matches(b"\xab\xcd"));
}
