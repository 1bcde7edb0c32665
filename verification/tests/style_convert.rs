use memflex::{DynPattern, Pattern};

#[test]
fn test_render_ida_exact_values() {
    let pat = DynPattern::from_bytes(&[0xAB, 0x01, 0xFF]).unwrap();
    assert_eq!(pat.to_ida_style(), "AB 01 FF");
    assert_eq!(pat.to_peid_style(), "AB 01 FF");
}

#[test]
fn test_render_wildcards_exact_values() {
    let pat = DynPattern::from_ida_style("ab ? 01").unwrap();
    assert_eq!(pat.to_ida_style(), "AB ? 01");
    assert_eq!(pat.to_peid_style(), "AB ?? 01");
}

#[test]
fn test_render_code_style_exact_values() {
    let pat = DynPattern::from_ida_style("AB ? 01").unwrap();
    let (bytes, mask) = pat.to_code_style();
    assert_eq!(bytes, "\\xAB?\\x01");
    assert_eq!(mask, "x?x");

    let fixed = Pattern::<2>::from_ida_style("0A 0B");
    let (fb, fm) = fixed.to_code_style();
    assert_eq!(fb, "\\x0A\\x0B");
    assert_eq!(fm, "xx");
}

#[test]
fn test_round_trip_ida() {
    let original = DynPattern::from_ida_style("0a ?  Ff 00 ?").unwrap();
    let rendered = original.to_ida_style();
    assert_eq!(rendered, "0A ? FF 00 ?");
    let again = DynPattern::from_ida_style(&rendered).unwrap();
    assert_eq!(again, original);
}

#[test]
fn test_round_trip_peid() {
    let original = DynPattern::from_peid_style("0a ??  Ff 00 ??").unwrap();
    let rendered = original.to_peid_style();
    assert_eq!(rendered, "0A ?? FF 00 ??");
    let again = DynPattern::from_peid_style(&rendered).unwrap();
    assert_eq!(again, original);
}

#[test]
fn test_round_trip_fixed_pattern() {
    let pat = Pattern::<4>::from_peid_style("13 ?? D1 ??");
    let rendered = pat.to_peid_style();
    assert_eq!(rendered, "13 ?? D1 ??");
    let again = Pattern::<4>::from_peid_style(&rendered);
    assert_eq!(again, pat);
    assert_eq!(pat.to_ida_style(), "13 ? D1 ?");
}

#[test]
fn test_round_trip_trailing_wildcard() {
    let original = DynPattern::from_ida_style("11 22 ?").unwrap();
    assert_eq!(original.size(), 3);
    let rendered = original.to_ida_style();
    assert_eq!(rendered, "11 22 ?");
    let again = DynPattern::from_ida_style(&rendered).unwrap();
    assert_eq!(again, original);
    assert!(again.matches(b"\x11\x22\x99"));
}
