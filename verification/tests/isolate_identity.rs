use rust_isolate::IsolateError;
use rust_isolate::IsolateIdentity;
use rust_isolate::IsolateRuntimeError;

#[test]
pub fn test_isolate_identity_equivalence() {
    let a = IsolateIdentity::new();
    let b = a;
    let c = IsolateIdentity::new();

    assert_eq!(a, b);
    assert_ne!(a, c);
}

#[test]
pub fn test_isolate_identity_serialization() {
    let a = IsolateIdentity::new();
    let b = a.to_string();
    let c = IsolateIdentity::try_from(&b).unwrap();

    assert_eq!(a, c);
}

// Freshly generated identities are pairwise distinct.
#[test]
pub fn test_identities_are_pairwise_distinct() {
    let mut seen: Vec<IsolateIdentity> = Vec::new();
    for _ in 0..100 {
        let id = IsolateIdentity::new();
        for earlier in &seen {
            assert_ne!(*earlier, id);
        }
        seen.push(id);
    }
}

// The text form is the canonical hyphenated rendering, in lowercase.
#[test]
pub fn test_identity_text_form_is_canonical() {
    let text = "00112233-4455-6677-8899-aabbccddeeff";
    let id = IsolateIdentity::try_from(text).unwrap();
    assert_eq!(id.to_string(), text);
}

// Parsing accepts uppercase digits, but the text form renders lowercase.
#[test]
pub fn test_identity_parse_accepts_uppercase() {
    let lower = IsolateIdentity::try_from("00112233-4455-6677-8899-aabbccddeeff").unwrap();
    let upper = IsolateIdentity::try_from("00112233-4455-6677-8899-AABBCCDDEEFF").unwrap();
    assert_eq!(lower, upper);
    assert_eq!(upper.to_string(), "00112233-4455-6677-8899-aabbccddeeff");
}

// A text of the wrong shape is rejected with the invalid-identity error.
#[test]
pub fn test_identity_parse_rejects_bad_text() {
    let cases = [
        "",
        "0123456789abcdef0123456789abcdef",
        "00112233-4455-6677-8899-aabbccddeef",
        "00112233-4455-6677-8899-aabbccddeeffa",
        "00112233x4455-6677-8899-aabbccddeeff",
        "0011223g-4455-6677-8899-aabbccddeeff",
        "00112233-4455-6677-8899-aabbccddee-f",
    ];
    for text in cases {
        match IsolateIdentity::try_from(text) {
            Err(IsolateRuntimeError::InvalidIdentity(_)) => {}
            _ => panic!("a malformed identity text must be rejected"),
        }
    }
}

// Any foreign error folds into the plain failure; a text reason is kept.
#[test]
pub fn test_isolate_error_conversions() {
    let folded = IsolateError::from_error(std::fmt::Error);
    assert!(matches!(folded, IsolateError::Failed));
    let reasoned = IsolateError::from_reason("broken");
    match reasoned {
        IsolateError::Reason(text) => assert_eq!(text, "broken"),
        _ => panic!("a reason must be kept"),
    }
}

// The smallest and the largest token survive the text round trip unchanged.
#[test]
pub fn test_identity_text_bounds() {
    let zero = "00000000-0000-0000-0000-000000000000";
    let id_zero = IsolateIdentity::try_from(zero).unwrap();
    assert_eq!(id_zero.to_string(), zero);

    let max = "ffffffff-ffff-ffff-ffff-ffffffffffff";
    let id_max = IsolateIdentity::try_from(max).unwrap();
    assert_eq!(id_max.to_string(), max);

    assert_ne!(id_zero, id_max);
}
