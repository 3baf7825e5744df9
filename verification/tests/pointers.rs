use skip_rs::error::SkipError;
use skip_rs::pointer::{read_hex, NonNullPtr, PointerTypeConfig, RelativePointer};

fn relative(text: &str) -> RelativePointer {
    RelativePointer(text.to_string())
}

#[test]
fn hex_digits_in_both_cases() {
    assert_eq!(read_hex("0"), Some(0));
    assert_eq!(read_hex("1A2b3C"), Some(0x1A2B3C));
    assert_eq!(read_hex("ff"), Some(255));
    assert_eq!(read_hex("FF"), Some(255));
    assert_eq!(read_hex("0010"), Some(16));
    assert_eq!(read_hex("9"), Some(9));
    assert_eq!(read_hex("a"), Some(10));
    assert_eq!(read_hex("F"), Some(15));
}

#[test]
fn hex_takes_one_leading_plus() {
    assert_eq!(read_hex("+10"), Some(16));
    assert_eq!(read_hex("++10"), None);
    assert_eq!(read_hex("+"), None);
}

#[test]
fn hex_rejects_what_is_no_number() {
    assert_eq!(read_hex(""), None);
    assert_eq!(read_hex("-1"), None);
    assert_eq!(read_hex("0x10"), None);
    assert_eq!(read_hex("12g"), None);
    assert_eq!(read_hex(" 12"), None);
    assert_eq!(read_hex("12 "), None);
    assert_eq!(read_hex("1_0"), None);
    assert_eq!(read_hex("é"), None);
    assert_eq!(read_hex("/"), None);
    assert_eq!(read_hex(":"), None);
    assert_eq!(read_hex("@"), None);
    assert_eq!(read_hex("G"), None);
    assert_eq!(read_hex("`"), None);
}

#[test]
fn hex_agrees_with_the_standard_parser() {
    for text in ["0", "7f", "+7F", "", "+", "-", "-7", "zz", "DEADBEEF", "00000000000000000001"] {
        assert_eq!(read_hex(text), usize::from_str_radix(text, 16).ok(), "{}", text);
    }
}

#[test]
fn hex_stops_at_the_largest_address() {
    let max = format!("{:X}", usize::MAX);
    assert_eq!(read_hex(&max), Some(usize::MAX));
    let too_long = format!("1{:X}", 0usize.wrapping_sub(1));
    assert_eq!(read_hex(&too_long), None);
    let too_large = format!("{}0", max);
    assert_eq!(read_hex(&too_large), None);
}

#[test]
fn relative_pointer_splits_at_first_plus() {
    let p = relative("game.exe+1A2B3C");
    assert_eq!(p.module_name(), Ok("game.exe"));
    assert_eq!(p.offset(), Ok(0x1A2B3C));
    let q = relative("a+b+c");
    assert_eq!(q.module_name(), Ok("a"));
    assert_eq!(q.offset(), Err(SkipError::InvalidRelativePointerOffset));
    let r = relative("mod++10");
    assert_eq!(r.module_name(), Ok("mod"));
    assert_eq!(r.offset(), Ok(0x10));
}

#[test]
fn relative_pointer_with_empty_parts() {
    let p = relative("+10");
    assert_eq!(p.module_name(), Ok(""));
    assert_eq!(p.offset(), Ok(0x10));
    let q = relative("game.exe+");
    assert_eq!(q.module_name(), Ok("game.exe"));
    assert_eq!(q.offset(), Err(SkipError::InvalidRelativePointerOffset));
}

#[test]
fn relative_pointer_without_plus_is_refused() {
    let p = relative("game.exe");
    assert_eq!(p.module_name(), Err(SkipError::InvalidRelativePointerSyntax));
    assert_eq!(p.offset(), Err(SkipError::InvalidRelativePointerSyntax));
    assert_eq!(relative("").module_name(), Err(SkipError::InvalidRelativePointerSyntax));
}

#[test]
fn relative_pointer_with_wide_characters() {
    let p = relative("jeu\u{e9}t\u{e9}.exe+ff");
    assert_eq!(p.module_name(), Ok("jeu\u{e9}t\u{e9}.exe"));
    assert_eq!(p.offset(), Ok(255));
}

#[test]
fn non_null_pointer_refuses_zero() {
    assert_eq!(NonNullPtr::new(0), None);
    assert_eq!(NonNullPtr::new(1).map(|p| p.as_usize()), Some(1));
    assert_eq!(NonNullPtr::new(usize::MAX).map(|p| p.as_usize()), Some(usize::MAX));
}

#[test]
fn absolute_pointer_needs_no_module() {
    let p = PointerTypeConfig::Absolute(NonNullPtr::new(0x1400).unwrap());
    assert_eq!(p.required_module(), Ok(None));
    assert_eq!(p.get_non_null_ptr(Err(SkipError::ModuleUnavailable)).map(|p| p.as_usize()), Ok(0x1400));
    assert_eq!(p.get_non_null_ptr(Ok(5)).map(|p| p.as_usize()), Ok(0x1400));
}

#[test]
fn relative_pointer_adds_offset_to_base() {
    let p = PointerTypeConfig::Relative(relative("game.exe+1000"));
    assert_eq!(p.required_module(), Ok(Some("game.exe")));
    assert_eq!(p.get_non_null_ptr(Ok(0x40_0000)).map(|p| p.as_usize()), Ok(0x40_1000));
}

#[test]
fn relative_pointer_failures_in_order() {
    let no_plus = PointerTypeConfig::Relative(relative("game.exe"));
    assert_eq!(no_plus.required_module(), Err(SkipError::InvalidRelativePointerSyntax));
    assert_eq!(
        no_plus.get_non_null_ptr(Err(SkipError::ModuleUnavailable)).map(|p| p.as_usize()),
        Err(SkipError::InvalidRelativePointerSyntax)
    );
    let bad_offset = PointerTypeConfig::Relative(relative("game.exe+xyz"));
    assert_eq!(
        bad_offset.get_non_null_ptr(Err(SkipError::ModuleUnavailable)).map(|p| p.as_usize()),
        Err(SkipError::ModuleUnavailable)
    );
    assert_eq!(
        bad_offset.get_non_null_ptr(Ok(0x1000)).map(|p| p.as_usize()),
        Err(SkipError::InvalidRelativePointerOffset)
    );
}

#[test]
fn relative_pointer_to_nowhere_is_refused() {
    let zero = PointerTypeConfig::Relative(relative("game.exe+0"));
    assert_eq!(zero.get_non_null_ptr(Ok(0)).map(|p| p.as_usize()), Err(SkipError::InvalidRelativePointer));
    assert_eq!(zero.get_non_null_ptr(Ok(1)).map(|p| p.as_usize()), Ok(1));
    let far = PointerTypeConfig::Relative(relative("game.exe+2"));
    assert_eq!(
        far.get_non_null_ptr(Ok(usize::MAX - 1)).map(|p| p.as_usize()),
        Err(SkipError::InvalidRelativePointer)
    );
    assert_eq!(far.get_non_null_ptr(Ok(usize::MAX - 2)).map(|p| p.as_usize()), Ok(usize::MAX));
}

#[test]
fn pointer_configs_compare_by_content() {
    let a = PointerTypeConfig::Relative(relative("game.exe+10"));
    let b = PointerTypeConfig::Relative(relative("game.exe+10"));
    let c = PointerTypeConfig::Relative(relative("game.exe+11"));
    let d = PointerTypeConfig::Absolute(NonNullPtr::new(0x10).unwrap());
    assert!(a == b);
    assert!(a != c);
    assert!(a != d);
    assert!(d == PointerTypeConfig::Absolute(NonNullPtr::new(0x10).unwrap()));
    assert!(a.clone() == a);
}

#[test]
fn every_failure_has_its_words() {
    assert_eq!(SkipError::PointerNotInitialized.message(), "Pointer not initialised");
    assert_eq!(SkipError::InvalidRelativePointerSyntax.message(), "Invalid relative pointer syntax");
    assert_eq!(SkipError::InvalidRelativePointerOffset.message(), "Invalid relative pointer offset");
    assert_eq!(SkipError::InvalidRelativePointer.message(), "Invalid relative pointer");
    assert_eq!(SkipError::SignatureNotFound.message(), "Signature not found");
    assert_eq!(SkipError::ModuleUnavailable.message(), "Module unavailable");
    assert_eq!(SkipError::ConfigLoadError.message(), "Config could not be loaded");
    assert_eq!(SkipError::ConfigParseError.message(), "Config could not be parsed");
}
