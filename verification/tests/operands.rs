use zasm::number::{parse_u16, read_digits, read_u16, NumberError};
use zasm::text::{chars_of, is_whitespace, same_text, trim};
use zasm::{is_deref, parse_hex, parse_param, parse_reg, strip_deref, AsmError, Param};

fn operand(text: &str) -> Result<Param, AsmError> {
    parse_param(text.to_string())
}

fn deref(inner: Param) -> Param {
    Param::Deref(Box::new(inner))
}

#[test]
fn test_parse_reg() {
    let byte = parse_reg(&"@rg1".to_string());
    assert_eq!(byte, Some(0x8));
}

#[test]
fn test_strip_deref() {
    let s = String::from("[@rg1]");
    let actual = strip_deref(&s);
    assert_eq!(actual, "@rg1".to_string());
}

#[test]
fn test_is_deref() {
    assert!(is_deref(&"[@rg0]".to_string()));
}

#[test]
fn test_parse_param1() {
    let s = String::from("[@rg0]");
    let actual = parse_param(s);
    let expected = Ok(Param::Deref(Box::new(Param::Register(0x7))));
    assert_eq!(actual, expected);
}

#[test]
fn test_parse_param2() {
    let s = String::from("@ret");
    let actual = parse_param(s);
    let expected = Ok(Param::Register(1));
    assert_eq!(actual, expected);
}

#[test]
fn test_parse_param3() {
    let s = String::from("[[12]]");
    let actual = parse_param(s);
    let expected = Ok(Param::Deref(Box::new(Param::Deref(Box::new(Param::Immediate(12))))));
    assert_eq!(actual, expected);
}

#[test]
fn test_parse_with_hex() {
    let actual = parse_param("0xAC".to_string());
    let expected = Ok(Param::Immediate(0xAC));
    assert_eq!(actual, expected);
}

#[test]
fn every_register_name_has_its_code() {
    let table = [
        ("@ret", 0x1),
        ("@spr", 0x2),
        ("@glb", 0x3),
        ("@rta", 0x4),
        ("@fla", 0x5),
        ("@fpr", 0x6),
        ("@rg0", 0x7),
        ("@rg1", 0x8),
        ("@rg2", 0x9),
        ("@rg3", 0xA),
        ("@rg4", 0xB),
        ("@pr0", 0xC),
        ("@pr1", 0xD),
        ("@pr2", 0xE),
        ("@rg5", 0xF),
    ];
    for (name, code) in table {
        assert_eq!(parse_reg(&name.to_string()), Some(code));
        assert_eq!(operand(name), Ok(Param::Register(code)));
    }
}

#[test]
fn unknown_register_is_rejected() {
    assert_eq!(parse_reg(&"@rg6".to_string()), None);
    assert_eq!(parse_reg(&"rg0".to_string()), None);
    assert_eq!(parse_reg(&"@RG0".to_string()), None);
    assert_eq!(parse_reg(&"@".to_string()), None);
    assert_eq!(parse_reg(&"".to_string()), None);
    assert_eq!(operand("@rg6"), Err(AsmError::UnknownRegister));
    assert_eq!(operand("@"), Err(AsmError::UnknownRegister));
    assert_eq!(operand("@rg0x"), Err(AsmError::UnknownRegister));
    assert_eq!(operand("@rg0]"), Err(AsmError::UnknownRegister));
    assert_eq!(operand("[@nope]"), Err(AsmError::UnknownRegister));
}

#[test]
fn register_lookup_trims_white_space() {
    assert_eq!(parse_reg(&"  @rg0\t".to_string()), Some(0x7));
    assert_eq!(parse_reg(&"@rg0\u{a0}".to_string()), Some(0x7));
    assert_eq!(parse_reg(&"@r g0".to_string()), None);
    assert_eq!(operand("@rg0 "), Ok(Param::Register(0x7)));
    // A token that starts with white space does not start with the sigil.
    assert_eq!(operand(" @rg0"), Err(AsmError::MalformedImmediate));
}

#[test]
fn brackets_nest_to_any_depth() {
    assert_eq!(operand("[1]"), Ok(deref(Param::Immediate(1))));
    assert_eq!(operand("[[[@pr2]]]"), Ok(deref(deref(deref(Param::Register(0xE))))));
    let depth = 200;
    let text = format!("{}0x10{}", "[".repeat(depth), "]".repeat(depth));
    let mut expected = Param::Immediate(16);
    for _ in 0..depth {
        expected = deref(expected);
    }
    assert_eq!(operand(&text), Ok(expected));
}

#[test]
fn only_a_full_pair_of_brackets_is_a_deref() {
    assert!(!is_deref(&"[".to_string()));
    assert!(!is_deref(&"]".to_string()));
    assert!(!is_deref(&"".to_string()));
    assert!(!is_deref(&"[12".to_string()));
    assert!(!is_deref(&"12]".to_string()));
    assert!(is_deref(&"[]".to_string()));
    assert_eq!(operand("[]"), Err(AsmError::MalformedImmediate));
    assert_eq!(operand("[12"), Err(AsmError::MalformedImmediate));
    assert_eq!(operand("12]"), Err(AsmError::MalformedImmediate));
    assert_eq!(operand("[[12]"), Err(AsmError::MalformedImmediate));
    // Only the outermost pair goes: what is left may hold brackets.
    assert_eq!(strip_deref(&"[[12]]".to_string()), "[12]".to_string());
    assert_eq!(strip_deref(&"[]".to_string()), "".to_string());
    assert_eq!(strip_deref(&"a\u{e9}b".to_string()), "\u{e9}".to_string());
}

#[test]
fn hexadecimal_immediates() {
    assert_eq!(parse_hex("AC".to_string()), Some(172));
    assert_eq!(parse_hex("ac".to_string()), Some(172));
    assert_eq!(parse_hex("0".to_string()), Some(0));
    assert_eq!(parse_hex("FFFF".to_string()), Some(0xFFFF));
    assert_eq!(parse_hex("10000".to_string()), None);
    assert_eq!(parse_hex("0000FFFF".to_string()), Some(0xFFFF));
    assert_eq!(parse_hex("+1f".to_string()), None);
    assert_eq!(parse_hex("+".to_string()), None);
    assert_eq!(parse_hex("".to_string()), None);
    assert_eq!(parse_hex("-1".to_string()), None);
    assert_eq!(parse_hex("1G".to_string()), None);
    assert_eq!(parse_hex("FFFFFFFFFFFFFFFFFFFFFFFFFFFFFFFFFFFFFFFFG".to_string()), None);
    assert_eq!(parse_hex("0x1".to_string()), None);
    assert_eq!(parse_hex(" 1".to_string()), None);
    assert_eq!(operand("0xAC"), Ok(Param::Immediate(172)));
    // A sign is no hexadecimal digit.
    assert_eq!(operand("0x+AC"), Err(AsmError::MalformedImmediate));
    assert_eq!(operand("0x+1F"), Err(AsmError::MalformedImmediate));
    assert_eq!(operand("0x-1"), Err(AsmError::MalformedImmediate));
    assert_eq!(operand("[0x+1F]"), Err(AsmError::MalformedImmediate));
    assert_eq!(operand("0x0000001F"), Ok(Param::Immediate(31)));
    assert_eq!(operand("0xffff"), Ok(Param::Immediate(65535)));
    assert_eq!(operand("0x10000"), Err(AsmError::MalformedImmediate));
    assert_eq!(operand("0x"), Err(AsmError::MalformedImmediate));
    assert_eq!(operand("0xZZ"), Err(AsmError::MalformedImmediate));
    assert_eq!(operand("0X10"), Err(AsmError::MalformedImmediate));
}

#[test]
fn decimal_immediates() {
    assert_eq!(operand("0"), Ok(Param::Immediate(0)));
    assert_eq!(operand("12"), Ok(Param::Immediate(12)));
    assert_eq!(operand("+12"), Ok(Param::Immediate(12)));
    assert_eq!(operand("00012"), Ok(Param::Immediate(12)));
    assert_eq!(operand("65535"), Ok(Param::Immediate(65535)));
    assert_eq!(operand("65536"), Err(AsmError::MalformedImmediate));
    assert_eq!(operand("99999999999999999999999999"), Err(AsmError::MalformedImmediate));
    assert_eq!(operand("-1"), Err(AsmError::MalformedImmediate));
    assert_eq!(operand("12a"), Err(AsmError::MalformedImmediate));
    assert_eq!(operand("1_000"), Err(AsmError::MalformedImmediate));
    assert_eq!(operand(""), Err(AsmError::MalformedImmediate));
    assert_eq!(operand("loop"), Err(AsmError::MalformedImmediate));
    assert_eq!(operand("\u{663}"), Err(AsmError::MalformedImmediate));
}

#[test]
fn numbers_are_read_as_the_standard_library_reads_them() {
    let samples = [
        "", "+", "-", "0", "+0", "-0", "7", "42", "+42", "++42", "65535", "65536", "0065535",
        "ffff", "FFFF", "fFfF", "10000", "g", "z", "Z", "1 ", " 1", "1_0", "0x10", "\u{661}",
    ];
    for text in samples {
        let chars = chars_of(text);
        for radix in [2, 8, 10, 16, 36] {
            assert_eq!(parse_u16(&chars, radix), u16::from_str_radix(text, radix).ok());
        }
    }
    for value in 0..=u16::MAX {
        assert_eq!(operand(&format!("{}", value)), Ok(Param::Immediate(value)));
    }
    for value in (0..=u16::MAX).step_by(97) {
        assert_eq!(operand(&format!("0x{:x}", value)), Ok(Param::Immediate(value)));
        assert_eq!(operand(&format!("0x{:X}", value)), Ok(Param::Immediate(value)));
    }
}

#[test]
fn a_large_number_is_told_apart_from_no_number() {
    let read = |text: &str| read_u16(&chars_of(text), 10);
    assert_eq!(read("65535"), Ok(65535));
    assert_eq!(read("65536"), Err(NumberError::TooLarge));
    assert_eq!(read("+99999999999999999999999999999999"), Err(NumberError::TooLarge));
    assert_eq!(read("65536x"), Err(NumberError::NotANumber));
    assert_eq!(read("x65536"), Err(NumberError::NotANumber));
    assert_eq!(read(""), Err(NumberError::NotANumber));
    assert_eq!(read("+"), Err(NumberError::NotANumber));
    // Digits alone take no sign.
    assert_eq!(read_digits(&chars_of("+12"), 10), Err(NumberError::NotANumber));
    assert_eq!(read_digits(&chars_of("12"), 10), Ok(12));
    assert_eq!(read_digits(&chars_of("+1F"), 16), Err(NumberError::NotANumber));
    assert_eq!(read_digits(&chars_of("1F"), 16), Ok(31));
    assert_eq!(read_digits(&chars_of(""), 16), Err(NumberError::NotANumber));
    assert_eq!(read_digits(&chars_of("10000"), 16), Err(NumberError::TooLarge));
    assert_eq!(read_u16(&chars_of("10000"), 16), Err(NumberError::TooLarge));
    assert_eq!(read_u16(&chars_of("1000g"), 16), Err(NumberError::NotANumber));
    assert_eq!(read_u16(&chars_of("zz"), 36), Ok(1295));
    assert_eq!(read_u16(&chars_of("1111111111111111"), 2), Ok(65535));
    assert_eq!(read_u16(&chars_of("10000000000000000"), 2), Err(NumberError::TooLarge));
}

#[test]
fn white_space_is_what_the_standard_library_calls_white_space() {
    for code in 0..=0x10FFFFu32 {
        if let Some(c) = char::from_u32(code) {
            assert_eq!(is_whitespace(c), c.is_whitespace());
        }
    }
}

#[test]
fn trimming_follows_the_standard_library() {
    let samples = [
        "", " ", "  \t\n ", "a", " a", "a ", "  a b  ", "\u{3000}x\u{2003}", "\r\nline\r\n",
        "\u{200b}x\u{200b}", "\u{feff}x",
    ];
    for text in samples {
        let chars = chars_of(text);
        let trimmed: String = trim(&chars).iter().collect();
        assert_eq!(trimmed, text.trim());
    }
}

#[test]
fn text_helpers() {
    assert_eq!(chars_of("a\u{e9}\u{1f600}"), vec!['a', '\u{e9}', '\u{1f600}']);
    assert_eq!(chars_of(""), Vec::<char>::new());
    assert!(same_text(&['c', 'm', 'p'], "cmp"));
    assert!(!same_text(&['c', 'm'], "cmp"));
    assert!(!same_text(&['c', 'm', 'p', 'x'], "cmp"));
    assert!(!same_text(&['c', 'm', 'q'], "cmp"));
    assert!(same_text(&[], ""));
    assert!(!same_text(&[], "a"));
    assert!(!same_text(&['a'], ""));
}

#[test]
fn operands_know_their_kind() {
    assert_eq!(Param::Immediate(3).kind(), zasm::ParamKind::Immediate);
    assert_eq!(Param::Register(3).kind(), zasm::ParamKind::Register);
    assert_eq!(deref(Param::Register(3)).kind(), zasm::ParamKind::Deref);
    let nested = deref(deref(Param::Immediate(9)));
    assert_eq!(nested.clone(), nested);
}
