use addon_publish::text::{chars_of, char_is_whitespace, parse_i64, parse_u16, split_text, text_eq, trim_text};

fn strings(parts: &[&str]) -> Vec<String> {
    parts.iter().map(|p| p.to_string()).collect()
}

#[test]
fn chars_of_keeps_every_character() {
    assert_eq!(chars_of("a/ü€"), vec!['a', '/', 'ü', '€']);
    assert_eq!(chars_of(""), Vec::<char>::new());
}

#[test]
fn text_eq_compares_characters() {
    assert!(text_eq("tcp", "tcp"));
    assert!(!text_eq("tcp", "udp"));
    assert!(!text_eq("tcp", "tcp "));
    assert!(text_eq("", ""));
}

#[test]
fn split_text_agrees_with_std_split() {
    let samples = [
        "", "a", "/", "a/b", "a//b", "/a/", "docker.io/openhabx/foo", "80:8080", "5000-5010:5000-5010",
        "::", "-", "é/ü", "logvolume:/var/log",
    ];
    for sample in samples {
        for sep in ['/', ':', '-'] {
            let expected: Vec<String> = sample.split(sep).map(|p| p.to_string()).collect();
            assert_eq!(split_text(sample, sep), expected);
        }
    }
}

#[test]
fn split_text_exact_pieces() {
    assert_eq!(split_text("a:b:c", ':'), strings(&["a", "b", "c"]));
    assert_eq!(split_text("80:", ':'), strings(&["80", ""]));
    assert_eq!(split_text("", ':'), strings(&[""]));
}

#[test]
fn parse_u16_agrees_with_std_parse() {
    let samples = [
        "", "0", "7", "80", "1023", "1024", "65535", "65536", "99999999999999999999999999", "+5", "-5",
        "+", "-", "++1", "00080", " 80", "80 ", "8a", "٣", "0x10", "1_000", "+0",
    ];
    for sample in samples {
        assert_eq!(parse_u16(sample), sample.parse::<u16>().ok());
    }
}

#[test]
fn parse_u16_exact_values() {
    assert_eq!(parse_u16("8080"), Some(8080));
    assert_eq!(parse_u16("65535"), Some(65535));
    assert_eq!(parse_u16("65536"), None);
    assert_eq!(parse_u16("+22"), Some(22));
    assert_eq!(parse_u16(""), None);
}

#[test]
fn parse_i64_agrees_with_std_parse() {
    let samples = [
        "", "0", "-0", "+0", "104857600", "-1", "9223372036854775807", "9223372036854775808",
        "-9223372036854775808", "-9223372036854775809", "12a", "+", "-", "--1", " 1", "1 ",
        "340282366920938463463374607431768211456",
    ];
    for sample in samples {
        assert_eq!(parse_i64(sample), sample.parse::<i64>().ok());
    }
}

#[test]
fn parse_i64_exact_values() {
    assert_eq!(parse_i64("104857600"), Some(104857600));
    assert_eq!(parse_i64("-9223372036854775808"), Some(i64::MIN));
    assert_eq!(parse_i64("9223372036854775807"), Some(i64::MAX));
    assert_eq!(parse_i64("9223372036854775808"), None);
}

#[test]
fn whitespace_agrees_with_std_for_every_character() {
    let mut code: u32 = 0;
    while code <= 0x10FFFF {
        if let Some(c) = char::from_u32(code) {
            assert_eq!(char_is_whitespace(c), c.is_whitespace());
        }
        code += 1;
    }
}

#[test]
fn trim_text_agrees_with_std_trim() {
    let samples = ["", " ", "  a  ", "\n12345\n", "a b", "\t\r\n", "\u{3000}x\u{2028}", "x", " x", "x "];
    for sample in samples {
        assert_eq!(trim_text(sample), sample.trim().to_string());
    }
}
