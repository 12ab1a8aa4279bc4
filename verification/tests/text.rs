use platform2::stream::{traffic_type, TrafficError, TrafficType};
use platform2::shell::parse_command;
use platform2::stream::WriteOutcome;
use platform2::text::{
    chars_of, decimal_string, hex_string, is_whitespace, parse_decimal_u32, same_text,
};
use platform2::vsock::nonblocking_flags;

fn parse(text: &str) -> Option<u32> {
    let chars = chars_of(text);
    parse_decimal_u32(&chars, 0, chars.len())
}

#[test]
fn decimal_numbers() {
    assert_eq!(parse("0"), Some(0));
    assert_eq!(parse("42"), Some(42));
    assert_eq!(parse("+42"), Some(42));
    assert_eq!(parse("0042"), Some(42));
    assert_eq!(parse("4294967295"), Some(u32::MAX));
    assert_eq!(parse("4294967296"), None);
    assert_eq!(parse("42949672950"), None);
    assert_eq!(parse("99999999999999999999999"), None);
    assert_eq!(parse(""), None);
    assert_eq!(parse("+"), None);
    assert_eq!(parse("-1"), None);
    assert_eq!(parse("++1"), None);
    assert_eq!(parse("1+"), None);
    assert_eq!(parse("12a"), None);
    assert_eq!(parse(" 1"), None);
    assert_eq!(parse("4294967296x"), None);
}

#[test]
fn decimal_numbers_agree_with_std() {
    for text in ["7", "+7", "007", "4294967295", "4294967296", "", "+", "-0", "1 ", "٣"] {
        assert_eq!(parse(text), text.parse::<u32>().ok(), "{:?}", text);
    }
}

#[test]
fn part_of_a_text_as_number() {
    let chars = chars_of("ab123cd");
    assert_eq!(parse_decimal_u32(&chars, 2, 5), Some(123));
    assert_eq!(parse_decimal_u32(&chars, 2, 6), None);
    assert_eq!(parse_decimal_u32(&chars, 3, 3), None);
}

#[test]
fn characters_and_texts() {
    assert_eq!(chars_of("h\u{e9}!"), vec!['h', '\u{e9}', '!']);
    assert!(chars_of("").is_empty());
    assert!(same_text("stream", "stream"));
    assert!(!same_text("stream", "streams"));
    assert!(!same_text("stream", "strean"));
    assert!(same_text("", ""));
}

#[test]
fn traffic_types() {
    assert_eq!(traffic_type(None), Ok(TrafficType::Stream));
    assert_eq!(traffic_type(Some("stream")), Ok(TrafficType::Stream));
    assert_eq!(
        traffic_type(Some("datagram")),
        Err(TrafficError::DatagramUnsupported)
    );
    assert_eq!(traffic_type(Some("")), Err(TrafficError::InvalidType));
    assert_eq!(traffic_type(Some("Stream")), Err(TrafficError::InvalidType));
    assert_eq!(traffic_type(Some("packet")), Err(TrafficError::InvalidType));
}

#[test]
fn blocking_mode_flags() {
    let mask = 0o4000;
    assert_eq!(nonblocking_flags(0o2, mask, true), 0o4002);
    assert_eq!(nonblocking_flags(0o4002, mask, true), 0o4002);
    assert_eq!(nonblocking_flags(0o4002, mask, false), 0o2);
    assert_eq!(nonblocking_flags(0o2, mask, false), 0o2);
}

#[test]
fn numbers_as_text() {
    assert_eq!(decimal_string(0), "0");
    assert_eq!(decimal_string(9), "9");
    assert_eq!(decimal_string(10), "10");
    assert_eq!(decimal_string(5000), "5000");
    assert_eq!(decimal_string(u32::MAX), "4294967295");
    assert_eq!(hex_string(0), "0");
    assert_eq!(hex_string(15), "f");
    assert_eq!(hex_string(16), "10");
    assert_eq!(hex_string(0xdeadbeef), "deadbeef");
    assert_eq!(hex_string(u32::MAX), "ffffffff");
    let mut n: u32 = 1;
    for _ in 0..200 {
        assert_eq!(decimal_string(n), n.to_string());
        assert_eq!(hex_string(n), format!("{:x}", n));
        n = n.wrapping_mul(2654435761).wrapping_add(12345);
    }
}

#[test]
fn white_space_is_what_std_says() {
    for v in 0..=0x10ffffu32 {
        if let Some(c) = char::from_u32(v) {
            assert_eq!(is_whitespace(c), c.is_whitespace(), "{:x}", v);
        }
    }
}

#[test]
fn commands_are_split_into_words() {
    assert_eq!(parse_command("ping -c 3 host"), vec!["ping", "-c", "3", "host"]);
    assert_eq!(parse_command("  help   vmc\t\n"), vec!["help", "vmc"]);
    assert_eq!(parse_command("one"), vec!["one"]);
    assert!(parse_command("").is_empty());
    assert!(parse_command(" \t \u{2003}").is_empty());
    // Quotes are not special.
    assert_eq!(parse_command("echo \"a b\""), vec!["echo", "\"a", "b\""]);
    for line in ["a\u{a0}b", " x", "x ", "\u{e9}t\u{e9} 1", "a\r\nb"] {
        let expected: Vec<String> = line.split_whitespace().map(|s| s.to_string()).collect();
        assert_eq!(parse_command(line), expected);
    }
}

#[test]
fn writes_that_stall() {
    assert!(WriteOutcome::WouldBlock.stalls());
    assert!(WriteOutcome::Written(0).stalls());
    assert!(!WriteOutcome::Written(1).stalls());
    assert!(!WriteOutcome::Failed.stalls());
}
