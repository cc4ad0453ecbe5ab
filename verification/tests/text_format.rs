use peer_stream::decimal::{format_i32, format_u32, parse_u32};

#[test]
fn format_u32_matches_to_string() {
    for n in [0u32, 1, 9, 10, 99, 100, 160, 4096, 65535, 1_000_000, u32::MAX] {
        assert_eq!(format_u32(n), n.to_string());
    }
}

#[test]
fn format_i32_matches_to_string() {
    for x in [0i32, 1, -1, 9, -10, 12345, -12345, i32::MAX, i32::MIN] {
        assert_eq!(format_i32(x), x.to_string());
    }
}

#[test]
fn parse_u32_matches_std_parse() {
    let inputs: [&[u8]; 20] = [
        b"0", b"42", b"+42", b"", b"+", b"-0", b"-1", b"007", b"4294967295", b"4294967296",
        b"99999999999999999999", b"12a", b" 12", b"12 ", b"++1", b"+0", b"1_000", b"\xff1",
        b"00000000000000000000001", b"3.5",
    ];
    for input in inputs {
        let expected = std::str::from_utf8(input).ok().and_then(|s| s.parse::<u32>().ok());
        assert_eq!(parse_u32(input), expected, "input {:?}", input);
    }
}

#[test]
fn parse_reads_back_formatted_numbers() {
    for n in [0u32, 7, 10, 123456, u32::MAX] {
        assert_eq!(parse_u32(format_u32(n).as_bytes()), Some(n));
    }
}
