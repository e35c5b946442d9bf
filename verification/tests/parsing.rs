use tango_lockstep::exe45::parser;
use tango_lockstep::msg::{Chunk, MsgParseError, Parser};

fn charset() -> Vec<String> {
    vec!["A".to_owned(), "B".to_owned(), "C".to_owned()]
}

#[test]
fn parses_text_commands_and_stops() {
    let p = parser(&charset());
    let script = [0x00, 0x01, 0xe8, 0xe6, 0x05, 0xe5, 0x02];
    let chunks = p.parse(&script).expect("well-formed script");
    assert_eq!(chunks.len(), 4);
    assert_eq!(chunks[0], Chunk::Text { text: "A".to_owned() });
    assert_eq!(chunks[1], Chunk::Text { text: "B".to_owned() });
    assert_eq!(chunks[2], Chunk::Text { text: "\n".to_owned() });
    assert_eq!(chunks[3], Chunk::Command { op: vec![0xe6], params: vec![0x05] });
    // everything after the stop byte is not parsed: the charset byte 0x02
    // never shows up
}

#[test]
fn two_byte_patterns_match_before_falling_through() {
    let p = parser(&charset());
    let chunks = p.parse(&[0xe7, 0x02, 0xe5]).expect("well-formed script");
    assert_eq!(chunks, vec![Chunk::Command { op: vec![0xe7, 0x02], params: vec![] }]);
    let chunks2 = p.parse(&[0xed, 0x00, 0xAA, 0xBB, 0xe5]).expect("well-formed script");
    assert_eq!(chunks2, vec![Chunk::Command { op: vec![0xed, 0x00], params: vec![0xAA, 0xBB] }]);
}

#[test]
fn unknown_byte_is_an_error_with_its_offset() {
    let p = parser(&charset());
    // 0x03 is past the three charset entries and no rule covers it
    assert_eq!(p.parse(&[0x00, 0x03]), Err(MsgParseError::UnknownByte { at: 1 }));
    // 0xe7 followed by a byte that completes no pattern
    assert_eq!(p.parse(&[0xe7, 0x7f]), Err(MsgParseError::UnknownByte { at: 0 }));
}

#[test]
fn command_cut_short_is_truncated() {
    let p = parser(&charset());
    assert_eq!(p.parse(&[0xe6]), Err(MsgParseError::Truncated));
    assert_eq!(p.parse(&[0xed, 0x00, 0xAA]), Err(MsgParseError::Truncated));
}

#[test]
fn empty_script_parses_to_nothing() {
    let p = parser(&charset());
    let chunks = p.parse(&[]).expect("empty script");
    assert!(chunks.is_empty());
}

#[test]
fn charset_is_capped_by_the_limit_byte() {
    // an oversized charset: indexes at and above the cap are not mapped
    let mut big: Vec<String> = Vec::new();
    for i in 0..300 {
        big.push(format!("x{}", i));
    }
    let p = parser(&big);
    let chunks = p.parse(&[0x00, 0xe5]).expect("first entry maps");
    assert_eq!(chunks, vec![Chunk::Text { text: "x0".to_owned() }]);
    // 0xe4 itself is past the cap and no rule covers it
    assert_eq!(p.parse(&[0xe4]), Err(MsgParseError::UnknownByte { at: 0 }));
}

#[test]
fn custom_rules_match_in_insertion_order() {
    let stop = vec![0xffu8];
    let cmd = vec![0x10u8];
    let p = Parser::builder()
        .add_stop_rule(&stop)
        .add_command_rule(&cmd, 1)
        .build();
    let chunks = p.parse(&[0x10, 0x42, 0xff]).expect("well-formed");
    assert_eq!(chunks, vec![Chunk::Command { op: vec![0x10], params: vec![0x42] }]);
}
