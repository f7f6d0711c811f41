//! The operator's arguments, and the decisions on what the bus answered.

use osc_servo::cli::{
    discover_rates, enum_prefix, enum_verdict, hex, identity, ids_or_default, lost, on_off,
    parse_baud, parse_hex, parse_rate, parse_span, parse_u16, parse_uid, slot_image, slot_words,
    span_total, table_reads, ArgError, BaudArg, EnumVerdict, Presence, Span,
};
use osc_servo::regions::config::BaudRate;

#[test]
fn switches() {
    assert_eq!(on_off("on"), Ok(true));
    assert_eq!(on_off("off"), Ok(false));
    assert_eq!(on_off("ON"), Err(ArgError::NotASwitch));
    assert_eq!(on_off(""), Err(ArgError::NotASwitch));
}

#[test]
fn addresses_in_hex_or_decimal() {
    assert_eq!(parse_u16("0x1b"), Ok(0x1b));
    assert_eq!(parse_u16("512"), Ok(512));
    assert_eq!(parse_u16("65535"), Ok(65_535));
    assert_eq!(parse_u16("65536"), Err(ArgError::BadNumber));
    assert_eq!(parse_u16("0X10"), Err(ArgError::BadNumber));
    assert_eq!(parse_u16("1b"), Err(ArgError::BadNumber));
    assert_eq!(parse_u16(""), Err(ArgError::BadNumber));
    assert_eq!(parse_u16("+7"), Ok(7));
    assert_eq!(parse_u16("+"), Err(ArgError::BadNumber));
}

#[test]
fn rates() {
    assert_eq!(parse_rate("1000000"), Ok(BaudRate::B1000000));
    assert_eq!(parse_rate("9600"), Err(ArgError::UnsupportedBaud(9600)));
    assert_eq!(parse_rate("fast"), Err(ArgError::BadNumber));
    assert_eq!(parse_baud("auto"), Ok(BaudArg::Auto));
    assert_eq!(parse_baud("500000"), Ok(BaudArg::Fixed(BaudRate::B500000)));
    assert_eq!(parse_baud("Auto"), Err(ArgError::BadNumber));
    assert_eq!(discover_rates(BaudArg::Auto).len(), 4);
    assert_eq!(
        discover_rates(BaudArg::Fixed(BaudRate::B2000000)),
        [BaudRate::B2000000]
    );
}

#[test]
fn targets_default_to_one() {
    assert_eq!(ids_or_default(&vec![], 1), [1]);
    assert_eq!(ids_or_default(&vec![4, 2], 1), [4, 2]);
}

#[test]
fn byte_strings_round_trip() {
    let b: Vec<u8> = (0..=255).collect();
    let text = hex(&b);
    assert!(text.starts_with("00 01 02"));
    assert!(text.ends_with("fe ff"));
    assert_eq!(parse_hex(&text), Ok(b));
    assert_eq!(parse_hex(""), Ok(vec![]));
    assert_eq!(parse_hex(" DE ad\tBE ef "), Ok(vec![0xde, 0xad, 0xbe, 0xef]));
    assert_eq!(parse_hex("abc"), Err(ArgError::OddDigits));
    assert_eq!(parse_hex("zz"), Err(ArgError::BadDigit));
}

#[test]
fn uids_are_printed_backwards() {
    let wire: Vec<u8> = (1..=16).collect();
    let mut print = wire.clone();
    print.reverse();
    assert_eq!(parse_uid(&hex(&print)), Ok(wire));
    assert_eq!(parse_uid("0102"), Err(ArgError::UidLength(2)));
    assert_eq!(parse_uid("x1"), Err(ArgError::BadDigit));
}

#[test]
fn spans() {
    assert_eq!(
        parse_span("0x208:63"),
        Ok(Span {
            addr: 0x208,
            count: 63
        })
    );
    assert_eq!(parse_span("520"), Err(ArgError::NotASpan));
    assert_eq!(parse_span("1024:1"), Err(ArgError::SpanBounds));
    assert_eq!(parse_span("1:0"), Err(ArgError::SpanBounds));
    assert_eq!(parse_span("1:64"), Err(ArgError::SpanBounds));
    assert_eq!(parse_span("1:300"), Err(ArgError::BadNumber));
    assert_eq!(parse_span(":3"), Err(ArgError::BadNumber));
    assert_eq!(
        span_total(&vec![
            Span { addr: 0, count: 63 },
            Span { addr: 9, count: 2 }
        ]),
        65
    );
}

#[test]
fn slots_round_trip() {
    let image = slot_image(&vec![0x1234, 0xfffe], 4).unwrap();
    assert_eq!(image, [0x34, 0x12, 0xfe, 0xff, 0, 0, 0, 0]);
    assert_eq!(slot_words(&image), [0x1234, 0xfffe, 0, 0]);
    assert_eq!(slot_words(&[1, 2, 3]), [0x0201]);
    assert_eq!(slot_image(&vec![1; 5], 4), Err(ArgError::TooManySpans));
}

#[test]
fn prefixes_fill_a_uid() {
    let p = enum_prefix(9, &vec![0xff, 0x80]).unwrap();
    assert_eq!(p.len(), 16);
    assert_eq!(&p[..3], &[0xff, 0x80, 0]);
    assert_eq!(enum_prefix(0, &vec![]), Ok(vec![0; 16]));
    assert_eq!(enum_prefix(128, &vec![7; 16]), Ok(vec![7; 16]));
    assert_eq!(enum_prefix(129, &vec![7; 17]), Err(ArgError::BadPrefix));
    assert_eq!(enum_prefix(8, &vec![1, 2]), Err(ArgError::BadPrefix));
}

#[test]
fn enumeration_answers() {
    assert_eq!(enum_verdict(0, 0, false), EnumVerdict::Silent);
    assert_eq!(enum_verdict(1, 0, false), EnumVerdict::One);
    assert_eq!(enum_verdict(2, 0, false), EnumVerdict::Collision);
    assert_eq!(enum_verdict(1, 1, false), EnumVerdict::Collision);
    assert_eq!(enum_verdict(0, 0, true), EnumVerdict::Collision);
}

#[test]
fn identity_needs_four_bytes() {
    let id = identity(&[0x01, 0x01, 9, 3]).unwrap();
    assert_eq!((id.model, id.fw), (0x0101, 9));
    assert_eq!(identity(&[1, 2, 3]), Err(ArgError::ShortReply(3)));
}

#[test]
fn tables_are_walked_in_frames() {
    let r: Vec<(u16, u16)> = table_reads(600).iter().map(|x| (x.addr, x.len)).collect();
    assert_eq!(r, [(0, 252), (252, 252), (504, 96)]);
    let r: Vec<(u16, u16)> = table_reads(504).iter().map(|x| (x.addr, x.len)).collect();
    assert_eq!(r, [(0, 252), (252, 252)]);
    assert!(table_reads(0).is_empty());
    assert_eq!(table_reads(u16::MAX).len(), 261);
}

#[test]
fn the_lost_are_listed_in_order() {
    let p = |id, alive| Presence { id, alive };
    assert_eq!(lost(&vec![p(1, true), p(9, false), p(4, false)]), [9, 4]);
    assert!(lost(&vec![p(1, true)]).is_empty());
}
