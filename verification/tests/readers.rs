use netgauze_bgp_pkt::error::ErrorKind;
use netgauze_bgp_pkt::error::Needed;
use netgauze_bgp_pkt::error::ParseFailure;
use netgauze_bgp_pkt::readers::be_u16;
use netgauze_bgp_pkt::readers::be_u32;
use netgauze_bgp_pkt::readers::be_u8;
use netgauze_bgp_pkt::readers::length_data_u16;
use netgauze_bgp_pkt::readers::length_value_u8;
use netgauze_bgp_pkt::readers::take;
use netgauze_bgp_pkt::span::Span;

fn at(offset: usize, fragment: &[u8]) -> Span<'_> {
    Span::new_from_offset(offset, fragment).unwrap()
}

#[test]
fn test_span_new() {
    let wire = [1u8, 2, 3];
    let span = Span::new(&wire);
    assert_eq!(span.location_offset(), 0);
    assert_eq!(span.fragment(), &wire[..]);
    assert_eq!(span.len(), 3);
    assert!(!span.is_empty());
    assert!(Span::new(&[]).is_empty());
}

#[test]
fn test_span_new_from_offset() {
    let wire = [1u8, 2, 3];
    let span = Span::new_from_offset(7, &wire).unwrap();
    assert_eq!(span.location_offset(), 7);
    assert_eq!(span.fragment(), &wire[..]);
    assert_eq!(Span::new_from_offset(0, &wire), Some(Span::new(&wire)));
    assert!(Span::new_from_offset(usize::MAX - 3, &wire).is_some());
    assert_eq!(Span::new_from_offset(usize::MAX - 2, &wire), None);
    assert_eq!(Span::new_from_offset(usize::MAX, &wire), None);
    assert!(Span::new_from_offset(usize::MAX, &[]).is_some());
}

#[test]
fn test_span_take_split() {
    let wire = [1u8, 2, 3, 4, 5];
    let (rest, head) = Span::new(&wire).take_split(2);
    assert_eq!(head, at(0, &wire[..2]));
    assert_eq!(rest, at(2, &wire[2..]));
    let (rest, head) = rest.take_split(3);
    assert_eq!(head, at(2, &wire[2..]));
    assert_eq!(rest, at(5, &[]));
    let (rest, head) = rest.take_split(0);
    assert_eq!(head, at(5, &[]));
    assert_eq!(rest, at(5, &[]));
}

#[test]
fn test_spans_differ_by_offset() {
    let wire = [1u8, 2, 3];
    assert_ne!(at(0, &wire), at(1, &wire));
    assert_ne!(at(0, &wire[..2]), at(0, &wire));
}

#[test]
fn test_be_u8() {
    let wire = [0x12u8, 0x34];
    assert_eq!(be_u8(Span::new(&wire)), Ok((at(1, &wire[1..]), 0x12)));
    assert_eq!(be_u8(at(1, &wire[1..])), Ok((at(2, &[]), 0x34)));
    assert_eq!(be_u8(at(2, &[])), Err(ErrorKind::Eof));
}

#[test]
fn test_be_u16() {
    let wire = [0x12u8, 0x34, 0x56];
    assert_eq!(be_u16(Span::new(&wire)), Ok((at(2, &wire[2..]), 0x1234)));
    assert_eq!(be_u16(Span::new(&[0, 1])), Ok((at(2, &[]), 1)));
    assert_eq!(be_u16(Span::new(&[1, 0])), Ok((at(2, &[]), 256)));
    assert_eq!(be_u16(Span::new(&[255, 255])), Ok((at(2, &[]), 65535)));
    assert_eq!(be_u16(Span::new(&[0x12])), Err(ErrorKind::Eof));
    assert_eq!(be_u16(Span::new(&[])), Err(ErrorKind::Eof));
}

#[test]
fn test_be_u32() {
    let wire = [0x12u8, 0x34, 0x56, 0x78, 0x9a];
    assert_eq!(
        be_u32(Span::new(&wire)),
        Ok((at(4, &wire[4..]), 0x12345678))
    );
    assert_eq!(be_u32(Span::new(&[0, 0, 0, 1])), Ok((at(4, &[]), 1)));
    assert_eq!(
        be_u32(Span::new(&[1, 0, 0, 0])),
        Ok((at(4, &[]), 16777216))
    );
    assert_eq!(
        be_u32(Span::new(&[255, 255, 255, 255])),
        Ok((at(4, &[]), 4294967295))
    );
    assert_eq!(be_u32(Span::new(&[1, 2, 3])), Err(ErrorKind::Eof));
    assert_eq!(be_u32(Span::new(&[])), Err(ErrorKind::Eof));
}

#[test]
fn test_take() {
    let wire = [1u8, 2, 3];
    assert_eq!(
        take(Span::new(&wire), 2),
        Ok((at(2, &wire[2..]), at(0, &wire[..2])))
    );
    assert_eq!(take(Span::new(&wire), 0), Ok((at(0, &wire), at(0, &[]))));
    assert_eq!(take(Span::new(&wire), 3), Ok((at(3, &[]), at(0, &wire))));
    assert_eq!(take(Span::new(&wire), 4), Err(ErrorKind::Eof));
}

#[test]
fn test_length_data_u16() {
    let wire = [0u8, 3, 10, 11, 12, 13];
    assert_eq!(
        length_data_u16(Span::new(&wire)),
        Ok((at(5, &wire[5..]), at(2, &wire[2..5])))
    );
    assert_eq!(
        length_data_u16(Span::new(&[0, 0])),
        Ok((at(2, &[]), at(2, &[])))
    );
    let mut long = vec![1u8, 0];
    long.extend([7u8; 256]);
    assert_eq!(
        length_data_u16(Span::new(&long)),
        Ok((at(258, &[]), at(2, &long[2..])))
    );
}

#[test]
fn test_length_data_u16_failures() {
    assert_eq!(
        length_data_u16(Span::new(&[0, 3, 10])),
        Err(ParseFailure::Incomplete(Needed::Size(2)))
    );
    assert_eq!(
        length_data_u16(Span::new(&[255, 255])),
        Err(ParseFailure::Incomplete(Needed::Size(65535)))
    );
    assert_eq!(
        length_data_u16(Span::new(&[0])),
        Err(ParseFailure::Error(ErrorKind::Eof))
    );
    assert_eq!(
        length_data_u16(Span::new(&[])),
        Err(ParseFailure::Error(ErrorKind::Eof))
    );
}

#[test]
fn test_length_value_u8() {
    let wire = [3u8, 10, 11, 12, 13];
    assert_eq!(
        length_value_u8(Span::new(&wire)),
        Ok((at(4, &wire[4..]), vec![10, 11, 12]))
    );
    assert_eq!(length_value_u8(Span::new(&[0])), Ok((at(1, &[]), vec![])));
}

#[test]
fn test_length_value_u8_failures() {
    assert_eq!(
        length_value_u8(Span::new(&[3, 10])),
        Err(ParseFailure::Incomplete(Needed::Size(2)))
    );
    assert_eq!(
        length_value_u8(Span::new(&[255])),
        Err(ParseFailure::Incomplete(Needed::Size(255)))
    );
    assert_eq!(
        length_value_u8(Span::new(&[])),
        Err(ParseFailure::Error(ErrorKind::Eof))
    );
}
