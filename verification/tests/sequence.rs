use netgauze_bgp_pkt::error::ErrorKind;
use netgauze_bgp_pkt::error::Needed;
use netgauze_bgp_pkt::error::ParseFailure;
use netgauze_bgp_pkt::readers::be_u8;
use netgauze_bgp_pkt::readers::length_value_u8;
use netgauze_bgp_pkt::sequence::parse_till_empty;
use netgauze_bgp_pkt::sequence::SequenceFailure;
use netgauze_bgp_pkt::span::Span;

fn at(offset: usize, fragment: &[u8]) -> Span<'_> {
    Span::new_from_offset(offset, fragment).unwrap()
}

fn byte(buf: Span<'_>) -> Result<(Span<'_>, u8), ParseFailure<ErrorKind>> {
    be_u8(buf).map_err(ParseFailure::Error)
}

fn chunk(buf: Span<'_>) -> Result<(Span<'_>, Vec<u8>), ParseFailure<ErrorKind>> {
    length_value_u8(buf)
}

#[test]
fn test_till_empty_on_an_empty_section() {
    let decoded = parse_till_empty(
        at(4, &[]),
        |_: Span<'_>| -> Result<(Span<'_>, u8), ParseFailure<ErrorKind>> {
            panic!("nothing to decode")
        },
    );
    assert_eq!(decoded, Ok((at(4, &[]), vec![])));
}

#[test]
fn test_till_empty_keeps_wire_order_and_duplicates() {
    let wire = [3u8, 1, 3, 1, 2];
    assert_eq!(
        parse_till_empty(Span::new(&wire), byte),
        Ok((at(5, &[]), vec![3, 1, 3, 1, 2]))
    );
}

#[test]
fn test_till_empty_with_records_of_different_lengths() {
    let wire = [2u8, 10, 11, 0, 1, 12];
    assert_eq!(
        parse_till_empty(Span::new(&wire), chunk),
        Ok((at(6, &[]), vec![vec![10, 11], vec![], vec![12]]))
    );
}

#[test]
fn test_till_empty_fails_with_the_record_that_fails() {
    let wire = [1u8, 10, 3, 11];
    assert_eq!(
        parse_till_empty(Span::new(&wire), chunk),
        Err(SequenceFailure::Record(ParseFailure::Incomplete(
            Needed::Size(2)
        )))
    );
    let wire = [1u8, 2, 3, 4];
    let decoded = parse_till_empty(Span::new(&wire), |buf: Span<'_>| {
        let (rest, value) = byte(buf)?;
        if value == 3 {
            Err(ParseFailure::Failure(ErrorKind::Eof))
        } else {
            Ok((rest, value))
        }
    });
    assert_eq!(
        decoded,
        Err(SequenceFailure::Record(ParseFailure::Failure(
            ErrorKind::Eof
        )))
    );
}

#[test]
fn test_till_empty_refuses_a_record_that_consumes_nothing() {
    let wire = [1u8, 2, 3];
    let decoded = parse_till_empty(
        Span::new(&wire),
        |buf: Span<'_>| -> Result<(Span<'_>, u8), ParseFailure<ErrorKind>> { Ok((buf, 0)) },
    );
    assert_eq!(decoded, Err(SequenceFailure::NoProgress(Span::new(&wire))));
}

#[test]
fn test_till_empty_refuses_a_stalled_record_behind_others() {
    let wire = [1u8, 2, 0, 4];
    let decoded = parse_till_empty(Span::new(&wire), |buf: Span<'_>| {
        let (rest, value) = byte(buf)?;
        if value == 0 {
            Ok((buf, value))
        } else {
            Ok((rest, value))
        }
    });
    assert_eq!(
        decoded,
        Err(SequenceFailure::NoProgress(at(2, &wire[2..])))
    );
}

#[test]
fn test_till_empty_refuses_a_cursor_that_grows() {
    let wire = [1u8, 2, 3, 4];
    let whole = Span::new(&wire);
    let decoded = parse_till_empty(
        at(2, &wire[2..]),
        |_: Span<'_>| -> Result<(Span<'_>, u8), ParseFailure<ErrorKind>> { Ok((whole, 0)) },
    );
    assert_eq!(
        decoded,
        Err(SequenceFailure::NoProgress(at(2, &wire[2..])))
    );
}

#[test]
fn test_till_empty_calls_the_decoder_once_for_each_record() {
    let wire = [9u8, 8, 7];
    let calls = std::cell::Cell::new(0);
    let decoded = parse_till_empty(Span::new(&wire), |buf: Span<'_>| {
        calls.set(calls.get() + 1);
        byte(buf)
    });
    assert_eq!(decoded, Ok((at(3, &[]), vec![9, 8, 7])));
    assert_eq!(calls.get(), 3);
}
