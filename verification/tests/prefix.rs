use ipnet::Ipv4Net;
use netgauze_bgp_pkt::error::ErrorKind;
use netgauze_bgp_pkt::error::ParseFailure;
use netgauze_bgp_pkt::span::Span;
use netgauze_bgp_pkt::wire::deserializer::ipv4_network_from_wire;
use netgauze_bgp_pkt::wire::deserializer::Ipv4PrefixParsingError;
use netgauze_bgp_pkt::wire::deserializer::LocatedIpv4PrefixParsingError;

fn at(offset: usize, fragment: &[u8]) -> Span<'_> {
    Span::new_from_offset(offset, fragment).unwrap()
}

fn net(text: &str) -> Ipv4Net {
    text.parse().unwrap()
}

fn error_at<'a>(
    offset: usize,
    fragment: &'a [u8],
    error: Ipv4PrefixParsingError,
) -> Result<(Span<'a>, Ipv4Net), ParseFailure<LocatedIpv4PrefixParsingError<'a>>> {
    Err(ParseFailure::Error(LocatedIpv4PrefixParsingError::new(
        at(offset, fragment),
        error,
    )))
}

#[test]
fn test_prefix_of_whole_bytes() {
    let wire = [24u8, 192, 168, 1];
    assert_eq!(
        ipv4_network_from_wire(Span::new(&wire)),
        Ok((at(4, &[]), net("192.168.1.0/24")))
    );
    let wire = [8u8, 10];
    assert_eq!(
        ipv4_network_from_wire(Span::new(&wire)),
        Ok((at(2, &[]), net("10.0.0.0/8")))
    );
    let wire = [16u8, 172, 16];
    assert_eq!(
        ipv4_network_from_wire(Span::new(&wire)),
        Ok((at(3, &[]), net("172.16.0.0/16")))
    );
    let wire = [32u8, 10, 20, 30, 40];
    assert_eq!(
        ipv4_network_from_wire(Span::new(&wire)),
        Ok((at(5, &[]), net("10.20.30.40/32")))
    );
}

#[test]
fn test_prefix_of_no_bits() {
    let wire = [0u8, 99];
    assert_eq!(
        ipv4_network_from_wire(Span::new(&wire)),
        Ok((at(1, &wire[1..]), net("0.0.0.0/0")))
    );
    assert_eq!(
        ipv4_network_from_wire(Span::new(&[0])),
        Ok((at(1, &[]), net("0.0.0.0/0")))
    );
}

#[test]
fn test_prefix_that_ends_inside_a_byte() {
    let wire = [19u8, 10, 0, 32, 0xff];
    assert_eq!(
        ipv4_network_from_wire(Span::new(&wire)),
        Ok((at(4, &wire[4..]), net("10.0.32.0/19")))
    );
    let wire = [1u8, 128];
    assert_eq!(
        ipv4_network_from_wire(Span::new(&wire)),
        Ok((at(2, &[]), net("128.0.0.0/1")))
    );
    let wire = [9u8, 10, 128];
    assert_eq!(
        ipv4_network_from_wire(Span::new(&wire)),
        Ok((at(3, &[]), net("10.128.0.0/9")))
    );
    let wire = [17u8, 10, 1, 128];
    assert_eq!(
        ipv4_network_from_wire(Span::new(&wire)),
        Ok((at(4, &[]), net("10.1.128.0/17")))
    );
    let wire = [25u8, 10, 1, 2, 128];
    assert_eq!(
        ipv4_network_from_wire(Span::new(&wire)),
        Ok((at(5, &[]), net("10.1.2.128/25")))
    );
}

#[test]
fn test_prefix_keeps_the_bits_behind_its_length() {
    let wire = [4u8, 0xff];
    let (_, decoded) = ipv4_network_from_wire(Span::new(&wire)).unwrap();
    assert_eq!(decoded, net("255.0.0.0/4"));
    assert_eq!(decoded.prefix_len(), 4);
    assert_eq!(decoded.addr().octets(), [255, 0, 0, 0]);
}

#[test]
fn test_prefix_bytes_in_wire_order() {
    let wire = [32u8, 1, 2, 3, 4];
    let (_, decoded) = ipv4_network_from_wire(Span::new(&wire)).unwrap();
    assert_eq!(decoded.addr().octets(), [1, 2, 3, 4]);
    assert_eq!(decoded.prefix_len(), 32);
}

#[test]
fn test_every_valid_prefix_length() {
    let wire = [0u8, 1, 2, 3, 4, 5];
    for length in 0..=32u8 {
        let mut wire = wire;
        wire[0] = length;
        let count = (length as usize + 7) / 8;
        let (rest, decoded) = ipv4_network_from_wire(Span::new(&wire)).unwrap();
        assert_eq!(rest, at(1 + count, &wire[1 + count..]));
        assert_eq!(decoded.prefix_len(), length);
        let mut octets = [0u8; 4];
        octets[..count].copy_from_slice(&wire[1..1 + count]);
        assert_eq!(decoded.addr().octets(), octets);
    }
}

#[test]
fn test_prefix_length_beyond_an_address() {
    let wire = [33u8, 1, 2, 3, 4, 5];
    assert_eq!(
        ipv4_network_from_wire(Span::new(&wire)),
        error_at(0, &wire, Ipv4PrefixParsingError::InvalidIpv4PrefixLen(33))
    );
    let wire = [255u8, 1, 2, 3, 4];
    assert_eq!(
        ipv4_network_from_wire(at(9, &wire)),
        error_at(9, &wire, Ipv4PrefixParsingError::InvalidIpv4PrefixLen(255))
    );
    for length in 33..=255u8 {
        let wire = [length, 1, 2, 3, 4];
        assert_eq!(
            ipv4_network_from_wire(Span::new(&wire)),
            error_at(
                0,
                &wire,
                Ipv4PrefixParsingError::InvalidIpv4PrefixLen(length)
            )
        );
    }
}

#[test]
fn test_prefix_cut_short() {
    let wire = [24u8, 192, 168];
    assert_eq!(
        ipv4_network_from_wire(Span::new(&wire)),
        error_at(
            1,
            &wire[1..],
            Ipv4PrefixParsingError::NomError(ErrorKind::Eof)
        )
    );
    let wire = [1u8];
    assert_eq!(
        ipv4_network_from_wire(Span::new(&wire)),
        error_at(1, &[], Ipv4PrefixParsingError::NomError(ErrorKind::Eof))
    );
    let wire = [33u8, 1, 2, 3];
    assert_eq!(
        ipv4_network_from_wire(Span::new(&wire)),
        error_at(
            1,
            &wire[1..],
            Ipv4PrefixParsingError::NomError(ErrorKind::Eof)
        )
    );
}

#[test]
fn test_prefix_without_a_length() {
    assert_eq!(
        ipv4_network_from_wire(at(5, &[])),
        error_at(5, &[], Ipv4PrefixParsingError::NomError(ErrorKind::Eof))
    );
}
