use longshot::packet::{checksum, packetize, EcamDriverPacket, EcamPacket};
use longshot::command::{Request, Response, BrewRequest, MonitorRequestVersion, StateRequest};
use longshot::packet_stream::{split_frames, unwrap_packet, PacketStream};

pub fn from_hex_str(s: &str) -> Vec<u8> {
    hex::decode(s.replace(' ', "")).unwrap()
}

#[test]
pub fn test_checksum() {
    assert_eq!(
        checksum(&from_hex_str("0d 0f 83 f0 02 01 01 00 67 02 02 00 00 06")),
        [0x77, 0xff]
    );
    assert_eq!(
        checksum(&from_hex_str("0d 0d 83 f0 05 01 01 00 78 00 00 06")),
        [0xc4, 0x7e]
    );
    assert_eq!(checksum(&from_hex_str("0d 07 84 0f 02 01")), [0x55, 0x12]);
}

#[test]
pub fn test_packetize() {
    assert_eq!(
        packetize(&from_hex_str("83 f0 02 01 01 00 67 02 02 00 00 06")),
        from_hex_str("0d 0f 83 f0 02 01 01 00 67 02 02 00 00 06 77 ff")
    );
    assert_eq!(
        packetize(&from_hex_str("83 f0 05 01 01 00 78 00 00 06")),
        from_hex_str("0d 0d 83 f0 05 01 01 00 78 00 00 06 c4 7e")
    );
    assert_eq!(
        packetize(&from_hex_str("84 0f 02 01")),
        from_hex_str("0d 07 84 0f 02 01 55 12")
    );
}

#[test]
fn checksum_of_empty_input_is_the_seed() {
    assert_eq!(checksum(&[]), [0x1d, 0x0f]);
}

#[test]
fn packetize_empty_and_largest_bodies() {
    let empty = packetize(&[]);
    assert_eq!(empty.len(), 4);
    assert_eq!(&empty[..2], &[0x0d, 0x03]);
    assert_eq!(&empty[2..], &checksum(&[0x0d, 0x03]));
    let big = vec![0xaau8; 252];
    let framed = packetize(&big);
    assert_eq!(framed.len(), 256);
    assert_eq!(framed[1], 255);
    assert_eq!(&framed[2..254], &big[..]);
}

#[test]
fn fixed_encodings_frame_as_documented() {
    let cases: Vec<(Vec<u8>, &str)> = vec![
        (Request::Brew(BrewRequest::Coffee()).encode(), "83 f0 02 01 01 00 67 02 02 00 00 06"),
        (Request::Monitor(MonitorRequestVersion::V0).encode(), "60 0f"),
        (Request::Monitor(MonitorRequestVersion::V1).encode(), "70 0f"),
        (Request::Monitor(MonitorRequestVersion::V2).encode(), "75 0f"),
        (Request::State(StateRequest::TurnOn).encode(), "84 0f 02 01"),
    ];
    for (body, hex) in cases {
        assert_eq!(body, from_hex_str(hex));
        let frame = packetize(&body);
        assert_eq!(frame[0], 0x0d);
        assert_eq!(frame[1] as usize, body.len() + 3);
        let n = frame.len();
        assert_eq!(&frame[n - 2..], &checksum(&frame[..n - 2]));
        assert_eq!(unwrap_packet(&frame), &body[..]);
    }
}

#[test]
fn brew_coffee_frame_is_exact() {
    let body = Request::Brew(BrewRequest::Coffee()).encode();
    let packet = EcamPacket::from_represenation(Request::Brew(BrewRequest::Coffee()));
    assert_eq!(packet.bytes, body);
    assert_eq!(
        packet.encode().packetize(),
        from_hex_str("0d 0f 83 f0 02 01 01 00 67 02 02 00 00 06 77 ff")
    );
}

#[test]
fn raw_request_is_verbatim() {
    let bytes = vec![1u8, 2, 3, 0x0d];
    assert_eq!(Request::Raw(bytes.clone()).encode(), bytes);
}

#[test]
fn stringify_is_lower_case_hex() {
    assert_eq!(longshot::packet::stringify(&[0x0d, 0xaf, 0x00, 0x9b]), "0daf009b");
    assert_eq!(longshot::packet::stringify(&[]), "");
    let p = EcamDriverPacket::from_vec(vec![0x75, 0x0f]);
    assert_eq!(p.stringify(), "750f");
    assert_eq!(EcamDriverPacket::from_slice(&[0xff]).stringify(), "ff");
}

#[test]
fn driver_packet_packetize_matches_function() {
    let p = EcamDriverPacket::from_vec(from_hex_str("84 0f 02 01"));
    assert_eq!(p.packetize(), from_hex_str("0d 07 84 0f 02 01 55 12"));
    assert_eq!(p.bytes(), &from_hex_str("84 0f 02 01")[..]);
}

#[test]
fn packet_from_bytes_decodes_or_declines() {
    let p: EcamPacket<Response> = EcamPacket::from_bytes(&[0x10, 0x20]);
    assert_eq!(p.representation, Some(Response::Raw(vec![0x10, 0x20])));
    let short: EcamPacket<Response> = EcamPacket::from_bytes(&[0x75, 0x0f, 0, 0]);
    assert_eq!(short.representation, None);
    assert_eq!(short.bytes, vec![0x75, 0x0f, 0, 0]);
    let empty: EcamPacket<Response> = EcamPacket::from_bytes(&[]);
    assert_eq!(empty.representation, None);
    let raw: EcamPacket<Response> = EcamPacket::from_undecodeable_bytes(&[0x75, 1]);
    assert_eq!(raw.representation, None);
    assert_eq!(raw.bytes, vec![0x75, 1]);
}

#[test]
fn resync_after_garbage_finds_three_frames() {
    let frames = [
        "0d 0f 83 f0 02 01 01 00 67 02 02 00 00 06 77 ff",
        "0d 0d 83 f0 05 01 01 00 78 00 00 06 c4 7e",
        "0d 07 84 0f 02 01 55 12",
    ];
    let mut stream = Vec::new();
    for f in frames.iter() {
        stream.extend_from_slice(&[0x01, 0xfe, 0x42]);
        stream.extend_from_slice(&from_hex_str(f));
    }
    let (found, rest) = split_frames(&stream);
    assert_eq!(found.len(), 3);
    for (got, want) in found.iter().zip(frames.iter()) {
        assert_eq!(got, &from_hex_str(want));
    }
    assert!(rest.is_empty());
}

#[test]
fn corrupted_frame_is_dropped_and_next_found() {
    let mut bad = from_hex_str("0d 07 84 0f 02 01 55 12");
    bad[7] = 0x13;
    let good = from_hex_str("0d 07 84 0f 02 01 55 12");
    let mut stream = bad.clone();
    stream.extend_from_slice(&good);
    let (found, rest) = split_frames(&stream);
    assert_eq!(found, vec![good]);
    assert!(rest.is_empty());
}

#[test]
fn fragments_give_the_same_frames() {
    let mut whole = Vec::new();
    whole.extend_from_slice(&from_hex_str("00 0d 0f 83 f0 02 01 01 00 67 02 02 00 00 06 77 ff"));
    whole.extend_from_slice(&from_hex_str("0d 07 84 0f 02 01 55 12 0d"));
    let (all_at_once, tail) = split_frames(&whole);
    let mut s = PacketStream::new();
    let mut found = Vec::new();
    for chunk in whole.chunks(3) {
        found.extend(s.push(chunk));
    }
    assert_eq!(found, all_at_once);
    assert_eq!(found.len(), 2);
    assert_eq!(tail, vec![0x0d]);
    // the held preamble completes with the next fragment
    let more = s.push(&from_hex_str("07 84 0f 02 01 55 12"));
    assert_eq!(more, vec![from_hex_str("0d 07 84 0f 02 01 55 12")]);
}

#[test]
fn short_length_byte_resyncs() {
    let (found, rest) = split_frames(&from_hex_str("0d 02 0d 07 84 0f 02 01 55 12"));
    assert_eq!(found, vec![from_hex_str("0d 07 84 0f 02 01 55 12")]);
    assert!(rest.is_empty());
}
