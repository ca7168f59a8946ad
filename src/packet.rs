//! Wire framing of driver packets: `0x0d, len, body.., csum_hi, csum_lo`.

use vstd::prelude::*;

verus! {

/// Initial value of the rolling checksum.
pub const CHECKSUM_SEED: u16 = 7439;

/// One step of the rolling checksum over a single input byte.
pub open spec fn checksum_step(i: u16, x: u8) -> u16 {
    let a: u16 = ((i << 8u16) | (i >> 8u16)) ^ (x as u16);
    let b: u16 = a ^ ((a & 0xffu16) >> 4u16);
    let c: u16 = b ^ (b << 12u16);
    c ^ ((c & 0xffu16) << 5u16)
}

/// The checksum state after feeding every byte of `s`, in order.
pub open spec fn checksum_state(s: Seq<u8>) -> u16
    decreases s.len(),
{
    if s.len() == 0 {
        CHECKSUM_SEED
    } else {
        checksum_step(checksum_state(s.drop_last()), s.last())
    }
}

/// The two trailer bytes of `s`, high byte first.
pub open spec fn checksum_bytes(s: Seq<u8>) -> Seq<u8> {
    let i = checksum_state(s);
    seq![(i >> 8u16) as u8, (i & 0xffu16) as u8]
}

/// Computes the 16-bit checksum of `buffer`, big-endian.
pub fn checksum(buffer: &[u8]) -> (r: [u8; 2])
    ensures
        r@ == checksum_bytes(buffer@),
{
    let mut i: u16 = CHECKSUM_SEED;
    let mut k: usize = 0;
    while k < buffer.len()
        invariant
            k <= buffer@.len(),
            i == checksum_state(buffer@.subrange(0, k as int)),
        decreases buffer@.len() - k,
    {
        let x = buffer[k];
        let i3: u16 = ((i << 8u16) | (i >> 8u16)) ^ (x as u16);
        let i4: u16 = i3 ^ ((i3 & 255u16) >> 4u16);
        let i5: u16 = i4 ^ (i4 << 12u16);
        i = i5 ^ ((i5 & 255u16) << 5u16);
        proof {
            let pre = buffer@.subrange(0, k as int);
            let next = buffer@.subrange(0, k + 1);
            assert(next.drop_last() =~= pre);
        }
        k = k + 1;
    }
    proof {
        assert(buffer@.subrange(0, buffer@.len() as int) =~= buffer@);
    }
    let r = [(i >> 8u16) as u8, (i & 0xffu16) as u8];
    assert(r@ =~= checksum_bytes(buffer@));
    r
}


/// Preamble byte that opens every frame.
pub const FRAME_PREAMBLE: u8 = 0x0d;

/// Largest body that fits a frame: the length byte counts the body plus three.
pub const MAX_BODY_LEN: usize = 252;

/// The frame around `body`: preamble, length, body, then the checksum of
/// everything before it.
pub open spec fn frame_of(body: Seq<u8>) -> Seq<u8> {
    let head = seq![FRAME_PREAMBLE, (body.len() + 3) as u8] + body;
    head + checksum_bytes(head)
}

/// Wraps `buffer` in a frame.
pub fn packetize(buffer: &[u8]) -> (r: Vec<u8>)
    requires
        buffer@.len() <= MAX_BODY_LEN,
    ensures
        r@ == frame_of(buffer@),
{
    let len: u8 = (buffer.len() + 3) as u8;
    let mut out: Vec<u8> = vec![FRAME_PREAMBLE, len];
    let mut k: usize = 0;
    while k < buffer.len()
        invariant
            k <= buffer@.len(),
            out@ == seq![FRAME_PREAMBLE, len] + buffer@.subrange(0, k as int),
        decreases buffer@.len() - k,
    {
        out.push(buffer[k]);
        k = k + 1;
        assert(out@ =~= seq![FRAME_PREAMBLE, len] + buffer@.subrange(0, k as int));
    }
    assert(buffer@.subrange(0, buffer@.len() as int) =~= buffer@);
    let cs = checksum(out.as_slice());
    let ghost head = out@;
    out.push(cs[0]);
    out.push(cs[1]);
    assert(out@ =~= head + checksum_bytes(head));
    out
}

/// Lower-case hex digit of a value below sixteen.
pub open spec fn hex_digit(n: u8) -> char {
    if n < 10 {
        ((n + 48) as u8) as char
    } else {
        ((n + 87) as u8) as char
    }
}

/// Two lower-case hex digits per byte, in order.
pub open spec fn hex_of(b: Seq<u8>) -> Seq<char>
    decreases b.len(),
{
    if b.len() == 0 {
        Seq::empty()
    } else {
        hex_of(b.drop_last()) + seq![hex_digit(b.last() / 16), hex_digit(b.last() % 16)]
    }
}

/// Relies on String::push: appends one character at the end.
#[verifier::external_body]
fn push_char(s: &mut String, c: char)
    ensures
        final(s)@ == old(s)@.push(c),
{
    s.push(c)
}

fn hex_char(n: u8) -> (r: char)
    requires
        n < 16,
    ensures
        r == hex_digit(n),
{
    if n < 10 {
        (n + 48) as char
    } else {
        (n + 87) as char
    }
}

/// Renders `buffer` as lower-case hex, two digits per byte.
pub fn stringify(buffer: &[u8]) -> (r: String)
    ensures
        r@ == hex_of(buffer@),
{
    let mut out = String::new();
    let mut k: usize = 0;
    while k < buffer.len()
        invariant
            k <= buffer@.len(),
            out@ == hex_of(buffer@.subrange(0, k as int)),
        decreases buffer@.len() - k,
    {
        let b = buffer[k];
        push_char(&mut out, hex_char(b / 16));
        push_char(&mut out, hex_char(b % 16));
        proof {
            let next = buffer@.subrange(0, k + 1);
            assert(next.drop_last() =~= buffer@.subrange(0, k as int));
            assert(next.last() == b);
        }
        k = k + 1;
        assert(out@ =~= hex_of(buffer@.subrange(0, k as int)));
    }
    assert(buffer@.subrange(0, buffer@.len() as int) =~= buffer@);
    out
}

/// One protocol message body, without its framing bytes.
#[derive(Clone, Debug, Eq, PartialEq)]
pub struct EcamDriverPacket {
    pub(crate) bytes: Vec<u8>,
}

impl View for EcamDriverPacket {
    type V = Seq<u8>;

    closed spec fn view(&self) -> Seq<u8> {
        self.bytes@
    }
}

impl EcamDriverPacket {
    pub fn from_slice(bytes: &[u8]) -> (r: Self)
        ensures
            r@ == bytes@,
    {
        EcamDriverPacket { bytes: vstd::slice::slice_to_vec(bytes) }
    }

    pub fn from_vec(bytes: Vec<u8>) -> (r: Self)
        ensures
            r@ == bytes@,
    {
        EcamDriverPacket { bytes }
    }

    /// The body bytes.
    pub fn bytes(&self) -> (r: &[u8])
        ensures
            r@ == self@,
    {
        self.bytes.as_slice()
    }

    pub fn stringify(&self) -> (r: String)
        ensures
            r@ == hex_of(self@),
    {
        stringify(self.bytes.as_slice())
    }

    pub fn packetize(&self) -> (r: Vec<u8>)
        requires
            self@.len() <= MAX_BODY_LEN,
        ensures
            r@ == frame_of(self@),
    {
        packetize(self.bytes.as_slice())
    }
}

/// A type that a body may decode to; decoding may decline a body.
pub trait PartialDecode: Sized {
    /// Whether `input` decodes to some value.
    spec fn spec_decodable(input: Seq<u8>) -> bool;

    /// Whether `value` is what `input` decodes to.
    spec fn spec_decodes_to(input: Seq<u8>, value: Self) -> bool;

    fn partial_decode(input: &[u8]) -> (r: Option<Self>)
        ensures
            r is Some <==> Self::spec_decodable(input@),
            r is Some ==> Self::spec_decodes_to(input@, r->0),
    ;
}

/// A type with a body encoding.
pub trait PartialEncode: Sized {
    spec fn spec_encodable(&self) -> bool;

    spec fn spec_encoding(&self) -> Seq<u8>;

    fn encode(&self) -> (r: Vec<u8>)
        requires
            self.spec_encodable(),
        ensures
            r@ == self.spec_encoding(),
    ;
}

/// A packet whose body may carry its decoded form, so that it is parsed once.
#[derive(Clone, Debug, Eq, PartialEq)]
pub struct EcamPacket<T> {
    pub representation: Option<T>,
    pub bytes: Vec<u8>,
}

impl<T> EcamPacket<T> {
    pub fn from_undecodeable_bytes(input: &[u8]) -> (r: EcamPacket<T>)
        ensures
            r.bytes@ == input@,
            r.representation is None,
    {
        EcamPacket { representation: None, bytes: vstd::slice::slice_to_vec(input) }
    }
}

impl<T: PartialDecode> EcamPacket<T> {
    pub fn from_bytes(input: &[u8]) -> (r: EcamPacket<T>)
        ensures
            r.bytes@ == input@,
            r.representation is Some <==> T::spec_decodable(input@),
            r.representation is Some ==> T::spec_decodes_to(input@, r.representation->0),
    {
        let bytes = vstd::slice::slice_to_vec(input);
        let representation = T::partial_decode(input);
        EcamPacket { representation, bytes }
    }
}

impl<T: PartialEncode> EcamPacket<T> {
    pub fn from_represenation(representation: T) -> (r: EcamPacket<T>)
        requires
            representation.spec_encodable(),
        ensures
            r.bytes@ == representation.spec_encoding(),
            r.representation == Some(representation),
    {
        let bytes = representation.encode();
        EcamPacket { representation: Some(representation), bytes }
    }

    /// The body bytes as a driver packet.
    pub fn encode(&self) -> (r: EcamDriverPacket)
        ensures
            r@ == self.bytes@,
    {
        EcamDriverPacket::from_slice(self.bytes.as_slice())
    }
}

} // verus!
