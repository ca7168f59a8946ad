//! Re-synchronising frame extraction from a byte stream that may arrive in
//! arbitrary fragments.

use vstd::prelude::*;

use crate::packet::{checksum, checksum_bytes, frame_of, FRAME_PREAMBLE, MAX_BODY_LEN};

verus! {

/// Whether `f` is one whole valid frame: preamble, a length byte equal to the
/// bytes that follow the preamble, and a checksum trailer over the rest.
pub open spec fn frame_valid(f: Seq<u8>) -> bool {
    &&& f.len() >= 4
    &&& f[0] == FRAME_PREAMBLE
    &&& f[1] as int + 1 == f.len()
    &&& checksum_bytes(f.subrange(0, f.len() - 2)) == f.subrange(f.len() - 2, f.len() as int)
}

/// The frames found in `s`, in order, and the tail of `s` kept until more
/// bytes arrive. Bytes before a preamble are skipped; after a length or
/// checksum mismatch the scan resumes at the byte after the failed preamble.
pub open spec fn scan_frames(s: Seq<u8>) -> (Seq<Seq<u8>>, Seq<u8>)
    decreases s.len(),
{
    if s.len() == 0 {
        (Seq::empty(), Seq::empty())
    } else if s[0] != FRAME_PREAMBLE {
        scan_frames(s.drop_first())
    } else if s.len() < 2 {
        (Seq::empty(), s)
    } else if (s[1] as int) < 3 {
        scan_frames(s.drop_first())
    } else if s.len() < s[1] as int + 1 {
        (Seq::empty(), s)
    } else if frame_valid(s.subrange(0, s[1] as int + 1)) {
        let next = scan_frames(s.subrange(s[1] as int + 1, s.len() as int));
        (seq![s.subrange(0, s[1] as int + 1)] + next.0, next.1)
    } else {
        scan_frames(s.drop_first())
    }
}

/// The byte views of a list of frames.
pub open spec fn frames_view(v: Seq<Vec<u8>>) -> Seq<Seq<u8>> {
    v.map_values(|f: Vec<u8>| f@)
}

/// Splits `buf` into the valid frames it holds and the tail to keep.
pub fn split_frames(buf: &[u8]) -> (r: (Vec<Vec<u8>>, Vec<u8>))
    ensures
        frames_view(r.0@) == scan_frames(buf@).0,
        r.1@ == scan_frames(buf@).1,
{
    let len = buf.len();
    let mut frames: Vec<Vec<u8>> = Vec::new();
    let mut start: usize = 0;
    let mut stop = false;
    proof {
        let sub = buf@.subrange(0, len as int);
        assert(sub =~= buf@);
        assert(frames_view(frames@) + scan_frames(sub).0 =~= scan_frames(sub).0);
    }
    while start < len && !stop
        invariant
            len == buf@.len(),
            start <= len,
            scan_frames(buf@) == (
                frames_view(frames@) + scan_frames(buf@.subrange(start as int, len as int)).0,
                scan_frames(buf@.subrange(start as int, len as int)).1,
            ),
            stop ==> scan_frames(buf@.subrange(start as int, len as int)) == (
                Seq::<Seq<u8>>::empty(),
                buf@.subrange(start as int, len as int),
            ),
        decreases (len - start) * 2 + if stop { 0int } else { 1int },
    {
        let ghost sub = buf@.subrange(start as int, len as int);
        assert(sub.drop_first() =~= buf@.subrange(start + 1, len as int));
        if buf[start] != FRAME_PREAMBLE {
            start = start + 1;
        } else if len - start < 2 {
            stop = true;
        } else {
            let n: usize = buf[start + 1] as usize + 1;
            if n < 4 {
                start = start + 1;
            } else if len - start < n {
                stop = true;
            } else {
                let frame = vstd::slice::slice_subrange(buf, start, start + n);
                let cs = checksum(vstd::slice::slice_subrange(buf, start, start + n - 2));
                assert(frame@ =~= sub.subrange(0, n as int));
                assert(frame@.subrange(0, n - 2) =~= buf@.subrange(start as int, start + n - 2));
                let valid = cs[0] == buf[start + n - 2] && cs[1] == buf[start + n - 1];
                assert(valid <==> frame_valid(frame@)) by {
                    let t = frame@.subrange(n - 2, n as int);
                    if valid {
                        assert(cs@ =~= t);
                    }
                    if frame_valid(frame@) {
                        assert(cs@[0] == t[0] && cs@[1] == t[1]);
                    }
                }
                if valid {
                    let ghost old_frames = frames@;
                    frames.push(vstd::slice::slice_to_vec(frame));
                    assert(frames_view(frames@) =~= frames_view(old_frames) + seq![frame@]);
                    assert(sub.subrange(n as int, sub.len() as int) =~= buf@.subrange(
                        start + n,
                        len as int,
                    ));
                    start = start + n;
                } else {
                    start = start + 1;
                }
            }
        }
    }
    let rest = vstd::slice::slice_to_vec(vstd::slice::slice_subrange(buf, start, len));
    proof {
        if !stop {
            assert(buf@.subrange(start as int, len as int) =~= Seq::<u8>::empty());
        }
        assert(frames_view(frames@) + Seq::<Seq<u8>>::empty() =~= frames_view(frames@));
    }
    (frames, rest)
}

/// The body of a frame: what lies between the length byte and the trailer.
pub fn unwrap_packet(frame: &[u8]) -> (r: &[u8])
    requires
        frame@.len() >= 4,
    ensures
        r@ == frame@.subrange(2, frame@.len() - 2),
{
    vstd::slice::slice_subrange(frame, 2, frame.len() - 2)
}

/// Incremental frame extraction: bytes that do not yet form a decision are
/// held until the next fragment arrives.
pub struct PacketStream {
    pending: Vec<u8>,
}

impl View for PacketStream {
    type V = Seq<u8>;

    closed spec fn view(&self) -> Seq<u8> {
        self.pending@
    }
}

impl PacketStream {
    pub fn new() -> (r: PacketStream)
        ensures
            r@ == Seq::<u8>::empty(),
    {
        PacketStream { pending: Vec::new() }
    }

    /// Feeds one fragment and returns the frames it completes, in order.
    pub fn push(&mut self, chunk: &[u8]) -> (r: Vec<Vec<u8>>)
        ensures
            frames_view(r@) == scan_frames(old(self)@ + chunk@).0,
            final(self)@ == scan_frames(old(self)@ + chunk@).1,
    {
        let mut k: usize = 0;
        let ghost start = self.pending@;
        while k < chunk.len()
            invariant
                k <= chunk@.len(),
                self.pending@ == start + chunk@.subrange(0, k as int),
            decreases chunk@.len() - k,
        {
            self.pending.push(chunk[k]);
            k = k + 1;
            assert(self.pending@ =~= start + chunk@.subrange(0, k as int));
        }
        assert(chunk@.subrange(0, chunk@.len() as int) =~= chunk@);
        let (frames, rest) = split_frames(self.pending.as_slice());
        self.pending = rest;
        frames
    }
}

/// Fragmentation does not matter: scanning `a` and then the kept tail
/// followed by `b` finds the same frames, and keeps the same tail, as
/// scanning `a + b` at once.
pub proof fn lemma_scan_append(a: Seq<u8>, b: Seq<u8>)
    ensures
        scan_frames(a + b) == (
            scan_frames(a).0 + scan_frames(scan_frames(a).1 + b).0,
            scan_frames(scan_frames(a).1 + b).1,
        ),
    decreases a.len(),
{
    let s = a + b;
    if a.len() == 0 {
        assert(s =~= b);
        assert(Seq::<u8>::empty() + b =~= b);
        assert(Seq::<Seq<u8>>::empty() + scan_frames(b).0 =~= scan_frames(b).0);
    } else {
        assert(s[0] == a[0]);
        assert(s.drop_first() =~= a.drop_first() + b);
        if a[0] != FRAME_PREAMBLE {
            lemma_scan_append(a.drop_first(), b);
        } else if a.len() < 2 {
            assert(Seq::<Seq<u8>>::empty() + scan_frames(a + b).0 =~= scan_frames(a + b).0);
        } else {
            assert(s[1] == a[1]);
            let n = a[1] as int + 1;
            if (a[1] as int) < 3 {
                lemma_scan_append(a.drop_first(), b);
            } else if a.len() < n {
                assert(Seq::<Seq<u8>>::empty() + scan_frames(a + b).0 =~= scan_frames(a + b).0);
            } else {
                assert(s.subrange(0, n) =~= a.subrange(0, n));
                if frame_valid(a.subrange(0, n)) {
                    let ta = a.subrange(n, a.len() as int);
                    assert(s.subrange(n, s.len() as int) =~= ta + b);
                    lemma_scan_append(ta, b);
                    let f = seq![a.subrange(0, n)];
                    let nxt = scan_frames(scan_frames(ta).1 + b).0;
                    assert(f + (scan_frames(ta).0 + nxt) =~= (f + scan_frames(ta).0) + nxt);
                } else {
                    lemma_scan_append(a.drop_first(), b);
                }
            }
        }
    }
}

/// Every framed body is a valid frame, the stream finds exactly it, and
/// unwrapping it gives the body back.
pub proof fn lemma_frame_round_trip(body: Seq<u8>)
    requires
        body.len() <= MAX_BODY_LEN,
    ensures
        frame_valid(frame_of(body)),
        frame_of(body).subrange(2, frame_of(body).len() - 2) == body,
        scan_frames(frame_of(body)) == (seq![frame_of(body)], Seq::<u8>::empty()),
{
    let f = frame_of(body);
    let head = seq![FRAME_PREAMBLE, (body.len() + 3) as u8] + body;
    assert(f.subrange(0, f.len() - 2) =~= head);
    assert(f.subrange(f.len() - 2, f.len() as int) =~= checksum_bytes(head));
    assert(f.subrange(2, f.len() - 2) =~= body);
    assert(f[0] == FRAME_PREAMBLE);
    assert(f[1] as int == body.len() + 3);
    assert(f.len() == body.len() + 4);
    assert(f.subrange(0, f[1] as int + 1) =~= f);
    let t = f.subrange(f.len() as int, f.len() as int);
    assert(t =~= Seq::<u8>::empty());
    assert(scan_frames(t) == (Seq::<Seq<u8>>::empty(), Seq::<u8>::empty()));
    assert(seq![f] + Seq::<Seq<u8>>::empty() =~= seq![f]);
}

/// Bytes without a preamble in front of a frame are skipped: the frame is
/// found and scanning goes on after it.
pub proof fn lemma_resync(garbage: Seq<u8>, body: Seq<u8>, rest: Seq<u8>)
    requires
        body.len() <= MAX_BODY_LEN,
        forall|i: int| 0 <= i < garbage.len() ==> garbage[i] != FRAME_PREAMBLE,
    ensures
        scan_frames(garbage + frame_of(body) + rest) == (
            seq![frame_of(body)] + scan_frames(rest).0,
            scan_frames(rest).1,
        ),
    decreases garbage.len(),
{
    let f = frame_of(body);
    if garbage.len() == 0 {
        assert(garbage + f + rest =~= f + rest);
        lemma_frame_round_trip(body);
        lemma_scan_append(f, rest);
        assert(seq![f] + Seq::<Seq<u8>>::empty() =~= seq![f]);
        assert(Seq::<u8>::empty() + rest =~= rest);
    } else {
        let s = garbage + f + rest;
        assert(s[0] == garbage[0]);
        assert(s.drop_first() =~= garbage.drop_first() + f + rest);
        lemma_resync(garbage.drop_first(), body, rest);
    }
}

} // verus!
