//! Byte-stuffed framing: each payload travels as its COBS encoding followed by
//! one `0x00` delimiter, so a receiver can find frame boundaries in an
//! arbitrary byte stream and resynchronise after corruption.
use vstd::prelude::*;

verus! {

/// Encoded bytes that the decoder buffers for one frame before it gives the frame up.
pub const MAX_FRAME_LEN: usize = 512;

/// Longest payload whose encoded frame is sure to fit the decoder's buffer.
pub const MAX_PAYLOAD_LEN: usize = 500;

/// The frame delimiter.
pub const DELIMITER: u8 = 0;

pub open spec fn zero_free(s: Seq<u8>) -> bool {
    forall|i: int| 0 <= i < s.len() ==> s[i] != 0
}

/// Number of leading non-zero bytes of `s`.
pub open spec fn run_len(s: Seq<u8>) -> nat
    decreases s.len(),
{
    if s.len() == 0 || s[0] == 0 {
        0
    } else {
        1 + run_len(s.subrange(1, s.len() as int))
    }
}

/// COBS groups for `s`: a code byte `k` is followed by `k - 1` data bytes and
/// stands for a zero after them, except the code `255`, which is followed by
/// 254 data bytes and stands for no zero. A run of 254 data bytes that ends
/// the input gets no trailing group.
pub open spec fn stuff(s: Seq<u8>) -> Seq<u8>
    decreases s.len(),
{
    if s.len() >= 254 && run_len(s) >= 254 {
        if s.len() == 254 {
            seq![255u8] + s
        } else {
            seq![255u8] + s.subrange(0, 254) + stuff(s.subrange(254, s.len() as int))
        }
    } else if run_len(s) < s.len() {
        let n = run_len(s) as int;
        seq![(n + 1) as u8] + s.subrange(0, n) + stuff(s.subrange(n + 1, s.len() as int))
    } else {
        seq![(s.len() + 1) as u8] + s
    }
}

/// What `cobs::encode_vec` returns: nothing for an empty input, else the groups of `stuff`.
pub open spec fn cobs_encoding(s: Seq<u8>) -> Seq<u8> {
    if s.len() == 0 {
        Seq::empty()
    } else {
        stuff(s)
    }
}

/// What `cobs::decode_vec` gives for a block that holds no zero byte: the
/// inverse of `stuff`, or `None` where a group runs past the end of the block.
pub open spec fn cobs_decoding(b: Seq<u8>) -> Option<Seq<u8>>
    decreases b.len(),
{
    if b.len() == 0 || b[0] == 0 {
        None
    } else {
        let c = b[0] as int;
        if b.len() < c {
            None
        } else if b.len() == c {
            Some(b.subrange(1, c))
        } else {
            match cobs_decoding(b.subrange(c, b.len() as int)) {
                Some(rest) => Some(
                    b.subrange(1, c) + (if c == 255 {
                        Seq::<u8>::empty()
                    } else {
                        seq![0u8]
                    }) + rest,
                ),
                None => None,
            }
        }
    }
}

/// The bytes that carry `payload` on the wire.
pub open spec fn frame_bytes(payload: Seq<u8>) -> Seq<u8> {
    cobs_encoding(payload).push(DELIMITER)
}

/// Relies on `cobs::encode_vec`: COBS-stuffs the whole input into a new vector.
#[verifier::external_body]
fn cobs_encode(source: &[u8]) -> (r: Vec<u8>)
    requires
        source@.len() <= MAX_PAYLOAD_LEN,
    ensures
        r@ == cobs_encoding(source@),
{
    cobs::encode_vec(source)
}

/// Relies on `cobs::decode_vec`: undoes the stuffing of one zero-free block,
/// or fails on a malformed block.
#[verifier::external_body]
fn cobs_decode(block: &[u8]) -> (r: Option<Vec<u8>>)
    requires
        zero_free(block@),
    ensures
        match r {
            Some(v) => cobs_decoding(block@) == Some(v@),
            None => cobs_decoding(block@) is None,
        },
{
    cobs::decode_vec(block).ok()
}

pub proof fn lemma_run_len(s: Seq<u8>)
    ensures
        run_len(s) <= s.len(),
        forall|i: int| 0 <= i < run_len(s) ==> s[i] != 0,
        run_len(s) < s.len() ==> s[run_len(s) as int] == 0,
    decreases s.len(),
{
    if s.len() > 0 && s[0] != 0 {
        let t = s.subrange(1, s.len() as int);
        lemma_run_len(t);
        assert forall|i: int| 0 <= i < run_len(s) implies s[i] != 0 by {
            if i > 0 {
                assert(s[i] == t[i - 1]);
            }
        }
        if run_len(s) < s.len() {
            assert(s[run_len(s) as int] == t[run_len(t) as int]);
        }
    }
}

/// Stuffed bytes are never the delimiter, and there is at least one of them.
pub proof fn lemma_stuff_zero_free(s: Seq<u8>)
    ensures
        zero_free(stuff(s)),
        stuff(s).len() >= 1,
    decreases s.len(),
{
    lemma_run_len(s);
    if s.len() >= 254 && run_len(s) >= 254 {
        if s.len() > 254 {
            lemma_stuff_zero_free(s.subrange(254, s.len() as int));
        }
    } else if run_len(s) < s.len() {
        let n = run_len(s) as int;
        lemma_stuff_zero_free(s.subrange(n + 1, s.len() as int));
    }
    let r = stuff(s);
    assert forall|i: int| 0 <= i < r.len() implies r[i] != 0 by {
        if s.len() >= 254 && run_len(s) >= 254 {
            if i > 254 {
                assert(r[i] == stuff(s.subrange(254, s.len() as int))[i - 255]);
            } else if i >= 1 {
                assert(r[i] == s[i - 1]);
            }
        } else if run_len(s) < s.len() {
            let n = run_len(s) as int;
            if i > n {
                assert(r[i] == stuff(s.subrange(n + 1, s.len() as int))[i - n - 1]);
            } else if i >= 1 {
                assert(r[i] == s[i - 1]);
            }
        } else if i >= 1 {
            assert(r[i] == s[i - 1]);
        }
    }
}

/// Stuffing adds at most one byte, plus one for every 254 bytes.
pub proof fn lemma_stuff_len(s: Seq<u8>)
    ensures
        stuff(s).len() <= s.len() + 1 + s.len() / 254,
    decreases s.len(),
{
    lemma_run_len(s);
    if s.len() >= 254 && run_len(s) >= 254 {
        if s.len() > 254 {
            let t = s.subrange(254, s.len() as int);
            lemma_stuff_len(t);
            assert(t.len() / 254 + 1 == s.len() / 254) by {
                assert(t.len() == s.len() - 254);
            }
        }
    } else if run_len(s) < s.len() {
        let n = run_len(s) as int;
        let t = s.subrange(n + 1, s.len() as int);
        lemma_stuff_len(t);
        assert(t.len() / 254 <= s.len() / 254) by {
            vstd::arithmetic::div_mod::lemma_div_is_ordered(t.len() as int, s.len() as int, 254);
        }
    }
}

/// Decoding a block undoes its stuffing.
pub proof fn lemma_decode_stuff(s: Seq<u8>)
    ensures
        cobs_decoding(stuff(s)) == Some(s),
    decreases s.len(),
{
    lemma_run_len(s);
    let b = stuff(s);
    if s.len() >= 254 && run_len(s) >= 254 {
        if s.len() == 254 {
            assert(b.subrange(1, 255) =~= s);
        } else {
            let t = s.subrange(254, s.len() as int);
            lemma_decode_stuff(t);
            lemma_stuff_zero_free(t);
            assert(b.subrange(255, b.len() as int) =~= stuff(t));
            assert(b.subrange(1, 255) =~= s.subrange(0, 254));
            assert(s.subrange(0, 254) + Seq::<u8>::empty() + t =~= s);
        }
    } else if run_len(s) < s.len() {
        let n = run_len(s) as int;
        let t = s.subrange(n + 1, s.len() as int);
        lemma_decode_stuff(t);
        lemma_stuff_zero_free(t);
        assert(b[0] == n + 1);
        assert(b.subrange(n + 1, b.len() as int) =~= stuff(t));
        assert(b.subrange(1, n + 1) =~= s.subrange(0, n));
        assert(s.subrange(0, n) + seq![0u8] + t =~= s);
    } else {
        assert(b.subrange(1, b.len() as int) =~= s);
    }
}

/// The payload's encoding holds no delimiter, and a payload that is not too
/// long gets an encoding that fits the decoder's buffer.
pub proof fn lemma_encoding_fits(p: Seq<u8>)
    requires
        0 < p.len() <= MAX_PAYLOAD_LEN,
    ensures
        zero_free(cobs_encoding(p)),
        0 < cobs_encoding(p).len() <= MAX_FRAME_LEN,
        cobs_decoding(cobs_encoding(p)) == Some(p),
{
    lemma_stuff_zero_free(p);
    lemma_stuff_len(p);
    lemma_decode_stuff(p);
}

/// COBS-encodes `payload` and appends the delimiter.
pub fn encode_frame(payload: &[u8]) -> (r: Vec<u8>)
    requires
        payload@.len() <= MAX_PAYLOAD_LEN,
    ensures
        r@ == frame_bytes(payload@),
{
    let mut r = cobs_encode(payload);
    r.push(DELIMITER);
    r
}

/// What one delimiter produced: a complete payload, or a signal that the
/// bytes before it were discarded (malformed stuffing or an overlong frame).
#[derive(Debug, PartialEq, Eq)]
pub enum Decoded {
    Frame(Vec<u8>),
    Discarded,
}

impl View for Decoded {
    type V = Option<Seq<u8>>;

    open spec fn view(&self) -> Option<Seq<u8>> {
        match self {
            Decoded::Frame(p) => Some(p@),
            Decoded::Discarded => None,
        }
    }
}

pub open spec fn events_view(evs: Seq<Decoded>) -> Seq<Option<Seq<u8>>> {
    evs.map_values(|d: Decoded| d@)
}

/// State of the decoder: the encoded bytes buffered since the last delimiter,
/// and whether the current frame has outgrown the buffer (its bytes are then dropped).
pub struct DecoderState {
    pub pending: Seq<u8>,
    pub overflowed: bool,
}

pub open spec fn idle() -> DecoderState {
    DecoderState { pending: Seq::empty(), overflowed: false }
}

/// Feeding one byte: a delimiter closes the frame (an empty one is skipped),
/// any other byte is buffered while it fits.
pub open spec fn feed_byte(st: DecoderState, b: u8) -> (DecoderState, Seq<Option<Seq<u8>>>) {
    if b == DELIMITER {
        if st.overflowed {
            (idle(), seq![None])
        } else if st.pending.len() == 0 {
            (idle(), Seq::empty())
        } else {
            (idle(), seq![cobs_decoding(st.pending)])
        }
    } else if st.overflowed || st.pending.len() >= MAX_FRAME_LEN {
        (DecoderState { pending: Seq::empty(), overflowed: true }, Seq::empty())
    } else {
        (DecoderState { pending: st.pending.push(b), overflowed: false }, Seq::empty())
    }
}

/// Feeding a byte sequence: the state reached and the events, in order.
pub open spec fn feed(st: DecoderState, bytes: Seq<u8>) -> (DecoderState, Seq<Option<Seq<u8>>>)
    decreases bytes.len(),
{
    if bytes.len() == 0 {
        (st, Seq::empty())
    } else {
        let before = feed(st, bytes.drop_last());
        let last = feed_byte(before.0, bytes.last());
        (last.0, before.1 + last.1)
    }
}

/// Incremental frame decoder: bytes may arrive in any split; each delimiter
/// yields at most one event.
pub struct FrameDecoder {
    pending: Vec<u8>,
    overflowed: bool,
}

impl View for FrameDecoder {
    type V = DecoderState;

    closed spec fn view(&self) -> DecoderState {
        DecoderState { pending: self.pending@, overflowed: self.overflowed }
    }
}

impl FrameDecoder {
    pub closed spec fn wf(&self) -> bool {
        &&& zero_free(self.pending@)
        &&& self.pending@.len() <= MAX_FRAME_LEN
        &&& self.overflowed ==> self.pending@.len() == 0
    }

    pub fn new() -> (r: Self)
        ensures
            r.wf(),
            r@ == idle(),
    {
        FrameDecoder { pending: Vec::new(), overflowed: false }
    }

    /// Feeds `bytes` and returns the events of the delimiters among them.
    pub fn push(&mut self, bytes: &[u8]) -> (r: Vec<Decoded>)
        requires
            old(self).wf(),
        ensures
            final(self).wf(),
            (final(self)@, events_view(r@)) == feed(old(self)@, bytes@),
    {
        let mut out: Vec<Decoded> = Vec::new();
        let mut i: usize = 0;
        while i < bytes.len()
            invariant
                i <= bytes@.len(),
                self.wf(),
                (self@, events_view(out@)) == feed(old(self)@, bytes@.subrange(0, i as int)),
            decreases bytes@.len() - i,
        {
            let b = bytes[i];
            let ghost prev = events_view(out@);
            if b == DELIMITER {
                if self.overflowed {
                    out.push(Decoded::Discarded);
                } else if self.pending.len() > 0 {
                    match cobs_decode(self.pending.as_slice()) {
                        Some(p) => out.push(Decoded::Frame(p)),
                        None => out.push(Decoded::Discarded),
                    }
                }
                self.pending = Vec::new();
                self.overflowed = false;
            } else if self.overflowed || self.pending.len() >= MAX_FRAME_LEN {
                self.pending = Vec::new();
                self.overflowed = true;
            } else {
                self.pending.push(b);
            }
            proof {
                let step = bytes@.subrange(0, i + 1);
                assert(step.drop_last() =~= bytes@.subrange(0, i as int));
                assert(step.last() == b);
                assert(events_view(out@) =~= prev + feed_byte(feed(old(self)@, bytes@.subrange(0, i as int)).0, b).1);
            }
            i = i + 1;
        }
        proof {
            assert(bytes@.subrange(0, bytes@.len() as int) =~= bytes@);
        }
        out
    }
}

/// Feeding two pieces one after the other is feeding their concatenation.
pub proof fn lemma_feed_append(st: DecoderState, a: Seq<u8>, b: Seq<u8>)
    ensures
        feed(st, a + b) == (feed(feed(st, a).0, b).0, feed(st, a).1 + feed(feed(st, a).0, b).1),
    decreases b.len(),
{
    if b.len() == 0 {
        assert(a + b =~= a);
        assert(feed(st, a).1 + Seq::empty() =~= feed(st, a).1);
    } else {
        lemma_feed_append(st, a, b.drop_last());
        assert((a + b).drop_last() =~= a + b.drop_last());
        assert((a + b).last() == b.last());
        let mid = feed(st, a);
        let x = feed(mid.0, b.drop_last());
        let y = feed_byte(x.0, b.last());
        assert(mid.1 + (x.1 + y.1) =~= (mid.1 + x.1) + y.1);
    }
}

/// From the idle state, zero-free bytes that fit the buffer are only buffered.
proof fn lemma_feed_block(w: Seq<u8>)
    requires
        zero_free(w),
        w.len() <= MAX_FRAME_LEN,
    ensures
        feed(idle(), w) == (DecoderState { pending: w, overflowed: false }, Seq::<Option<Seq<u8>>>::empty()),
    decreases w.len(),
{
    if w.len() > 0 {
        lemma_feed_block(w.drop_last());
        assert(w.drop_last().push(w.last()) =~= w);
    } else {
        assert(w =~= Seq::<u8>::empty());
    }
}

/// Framing round trip: a decoder at a frame boundary that is fed the frame of
/// a non-empty payload yields exactly that payload and is back at a boundary.
pub proof fn lemma_frame_round_trip(p: Seq<u8>)
    requires
        0 < p.len() <= MAX_PAYLOAD_LEN,
    ensures
        feed(idle(), frame_bytes(p)) == (idle(), seq![Some(p)]),
{
    let w = cobs_encoding(p);
    lemma_encoding_fits(p);
    lemma_feed_block(w);
    assert(frame_bytes(p).drop_last() =~= w);
    assert(Seq::<Option<Seq<u8>>>::empty() + seq![Some(p)] =~= seq![Some(p)]);
}

/// Resynchronisation: whatever state the decoder is in and whatever bytes it
/// has seen, once a delimiter has passed, the next well-formed frame is
/// decoded intact and nothing follows it.
pub proof fn lemma_resync(st: DecoderState, noise: Seq<u8>, p: Seq<u8>)
    requires
        0 < p.len() <= MAX_PAYLOAD_LEN,
    ensures
        feed(st, noise.push(DELIMITER) + frame_bytes(p)) == (
            idle(),
            feed(st, noise.push(DELIMITER)).1.push(Some(p)),
        ),
{
    let a = noise.push(DELIMITER);
    lemma_feed_append(st, a, frame_bytes(p));
    assert(a.drop_last() =~= noise);
    assert(feed(st, a).0 == idle());
    lemma_frame_round_trip(p);
    assert(feed(st, a).1 + seq![Some(p)] =~= feed(st, a).1.push(Some(p)));
}

} // verus!
