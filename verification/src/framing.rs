//! Length-prefixed framing of signaling messages.
//!
//! Every message travels as a two-byte little-endian length followed by
//! exactly that many payload bytes.
use vstd::prelude::*;

verus! {

/// The largest payload a frame can carry: the length must fit in a `u16`.
pub const MAX_FRAME_PAYLOAD: usize = 65535;

/// Errors raised by the framing layer itself.
#[derive(Debug, Clone, Copy, PartialEq, Eq, Structural)]
pub enum FrameError {
    /// The payload does not fit behind a two-byte length.
    TooBig,
}

/// Little-endian encoding of a length below 2^16.
pub open spec fn spec_le16(n: nat) -> Seq<u8> {
    seq![(n % 256) as u8, (n / 256) as u8]
}

/// Value of a little-endian two-byte header.
pub open spec fn spec_le16_value(b0: u8, b1: u8) -> nat {
    (b0 as nat) + 256 * (b1 as nat)
}

/// The bytes that carry `payload` on the wire.
pub open spec fn spec_frame(payload: Seq<u8>) -> Seq<u8> {
    spec_le16(payload.len()) + payload
}

/// Header bytes for a payload of `len` bytes.
pub fn frame_header(len: usize) -> (r: Result<[u8; 2], FrameError>)
    ensures
        len > MAX_FRAME_PAYLOAD <==> r is Err,
        r matches Err(e) ==> e == FrameError::TooBig,
        r matches Ok(h) ==> h@ == spec_le16(len as nat),
        r matches Ok(h) ==> h@[0] as int == len as int % 256 && h@[1] as int == len as int / 256,
        len <= 65535 <==> r is Ok,
{
    if len > MAX_FRAME_PAYLOAD {
        return Err(FrameError::TooBig);
    }
    let lo = (len % 256) as u8;
    let hi = (len / 256) as u8;
    let h = [lo, hi];
    assert(h@ =~= spec_le16(len as nat));
    Ok(h)
}

/// Length announced by a two-byte little-endian header.
pub fn frame_len(header: [u8; 2]) -> (n: u16)
    ensures
        n as nat == spec_le16_value(header@[0], header@[1]),
        n as int == header@[0] as int + 256 * (header@[1] as int),
{
    let lo = header[0] as u16;
    let hi = header[1] as u16;
    lo + 256 * hi
}


/// Whole frame for `payload`: its header followed by the payload itself.
pub fn encode_frame(payload: &[u8]) -> (r: Result<Vec<u8>, FrameError>)
    ensures
        payload@.len() > MAX_FRAME_PAYLOAD <==> r is Err,
        payload@.len() <= 65535 <==> r is Ok,
        r matches Err(e) ==> e == FrameError::TooBig,
        r matches Ok(bytes) ==> bytes@ == spec_frame(payload@),
        r matches Ok(bytes) ==> {
            &&& bytes@.len() == payload@.len() + 2
            &&& bytes@[0] as int == payload@.len() as int % 256
            &&& bytes@[1] as int == payload@.len() as int / 256
            &&& bytes@.subrange(2, bytes@.len() as int) == payload@
        },
{
    let header = match frame_header(payload.len()) {
        Ok(h) => h,
        Err(e) => return Err(e),
    };
    let mut bytes: Vec<u8> = Vec::with_capacity(payload.len() + 2);
    bytes.push(header[0]);
    bytes.push(header[1]);
    let mut i: usize = 0;
    while i < payload.len()
        invariant
            i <= payload@.len(),
            bytes@ == spec_le16(payload@.len()) + payload@.subrange(0, i as int),
        decreases payload@.len() - i,
    {
        bytes.push(payload[i]);
        assert(payload@.subrange(0, i + 1) =~= payload@.subrange(0, i as int).push(payload@[i as int]));
        i = i + 1;
    }
    assert(payload@.subrange(0, payload@.len() as int) =~= payload@);
    Ok(bytes)
}

/// Where reading a length header stands after one read call.
#[derive(Debug, Clone, Copy, PartialEq, Eq, Structural)]
pub enum HeaderRead {
    /// More header bytes are needed; this many have arrived so far.
    Continue(usize),
    /// Both header bytes have arrived.
    Complete,
    /// The peer closed the stream cleanly, before any byte of a new message.
    Closed,
    /// The peer closed the stream between the two header bytes.
    Truncated,
}

/// Decides how header reading goes on after a read call that delivered `n`
/// bytes (`n == 0` means end of stream) when `total_read` bytes had arrived.
pub fn header_read_step(total_read: usize, n: usize) -> (r: HeaderRead)
    requires
        total_read < 2,
        n <= 2 - total_read,
    ensures
        n == 0 && total_read == 0 ==> r == HeaderRead::Closed,
        n == 0 && total_read > 0 ==> r == HeaderRead::Truncated,
        n > 0 && total_read + n < 2 ==> r == HeaderRead::Continue((total_read + n) as usize),
        n > 0 && total_read + n == 2 ==> r == HeaderRead::Complete,
{
    if n == 0 {
        if total_read == 0 {
            HeaderRead::Closed
        } else {
            HeaderRead::Truncated
        }
    } else if total_read + n < 2 {
        HeaderRead::Continue(total_read + n)
    } else {
        HeaderRead::Complete
    }
}

/// Turns the outcome of receiving one message into the next item of a
/// message stream and whether the stream goes on: a message is passed on and
/// the stream continues; a clean end of the connection ends the stream
/// without an item; an error is passed on as the last item.
pub fn next_stream_item<T, E>(received: Result<Option<T>, E>) -> (r: (Option<Result<T, E>>, bool))
    ensures
        received matches Ok(Some(m)) ==> r == (Some(Ok::<T, E>(m)), true),
        received matches Ok(None) ==> r == (None::<Result<T, E>>, false),
        received matches Err(e) ==> r == (Some(Err::<T, E>(e)), false),
{
    match received {
        Ok(Some(m)) => (Some(Ok(m)), true),
        Ok(None) => (None, false),
        Err(e) => (Some(Err(e)), false),
    }
}

/// Reading back a frame gives back what was written: the header of the
/// frame for a payload that fits announces exactly the payload's length, and
/// the bytes after the header are exactly the payload.
pub proof fn lemma_frame_roundtrip(payload: Seq<u8>)
    requires
        payload.len() <= MAX_FRAME_PAYLOAD,
    ensures
        spec_frame(payload).len() == payload.len() + 2,
        spec_le16_value(spec_frame(payload)[0], spec_frame(payload)[1]) == payload.len(),
        spec_frame(payload).subrange(2, spec_frame(payload).len() as int) == payload,
{
    let f = spec_frame(payload);
    assert(f.subrange(2, f.len() as int) =~= payload);
}

/// The header is the plain little-endian length: its first byte is the
/// length modulo 256 and its second the length divided by 256, and a header
/// is read back as its first byte plus 256 times its second.
pub proof fn lemma_header_is_little_endian()
    ensures
        forall|n: nat|
            n <= MAX_FRAME_PAYLOAD ==> {
                &&& #[trigger] spec_le16(n).len() == 2
                &&& spec_le16(n)[0] as int == n % 256
                &&& spec_le16(n)[1] as int == n / 256
            },
        forall|b0: u8, b1: u8| #[trigger] spec_le16_value(b0, b1) == b0 as int + 256 * (b1 as int),
{
}

/// Two lengths that fit share a header only when they are equal, so the
/// header alone determines the payload length.
pub proof fn lemma_header_injective(a: nat, b: nat)
    requires
        a <= MAX_FRAME_PAYLOAD,
        b <= MAX_FRAME_PAYLOAD,
        spec_le16(a) == spec_le16(b),
    ensures
        a == b,
{
    assert(spec_le16_value(spec_le16(a)[0], spec_le16(a)[1]) == a);
    assert(spec_le16_value(spec_le16(b)[0], spec_le16(b)[1]) == b);
}


/// The bytes of several frames sent one after another.
pub open spec fn spec_frames(payloads: Seq<Seq<u8>>) -> Seq<u8>
    decreases payloads.len(),
{
    if payloads.len() == 0 {
        Seq::empty()
    } else {
        spec_frame(payloads[0]) + spec_frames(payloads.drop_first())
    }
}

/// What successive message reads deliver from a stream that holds the bytes
/// `s` and then ends: `None` when a read fails (the stream ends inside a
/// header, or holds fewer payload bytes than a header announces), otherwise
/// the payloads in order, the read after the last one reporting a clean end.
/// A read takes the two header bytes (see `header_read_step`), their value
/// (see `frame_len`), then exactly that many payload bytes.
pub open spec fn spec_read_all(s: Seq<u8>) -> Option<Seq<Seq<u8>>>
    decreases s.len(),
{
    if s.len() == 0 {
        Some(Seq::empty())
    } else if s.len() < 2 {
        None
    } else {
        let n = spec_le16_value(s[0], s[1]) as int;
        if s.len() < 2 + n {
            None
        } else {
            match spec_read_all(s.subrange(2 + n, s.len() as int)) {
                Some(rest) => Some(seq![s.subrange(2, 2 + n)] + rest),
                None => None,
            }
        }
    }
}

/// Messages come back in the order they were sent: reading a stream made of
/// frames written one after another, each payload fitting a frame, gives
/// back each payload in order and then a clean end.
pub proof fn lemma_frames_read_back_in_order(payloads: Seq<Seq<u8>>)
    requires
        forall|i: int| 0 <= i < payloads.len() ==> #[trigger] payloads[i].len() <= MAX_FRAME_PAYLOAD,
    ensures
        spec_read_all(spec_frames(payloads)) == Some(payloads),
    decreases payloads.len(),
{
    if payloads.len() == 0 {
        assert(spec_frames(payloads) =~= Seq::<u8>::empty());
    } else {
        let p = payloads[0];
        let tail = payloads.drop_first();
        assert forall|i: int| 0 <= i < tail.len() implies #[trigger] tail[i].len() <= MAX_FRAME_PAYLOAD by {
            assert(tail[i] == payloads[i + 1]);
        }
        lemma_frames_read_back_in_order(tail);
        lemma_frame_roundtrip(p);
        let s = spec_frames(payloads);
        let rest = spec_frames(tail);
        assert(s == spec_frame(p) + rest);
        let n = spec_le16_value(s[0], s[1]) as int;
        assert(s[0] == spec_frame(p)[0] && s[1] == spec_frame(p)[1]);
        assert(n == p.len());
        assert(s.subrange(2, 2 + n) =~= p);
        assert(s.subrange(2 + n, s.len() as int) =~= rest);
        assert(seq![p] + tail =~= payloads);
    }
}


/// What one message read makes of a stream holding `s` (then ending): a
/// clean end before any byte, an end inside the header, fewer payload bytes
/// than announced, or a message with its payload and the bytes it took.
pub enum FirstRead {
    Closed,
    Truncated,
    ShortPayload,
    Message(Seq<u8>, nat),
}

/// The first message read of a stream holding `s`.
pub open spec fn spec_first_read(s: Seq<u8>) -> FirstRead {
    if s.len() == 0 {
        FirstRead::Closed
    } else if s.len() < 2 {
        FirstRead::Truncated
    } else {
        let n = spec_le16_value(s[0], s[1]) as int;
        if s.len() < 2 + n {
            FirstRead::ShortPayload
        } else {
            FirstRead::Message(s.subrange(2, 2 + n), (2 + n) as nat)
        }
    }
}

/// Reading every message of a stream is reading its first message, then the
/// messages of the bytes after it.
pub proof fn lemma_read_all_unfold(s: Seq<u8>)
    ensures
        spec_read_all(s) == (match spec_first_read(s) {
            FirstRead::Closed => Some(Seq::<Seq<u8>>::empty()),
            FirstRead::Message(payload, taken) => match spec_read_all(s.subrange(taken as int, s.len() as int)) {
                Some(rest) => Some(seq![payload] + rest),
                None => None,
            },
            _ => None::<Seq<Seq<u8>>>,
        }),
{
}

/// The bytes of a message read so far form a complete frame.
pub open spec fn spec_complete(c: Seq<u8>) -> bool {
    c.len() >= 2 && c.len() == 2 + spec_le16_value(c[0], c[1])
}

/// The bytes of a message read so far form the start of a frame, short of
/// its end.
pub open spec fn spec_in_progress(c: Seq<u8>) -> bool {
    c.len() < 2 || c.len() < 2 + spec_le16_value(c[0], c[1])
}

/// How many more bytes the message under way needs.
pub open spec fn spec_wanted(c: Seq<u8>) -> int {
    if c.len() < 2 {
        2 - c.len()
    } else {
        2 + spec_le16_value(c[0], c[1]) - c.len()
    }
}

/// A reader never asks for bytes of the next message: while the header is
/// incomplete it asks for the rest of the header, and after it for exactly
/// the rest of the payload the header announces, which is at least one byte.
pub proof fn lemma_wanted_stays_within_message(c: Seq<u8>)
    requires
        spec_in_progress(c),
    ensures
        c.len() < 2 ==> spec_wanted(c) == 2 - c.len(),
        c.len() >= 2 ==> c.len() + spec_wanted(c) == 2 + (c[0] as int) + 256 * (c[1] as int),
        spec_wanted(c) > 0,
{
}

/// What a read hands back.
#[derive(Debug, PartialEq, Eq)]
pub enum ReadStep {
    /// The message needs more bytes.
    NeedMore,
    /// A complete message; its payload.
    Message(Vec<u8>),
    /// The stream ended cleanly, before any byte of a message.
    Closed,
    /// The stream ended between the two header bytes.
    Truncated,
    /// The stream ended before the payload that the header announced.
    ShortPayload,
}

/// What the end of the stream means when the bytes `c` of a message have
/// arrived.
pub open spec fn spec_read_end(c: Seq<u8>) -> ReadStep {
    if c.len() == 0 {
        ReadStep::Closed
    } else if c.len() < 2 {
        ReadStep::Truncated
    } else {
        ReadStep::ShortPayload
    }
}

/// Reads one message at a time from a stream of frames, taking exactly the
/// bytes of that message: the header (see `header_read_step`) and then the
/// payload length the header announces (see `frame_len`).
pub struct FrameReader {
    consumed: Vec<u8>,
}

impl FrameReader {
    #[verifier::type_invariant]
    spec fn inv(self) -> bool {
        spec_in_progress(self.consumed@)
    }

    /// The bytes of the message under way that arrived so far.
    pub closed spec fn spec_consumed(&self) -> Seq<u8> {
        self.consumed@
    }

    /// A reader at the start of a message.
    pub fn new() -> (r: FrameReader)
        ensures
            r.spec_consumed() == Seq::<u8>::empty(),
    {
        FrameReader { consumed: Vec::new() }
    }

    /// How many more bytes the message under way needs (never zero).
    pub fn wanted(&self) -> (n: usize)
        ensures
            n == spec_wanted(self.spec_consumed()),
            n > 0,
    {
        proof {
            use_type_invariant(self);
        }
        let got = self.consumed.len();
        if got < 2 {
            2 - got
        } else {
            let len = frame_len([self.consumed[0], self.consumed[1]]) as usize;
            2 + len - got
        }
    }

    /// Takes the bytes of one read (empty when the stream ended), which are
    /// at most the bytes still wanted. A completed message is handed out and
    /// the reader starts on the next one; an end of stream is reported as
    /// what it means at this point.
    pub fn feed(&mut self, chunk: &[u8]) -> (r: ReadStep)
        requires
            chunk@.len() <= spec_wanted(old(self).spec_consumed()),
        ensures
            chunk@.len() == 0 ==> r == spec_read_end(old(self).spec_consumed())
                && final(self).spec_consumed() == Seq::<u8>::empty(),
            chunk@.len() == 0 && old(self).spec_consumed().len() == 0 ==> r == ReadStep::Closed,
            chunk@.len() == 0 && old(self).spec_consumed().len() == 1 ==> r == ReadStep::Truncated,
            chunk@.len() == 0 && old(self).spec_consumed().len() >= 2 ==> r == ReadStep::ShortPayload,
            chunk@.len() > 0 ==> (spec_complete(old(self).spec_consumed() + chunk@) <==> ({
                let c = old(self).spec_consumed() + chunk@;
                c.len() >= 2 && c.len() == 2 + (c[0] as int) + 256 * (c[1] as int)
            })),
            chunk@.len() > 0 && spec_complete(old(self).spec_consumed() + chunk@) ==> ({
                let c = old(self).spec_consumed() + chunk@;
                &&& r matches ReadStep::Message(payload) && payload@ == c.subrange(2, c.len() as int)
                &&& final(self).spec_consumed() == Seq::<u8>::empty()
            }),
            chunk@.len() > 0 && !spec_complete(old(self).spec_consumed() + chunk@) ==> r is NeedMore
                && final(self).spec_consumed() == old(self).spec_consumed() + chunk@,
    {
        proof {
            use_type_invariant(&*self);
        }
        let ghost c = self.consumed@;
        let got = self.consumed.len();
        if chunk.len() == 0 {
            let r = if got < 2 {
                match header_read_step(got, 0) {
                    HeaderRead::Closed => ReadStep::Closed,
                    _ => ReadStep::Truncated,
                }
            } else {
                ReadStep::ShortPayload
            };
            self.consumed = Vec::new();
            return r;
        }
        let mut bytes = Vec::new();
        let mut i: usize = 0;
        while i < self.consumed.len()
            invariant
                i <= self.consumed@.len(),
                self.consumed@ == c,
                bytes@ == c.subrange(0, i as int),
            decreases self.consumed@.len() - i,
        {
            bytes.push(self.consumed[i]);
            assert(c.subrange(0, i + 1) =~= c.subrange(0, i as int).push(c[i as int]));
            i = i + 1;
        }
        let mut j: usize = 0;
        while j < chunk.len()
            invariant
                j <= chunk@.len(),
                bytes@ == c + chunk@.subrange(0, j as int),
            decreases chunk@.len() - j,
        {
            bytes.push(chunk[j]);
            assert(chunk@.subrange(0, j + 1) =~= chunk@.subrange(0, j as int).push(chunk@[j as int]));
            j = j + 1;
        }
        assert(c.subrange(0, c.len() as int) =~= c);
        assert(chunk@.subrange(0, chunk@.len() as int) =~= chunk@);
        let ghost c2 = c + chunk@;
        let header_done = if got < 2 {
            match header_read_step(got, chunk.len()) {
                HeaderRead::Complete => true,
                _ => false,
            }
        } else {
            true
        };
        if !header_done {
            self.consumed = bytes;
            return ReadStep::NeedMore;
        }
        let len = frame_len([bytes[0], bytes[1]]) as usize;
        if bytes.len() < 2 + len {
            self.consumed = bytes;
            return ReadStep::NeedMore;
        }
        let mut payload = Vec::new();
        let mut k: usize = 2;
        while k < bytes.len()
            invariant
                2 <= k <= bytes@.len(),
                bytes@ == c2,
                payload@ == c2.subrange(2, k as int),
            decreases bytes@.len() - k,
        {
            payload.push(bytes[k]);
            assert(c2.subrange(2, k + 1) =~= c2.subrange(2, k as int).push(c2[k as int]));
            k = k + 1;
        }
        self.consumed = Vec::new();
        ReadStep::Message(payload)
    }
}

/// What the reader reports is what reading the stream means: whatever the
/// stream `s` holds beyond the bytes `c` that the reader took for the message
/// under way, a complete frame in `c` is the first message of `s`, with its
/// payload; and a stream that ends right after `c`, short of a complete frame,
/// ends exactly as the reader reports at that point.
pub proof fn lemma_reader_follows_stream(c: Seq<u8>, s: Seq<u8>)
    requires
        c.len() <= s.len(),
        s.subrange(0, c.len() as int) == c,
    ensures
        spec_complete(c) ==> spec_first_read(s) == FirstRead::Message(c.subrange(2, c.len() as int), c.len()),
        spec_in_progress(c) && s.len() == c.len() ==> match spec_read_end(c) {
            ReadStep::Closed => spec_first_read(s) is Closed,
            ReadStep::Truncated => spec_first_read(s) is Truncated,
            _ => spec_first_read(s) is ShortPayload,
        },
{
    if c.len() >= 2 {
        assert(s[0] == c[0] && s[1] == c[1]) by {
            assert(s.subrange(0, c.len() as int)[0] == s[0]);
            assert(s.subrange(0, c.len() as int)[1] == s[1]);
        }
        if spec_complete(c) {
            assert(s.subrange(2, c.len() as int) =~= c.subrange(2, c.len() as int)) by {
                assert forall|i: int| 0 <= i < c.len() - 2 implies s.subrange(2, c.len() as int)[i]
                    == c.subrange(2, c.len() as int)[i] by {
                    assert(s.subrange(0, c.len() as int)[i + 2] == s[i + 2]);
                }
            }
        }
    }
    if s.len() == c.len() {
        assert(s =~= c);
    }
}

} // verus!
