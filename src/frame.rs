//! Framing of control-link messages: each frame is the message text followed
//! by one NUL byte, with no length prefix.

use vstd::prelude::*;

verus! {

/// The byte that ends every frame.
pub const DELIMITER: u8 = 0;

/// The longest frame body a decoder accepts.
pub const MAX_FRAME_LEN: usize = 65536;

/// No byte of `s` is the delimiter.
pub open spec fn no_delimiter(s: Seq<u8>) -> bool {
    forall|i: int| 0 <= i < s.len() ==> s[i] != DELIMITER
}

/// The bytes on the wire for one frame body.
pub open spec fn frame_of(body: Seq<u8>) -> Seq<u8> {
    body.push(DELIMITER)
}

/// Splits the first complete frame off a byte stream: its body and what
/// follows its delimiter, or `None` while no delimiter has arrived.
pub open spec fn take_frame(s: Seq<u8>) -> Option<(Seq<u8>, Seq<u8>)>
    decreases s.len(),
{
    if s.len() == 0 {
        None
    } else if s[0] == DELIMITER {
        Some((Seq::empty(), s.drop_first()))
    } else {
        match take_frame(s.drop_first()) {
            Some((body, rest)) => Some((seq![s[0]] + body, rest)),
            None => None,
        }
    }
}

/// A stream whose first delimiter stands at `i` splits there.
pub proof fn lemma_take_frame_at(s: Seq<u8>, i: int)
    requires
        0 <= i < s.len(),
        s[i] == DELIMITER,
        no_delimiter(s.take(i)),
    ensures
        take_frame(s) == Some((s.take(i), s.skip(i + 1))),
    decreases i,
{
    if i > 0 {
        assert(s.take(i)[0] == s[0]);
        let t = s.drop_first();
        assert(t.take(i - 1) =~= s.take(i).drop_first());
        lemma_take_frame_at(t, i - 1);
        assert(seq![s[0]] + t.take(i - 1) =~= s.take(i));
        assert(t.skip(i) =~= s.skip(i + 1));
    } else {
        assert(s.take(0) =~= Seq::<u8>::empty());
        assert(s.drop_first() =~= s.skip(1));
    }
}

/// A stream without a delimiter holds no complete frame.
pub proof fn lemma_take_frame_none(s: Seq<u8>)
    requires
        no_delimiter(s),
    ensures
        take_frame(s) is None,
    decreases s.len(),
{
    if s.len() > 0 {
        lemma_take_frame_none(s.drop_first());
    }
}

/// Decoding the frame of a body, whatever follows it, yields that body and
/// leaves what follows.
pub proof fn lemma_frame_round_trip(body: Seq<u8>, rest: Seq<u8>)
    requires
        no_delimiter(body),
    ensures
        take_frame(frame_of(body) + rest) == Some((body, rest)),
{
    let s = frame_of(body) + rest;
    assert(s.take(body.len() as int) =~= body);
    assert(s.skip(body.len() as int + 1) =~= rest);
    lemma_take_frame_at(s, body.len() as int);
}

/// Why a frame could not be had.
#[derive(Debug, Clone, Copy, PartialEq, Eq)]
pub enum FrameError {
    /// The body holds the delimiter, so it cannot be framed.
    DelimiterInBody,
    /// The body is longer than `MAX_FRAME_LEN`.
    TooLong,
}

/// The frame for `body`, or an error if `body` holds the delimiter.
pub fn encode_frame(body: &[u8]) -> (r: Result<Vec<u8>, FrameError>)
    ensures
        no_delimiter(body@) ==> r is Ok && r->Ok_0@ == frame_of(body@),
        !no_delimiter(body@) ==> r == Err::<Vec<u8>, FrameError>(FrameError::DelimiterInBody),
{
    let mut out: Vec<u8> = Vec::new();
    let mut i: usize = 0;
    while i < body.len()
        invariant
            i <= body@.len(),
            out@ == body@.take(i as int),
            no_delimiter(out@),
        decreases body@.len() - i,
    {
        if body[i] == DELIMITER {
            return Err(FrameError::DelimiterInBody);
        }
        out.push(body[i]);
        i = i + 1;
        assert(out@ =~= body@.take(i as int));
    }
    assert(out@ =~= body@);
    out.push(DELIMITER);
    Ok(out)
}

/// Collects the bytes of a stream and hands out its frames in order.
pub struct FrameDecoder {
    buf: Vec<u8>,
}

impl View for FrameDecoder {
    type V = Seq<u8>;

    /// The bytes received and not yet handed out.
    closed spec fn view(&self) -> Seq<u8> {
        self.buf@
    }
}

impl FrameDecoder {
    /// A decoder that has received nothing.
    pub fn new() -> (d: Self)
        ensures
            d@ == Seq::<u8>::empty(),
    {
        FrameDecoder { buf: Vec::new() }
    }

    /// The bytes received and not yet handed out, for a caller that stops
    /// reading frames and passes the stream's raw bytes on.
    pub fn into_remaining(self) -> (r: Vec<u8>)
        ensures
            r@ == self@,
    {
        self.buf
    }

    /// Appends received bytes.
    pub fn push_bytes(&mut self, data: &[u8])
        ensures
            final(self)@ == old(self)@ + data@,
    {
        let mut i: usize = 0;
        while i < data.len()
            invariant
                i <= data@.len(),
                self@ == old(self)@ + data@.take(i as int),
            decreases data@.len() - i,
        {
            self.buf.push(data[i]);
            i = i + 1;
            assert(self@ =~= old(self)@ + data@.take(i as int));
        }
        assert(data@.take(data@.len() as int) =~= data@);
    }

    /// Takes the next complete frame's body. `Ok(None)` while no delimiter
    /// has arrived; `Err(TooLong)` once a body exceeds `MAX_FRAME_LEN`,
    /// complete or not, which leaves the stream unusable.
    pub fn next_frame(&mut self) -> (r: Result<Option<Vec<u8>>, FrameError>)
        ensures
            match take_frame(old(self)@) {
                Some((body, rest)) => if body.len() <= MAX_FRAME_LEN {
                    &&& r matches Ok(Some(f))
                    &&& r->Ok_0->Some_0@ == body
                    &&& final(self)@ == rest
                } else {
                    &&& r == Err::<Option<Vec<u8>>, FrameError>(FrameError::TooLong)
                    &&& final(self)@ == old(self)@
                },
                None => if old(self)@.len() <= MAX_FRAME_LEN {
                    &&& r matches Ok(None)
                    &&& final(self)@ == old(self)@
                } else {
                    &&& r == Err::<Option<Vec<u8>>, FrameError>(FrameError::TooLong)
                    &&& final(self)@ == old(self)@
                },
            },
    {
        let n = self.buf.len();
        let mut i: usize = 0;
        while i < n
            invariant
                n == self.buf@.len(),
                self@ == old(self)@,
                i <= n,
                no_delimiter(self.buf@.take(i as int)),
            decreases n - i,
        {
            if self.buf[i] == DELIMITER {
                proof {
                    lemma_take_frame_at(self.buf@, i as int);
                }
                if i > MAX_FRAME_LEN {
                    return Err(FrameError::TooLong);
                }
                let mut body = self.buf.split_off(i + 1);
                core::mem::swap(&mut body, &mut self.buf);
                body.pop();
                assert(body@ =~= old(self)@.take(i as int));
                return Ok(Some(body));
            }
            i = i + 1;
            assert(self.buf@.take(i as int) =~= self.buf@.take(i - 1).push(self.buf@[i - 1]));
        }
        assert(self.buf@.take(n as int) =~= self.buf@);
        proof {
            lemma_take_frame_none(self.buf@);
        }
        if n > MAX_FRAME_LEN {
            return Err(FrameError::TooLong);
        }
        Ok(None)
    }
}

} // verus!
