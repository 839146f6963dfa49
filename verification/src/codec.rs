//! CRLF-delimited UTF-8 text framing over a growing byte buffer.
//!
//! A frame on the wire is the UTF-8 encoding of one line of text followed by
//! the two bytes `\r\n`. The decoder takes one frame at a time off the front of
//! a buffer; the encoder appends one frame to the end of a buffer.

use crate::text::string_from_utf8;
use bytes::Buf;
use bytes::BytesMut;
use vstd::prelude::*;
use vstd::utf8::*;

verus! {

/// The byte buffer type the codec reads from and writes to.
#[verifier::external_type_specification]
#[verifier::external_body]
pub struct ExBytesMut(BytesMut);

/// The bytes a buffer currently holds, first to last.
pub uninterp spec fn buffer_bytes(buf: BytesMut) -> Seq<u8>;

/// `BytesMut::len`: the number of bytes the buffer holds.
#[verifier::external_body]
fn buffer_len(buf: &BytesMut) -> (n: usize)
    ensures
        n == buffer_bytes(*buf).len(),
{
    buf.len()
}

/// Indexing a `BytesMut` through its slice: the byte at position `i`.
/// Out-of-range indices panic, so they are excluded.
#[verifier::external_body]
fn buffer_byte(buf: &BytesMut, i: usize) -> (b: u8)
    requires
        i < buffer_bytes(*buf).len(),
    ensures
        b == buffer_bytes(*buf)[i as int],
{
    buf[i]
}

/// `BytesMut::split_to`: afterwards the buffer holds the bytes from `at` on and
/// the returned buffer holds the bytes before `at`. It panics when `at` is past
/// the end, so that is excluded.
#[verifier::external_body]
fn buffer_split_to(buf: &mut BytesMut, at: usize) -> (head: BytesMut)
    requires
        at <= buffer_bytes(*old(buf)).len(),
    ensures
        buffer_bytes(head) == buffer_bytes(*old(buf)).take(at as int),
        buffer_bytes(*final(buf)) == buffer_bytes(*old(buf)).skip(at as int),
{
    buf.split_to(at)
}

/// `Buf::advance` on a `BytesMut`: drops the first `count` bytes. It panics when
/// fewer bytes remain, so that is excluded.
#[verifier::external_body]
fn buffer_advance(buf: &mut BytesMut, count: usize)
    requires
        count <= buffer_bytes(*old(buf)).len(),
    ensures
        buffer_bytes(*final(buf)) == buffer_bytes(*old(buf)).skip(count as int),
{
    buf.advance(count)
}

/// `BytesMut::extend_from_slice`: appends the given bytes at the end.
#[verifier::external_body]
fn buffer_extend(buf: &mut BytesMut, extra: &[u8])
    ensures
        buffer_bytes(*final(buf)) == buffer_bytes(*old(buf)) + extra@,
{
    buf.extend_from_slice(extra)
}

/// Copies what a `BytesMut` holds into a vector, through `<[u8]>::to_vec`.
#[verifier::external_body]
fn buffer_to_vec(buf: &BytesMut) -> (v: Vec<u8>)
    ensures
        v@ == buffer_bytes(*buf),
{
    buf.to_vec()
}

/// Why a frame could not be decoded or encoded.
#[derive(Clone, Copy, Debug, PartialEq, Eq, Structural)]
pub enum CodecErrorKind {
    /// The frame, or the undelimited buffer, is longer than the configured maximum.
    FrameTooLong,
    /// The bytes before the delimiter are not valid UTF-8.
    BadUtf8,
}

/// An error raised by [`CrlfTextCodec`].
#[derive(Clone, Copy, Debug, PartialEq, Eq, Structural)]
pub struct CodecError {
    pub kind: CodecErrorKind,
}

impl CodecError {
    /// A short description of the error, for logs.
    pub fn message(&self) -> (text: &'static str)
        ensures
            text@ == match self.kind {
                CodecErrorKind::FrameTooLong => "frame exceeds max length"@,
                CodecErrorKind::BadUtf8 => "non-utf8 upstream frame"@,
            },
    {
        match self.kind {
            CodecErrorKind::FrameTooLong => "frame exceeds max length",
            CodecErrorKind::BadUtf8 => "non-utf8 upstream frame",
        }
    }
}

/// The two delimiter bytes.
pub open spec fn crlf() -> Seq<u8> {
    seq![13u8, 10u8]
}

/// A delimiter starts at index `i` of `bytes`.
pub open spec fn crlf_at(bytes: Seq<u8>, i: int) -> bool {
    0 <= i && i + 1 < bytes.len() && bytes[i] == 13u8 && bytes[i + 1] == 10u8
}

/// Some delimiter occurs in `bytes`.
pub open spec fn has_crlf(bytes: Seq<u8>) -> bool {
    exists|i: int| crlf_at(bytes, i)
}

/// The first delimiter of `bytes` starts at index `i`.
pub open spec fn first_crlf_at(bytes: Seq<u8>, i: int) -> bool {
    crlf_at(bytes, i) && forall|j: int| 0 <= j < i ==> !crlf_at(bytes, j)
}

/// Where the first delimiter of `bytes` starts, if there is one.
pub open spec fn first_crlf(bytes: Seq<u8>) -> int {
    choose|i: int| first_crlf_at(bytes, i)
}

/// One line of text as it travels on the wire.
pub open spec fn frame_bytes(text: Seq<char>) -> Seq<u8> {
    encode_utf8(text) + crlf()
}

/// What one decoding step finds at the front of a buffer.
pub enum Decoded {
    /// No complete frame yet, and the buffer is within bounds.
    NeedMore,
    /// A frame was taken off; `rest` is what follows its delimiter.
    Frame { text: Seq<char>, rest: Seq<u8> },
    /// The step failed, leaving `rest` in the buffer.
    Failed { kind: CodecErrorKind, rest: Seq<u8> },
}

/// The result of one decoding step on `bytes` with maximum frame length `max`.
///
/// The first delimiter ends the frame. A frame that, with its delimiter, is
/// longer than `max` is rejected, as is one that is not UTF-8; either way the
/// frame and its delimiter are consumed. Without a delimiter the buffer is
/// left alone, and rejected once it has grown past `max`.
pub open spec fn decode_outcome(bytes: Seq<u8>, max: int) -> Decoded {
    if has_crlf(bytes) {
        let i = first_crlf(bytes);
        let rest = bytes.skip(i + 2);
        if i + 2 > max {
            Decoded::Failed { kind: CodecErrorKind::FrameTooLong, rest }
        } else if !valid_utf8(bytes.take(i)) {
            Decoded::Failed { kind: CodecErrorKind::BadUtf8, rest }
        } else {
            Decoded::Frame { text: decode_utf8(bytes.take(i)), rest }
        }
    } else if bytes.len() > max {
        Decoded::Failed { kind: CodecErrorKind::FrameTooLong, rest: bytes }
    } else {
        Decoded::NeedMore
    }
}

/// The first delimiter is where `first_crlf` says.
pub proof fn lemma_first_crlf_unique(bytes: Seq<u8>, i: int)
    requires
        first_crlf_at(bytes, i),
    ensures
        has_crlf(bytes),
        first_crlf(bytes) == i,
{
    let k = first_crlf(bytes);
    assert(first_crlf_at(bytes, k));
    if k < i {
        assert(!crlf_at(bytes, k));
    } else if i < k {
        assert(!crlf_at(bytes, i));
    }
}

/// Where a delimiter occurs, a first one does, and `first_crlf` names it.
pub proof fn lemma_first_crlf_exists(bytes: Seq<u8>, k: int)
    requires
        crlf_at(bytes, k),
    ensures
        first_crlf_at(bytes, first_crlf(bytes)),
        first_crlf(bytes) <= k,
    decreases k,
{
    if exists|j: int| 0 <= j < k && crlf_at(bytes, j) {
        let j = choose|j: int| 0 <= j < k && crlf_at(bytes, j);
        lemma_first_crlf_exists(bytes, j);
    } else {
        assert(first_crlf_at(bytes, k));
        lemma_first_crlf_unique(bytes, k);
    }
}

/// The text can travel as one frame under `max`: its bytes hold no delimiter
/// and, with the delimiter added, are no longer than `max`.
pub open spec fn fits_frame(text: Seq<char>, max: int) -> bool {
    !has_crlf(encode_utf8(text)) && encode_utf8(text).len() + 2 <= max
}

/// The frames of `texts` one after another.
pub open spec fn concat_frames(texts: Seq<Seq<char>>) -> Seq<u8>
    decreases texts.len(),
{
    if texts.len() == 0 {
        Seq::empty()
    } else {
        frame_bytes(texts[0]) + concat_frames(texts.drop_first())
    }
}

/// The texts that `count` successive decoding steps return from `bytes`, and
/// what is left in the buffer after them; `None` if any step yields no frame.
pub open spec fn decode_run(bytes: Seq<u8>, max: int, count: nat) -> Option<
    (Seq<Seq<char>>, Seq<u8>),
>
    decreases count,
{
    if count == 0 {
        Some((Seq::empty(), bytes))
    } else {
        match decode_outcome(bytes, max) {
            Decoded::Frame { text, rest } => match decode_run(rest, max, (count - 1) as nat) {
                Some((texts, left)) => Some((seq![text] + texts, left)),
                None => None,
            },
            _ => None,
        }
    }
}

/// A frame at the front of a buffer is decoded to its text, and what follows
/// the frame stays in the buffer.
pub proof fn lemma_decode_front_frame(text: Seq<char>, tail: Seq<u8>, max: int)
    requires
        fits_frame(text, max),
    ensures
        decode_outcome(frame_bytes(text) + tail, max) == (Decoded::Frame { text, rest: tail }),
{
    let payload = encode_utf8(text);
    let n = payload.len() as int;
    let bytes = frame_bytes(text) + tail;
    assert(crlf_at(bytes, n));
    assert forall|j: int| 0 <= j < n implies !crlf_at(bytes, j) by {
        if crlf_at(bytes, j) {
            if j + 1 < n {
                assert(crlf_at(payload, j));
            }
        }
    }
    lemma_first_crlf_unique(bytes, n);
    assert(bytes.take(n) =~= payload);
    assert(bytes.skip(n + 2) =~= tail);
    encode_utf8_valid_utf8(text);
    encode_utf8_decode_utf8(text);
}

/// Decoding what `encode` wrote gives the text back and empties the buffer.
///
/// The text must fit a frame: a text whose bytes are within the maximum but
/// within two of it is accepted by `encode` and refused by `decode`.
pub proof fn lemma_decode_inverts_encode(text: Seq<char>, max: int)
    requires
        fits_frame(text, max),
    ensures
        decode_outcome(frame_bytes(text), max) == (Decoded::Frame { text, rest: Seq::empty() }),
{
    lemma_decode_front_frame(text, Seq::empty(), max);
    assert(frame_bytes(text) + Seq::<u8>::empty() =~= frame_bytes(text));
}

/// A buffer that holds the frames of `texts` and nothing else gives, in as
/// many decoding steps as there are texts, those texts in order, and is then
/// empty; one more step asks for more input.
pub proof fn lemma_decode_frames_in_order(texts: Seq<Seq<char>>, max: int)
    requires
        forall|i: int| 0 <= i < texts.len() ==> fits_frame(#[trigger] texts[i], max),
    ensures
        decode_run(concat_frames(texts), max, texts.len()) == Some((texts, Seq::<u8>::empty())),
        0 <= max ==> decode_outcome(Seq::<u8>::empty(), max) == Decoded::NeedMore,
    decreases texts.len(),
{
    assert(!has_crlf(Seq::<u8>::empty()));
    if texts.len() > 0 {
        let later = texts.drop_first();
        assert forall|i: int| 0 <= i < later.len() implies fits_frame(#[trigger] later[i], max) by {
            assert(later[i] == texts[i + 1]);
        }
        lemma_decode_frames_in_order(later, max);
        lemma_decode_front_frame(texts[0], concat_frames(later), max);
        assert(seq![texts[0]] + later =~= texts);
    }
}

/// A buffer with more than `max` bytes before any delimiter is rejected as
/// too long, whether or not a delimiter follows.
pub proof fn lemma_overlong_rejected(bytes: Seq<u8>, max: int)
    requires
        0 <= max < bytes.len(),
        forall|j: int| 0 <= j <= max ==> !crlf_at(bytes, j),
    ensures
        decode_outcome(bytes, max) matches Decoded::Failed { kind, .. } && kind
            == CodecErrorKind::FrameTooLong,
{
    if has_crlf(bytes) {
        lemma_first_crlf_exists(bytes, choose|k: int| crlf_at(bytes, k));
    }
}

/// Frames text as UTF-8 bytes followed by `\r\n`.
pub struct CrlfTextCodec {
    max_len: usize,
}

impl CrlfTextCodec {
    /// The configured maximum frame length in bytes.
    pub closed spec fn max(&self) -> int {
        self.max_len as int
    }

    /// A codec whose frames hold at most `max_len` bytes.
    pub fn new(max_len: usize) -> (codec: Self)
        ensures
            codec.max() == max_len,
    {
        Self { max_len }
    }

    /// The configured maximum frame length in bytes.
    pub fn max_len(&self) -> (n: usize)
        ensures
            n == self.max(),
    {
        self.max_len
    }

    /// Takes the next frame off the front of `src`, if a complete one is there.
    pub fn decode(&mut self, src: &mut BytesMut) -> (r: Result<Option<String>, CodecError>)
        ensures
            final(self).max() == old(self).max(),
            match decode_outcome(buffer_bytes(*old(src)), old(self).max()) {
                Decoded::NeedMore => r == Ok::<Option<String>, CodecError>(None)
                    && buffer_bytes(*final(src)) == buffer_bytes(*old(src)),
                Decoded::Frame { text, rest } => r matches Ok(Some(line)) && line@ == text
                    && buffer_bytes(*final(src)) == rest,
                Decoded::Failed { kind, rest } => r matches Err(e) && e.kind == kind
                    && buffer_bytes(*final(src)) == rest,
            },
    {
        let ghost start = buffer_bytes(*src);
        let n = buffer_len(src);
        let mut i: usize = 0;
        while i < n && n - i >= 2
            invariant
                i <= n,
                n == start.len(),
                start == buffer_bytes(*old(src)),
                buffer_bytes(*src) == start,
                self.max() == old(self).max(),
                forall|j: int| 0 <= j < i ==> !crlf_at(start, j),
            decreases n - i,
        {
            if buffer_byte(src, i) == 13u8 && buffer_byte(src, i + 1) == 10u8 {
                proof {
                    lemma_first_crlf_unique(start, i as int);
                }
                let line = buffer_split_to(src, i);
                buffer_advance(src, 2);
                assert(buffer_bytes(*src) == start.skip(i + 2));
                if i + 2 > self.max_len {
                    return Err(CodecError { kind: CodecErrorKind::FrameTooLong });
                }
                return match string_from_utf8(buffer_to_vec(&line)) {
                    Some(text) => Ok(Some(text)),
                    None => Err(CodecError { kind: CodecErrorKind::BadUtf8 }),
                };
            }
            i += 1;
        }
        assert(!has_crlf(start));
        if n > self.max_len {
            return Err(CodecError { kind: CodecErrorKind::FrameTooLong });
        }
        Ok(None)
    }

    /// Appends `item` and one delimiter to `dst`, unless `item` is longer than
    /// the maximum, in which case `dst` is left as it was.
    pub fn encode(&mut self, item: &str, dst: &mut BytesMut) -> (r: Result<(), CodecError>)
        ensures
            final(self).max() == old(self).max(),
            encode_utf8(item@).len() > old(self).max() ==> r == Err::<(), CodecError>(
                CodecError { kind: CodecErrorKind::FrameTooLong },
            ) && buffer_bytes(*final(dst)) == buffer_bytes(*old(dst)),
            encode_utf8(item@).len() <= old(self).max() ==> r is Ok && buffer_bytes(*final(dst))
                == buffer_bytes(*old(dst)) + frame_bytes(item@),
    {
        let payload = item.as_bytes();
        if payload.len() > self.max_len {
            return Err(CodecError { kind: CodecErrorKind::FrameTooLong });
        }
        let delimiter: [u8; 2] = [13u8, 10u8];
        buffer_extend(dst, payload);
        buffer_extend(dst, delimiter.as_slice());
        assert(delimiter@ == crlf());
        assert(buffer_bytes(*dst) == buffer_bytes(*old(dst)) + frame_bytes(item@));
        Ok(())
    }
}

} // verus!
