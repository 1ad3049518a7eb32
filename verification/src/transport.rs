//! Framing of messages on the byte stream to and from the backend: a header
//! block that declares the length of the body, a blank line, then the body.

use vstd::prelude::*;
use vstd::slice::{slice_subrange, slice_to_vec};
use crate::text::{
    decimal_bytes, decimal_value, is_digit, lemma_decimal_bytes_are_digits,
    lemma_decimal_round_trip, push_decimal,
};

verus! {

/// The bytes of `Content-Length: `, the start of the header line that
/// declares the length of the body.
pub open spec fn length_label() -> Seq<u8> {
    seq![67u8, 111u8, 110u8, 116u8, 101u8, 110u8, 116u8, 45u8, 76u8, 101u8, 110u8, 103u8, 116u8, 104u8, 58u8, 32u8]
}

/// The length label spells `Content-Length: ` in ASCII.
pub proof fn lemma_length_label_spells()
    ensures
        length_label() == "Content-Length: "@.map_values(|c: char| c as u8),
{
    reveal_strlit("Content-Length: ");
    assert(length_label() =~= "Content-Length: "@.map_values(|c: char| c as u8));
}

/// Carriage return.
pub const CR: u8 = 13;

/// Line feed.
pub const LF: u8 = 10;

/// The bytes that end a header block: an empty line after a line end.
pub open spec fn terminator() -> Seq<u8> {
    seq![CR, LF, CR, LF]
}

/// The frame that carries `body`.
pub open spec fn frame(body: Seq<u8>) -> Seq<u8> {
    length_label() + decimal_bytes(body.len()) + terminator() + body
}

/// Whether the header terminator stands at `at` in `buf`.
pub open spec fn terminator_at(buf: Seq<u8>, at: int) -> bool {
    &&& 0 <= at
    &&& at + 4 <= buf.len()
    &&& buf[at] == CR
    &&& buf[at + 1] == LF
    &&& buf[at + 2] == CR
    &&& buf[at + 3] == LF
}

/// The first position at or after `from` where the header terminator stands.
pub open spec fn header_end_from(buf: Seq<u8>, from: int) -> Option<int>
    decreases buf.len() - from,
{
    if from < 0 || from + 4 > buf.len() {
        None
    } else if terminator_at(buf, from) {
        Some(from)
    } else {
        header_end_from(buf, from + 1)
    }
}

/// The length of the header block of `buf`: the first position where the
/// header terminator stands.
pub open spec fn header_end(buf: Seq<u8>) -> Option<int> {
    header_end_from(buf, 0)
}

/// Where the line that starts at `from` ends: at the next line end, or at
/// the end of `block`.
pub open spec fn line_end(block: Seq<u8>, from: int) -> int
    decreases block.len() - from,
{
    if from < 0 || from >= block.len() {
        block.len() as int
    } else if from + 1 < block.len() && block[from] == CR && block[from + 1] == LF {
        from
    } else {
        line_end(block, from + 1)
    }
}

/// Whether `line` starts with the length label.
pub open spec fn has_length_label(line: Seq<u8>) -> bool {
    line.len() >= 16 && line.subrange(0, 16) == length_label()
}

/// The length that `digits` declares: they are decimal digits, at least one,
/// and their value fits a `usize`.
pub open spec fn declared_length(digits: Seq<u8>) -> Option<nat> {
    if digits.len() > 0 && (forall|i: int| 0 <= i < digits.len() ==> is_digit(#[trigger] digits[i]))
        && decimal_value(digits) <= usize::MAX {
        Some(decimal_value(digits))
    } else {
        None
    }
}

/// The body length that the header block declares, reading its lines from
/// `from`: the first line with the length label decides, and lines without
/// it are passed over. `None` where no line has the label, or where that
/// line does not declare a length.
pub open spec fn content_length_from(block: Seq<u8>, from: int) -> Option<nat>
    decreases block.len() - from,
{
    if from < 0 || from >= block.len() {
        None
    } else if line_end(block, from) < from || line_end(block, from) > block.len() {
        None
    } else if has_length_label(block.subrange(from, line_end(block, from))) {
        declared_length(block.subrange(from, line_end(block, from)).skip(16))
    } else if line_end(block, from) + 2 >= block.len() {
        None
    } else {
        content_length_from(block, line_end(block, from) + 2)
    }
}

/// The body length that the header block declares.
pub open spec fn content_length(block: Seq<u8>) -> Option<nat> {
    content_length_from(block, 0)
}

/// What the start of a buffer of received bytes holds.
#[derive(Debug, PartialEq, Eq)]
pub enum Decoded {
    /// Not yet a whole frame: more bytes are needed.
    Incomplete,
    /// A whole frame: its body, and the number of bytes it took.
    Frame { body: Vec<u8>, consumed: usize },
    /// A header block that declares no usable length. It takes `consumed`
    /// bytes, which are to be skipped.
    Malformed { consumed: usize },
}

/// The mathematical value of a [`Decoded`].
pub enum DecodedView {
    Incomplete,
    Frame { body: Seq<u8>, consumed: nat },
    Malformed { consumed: nat },
}

impl View for Decoded {
    type V = DecodedView;

    open spec fn view(&self) -> DecodedView {
        match self {
            Decoded::Incomplete => DecodedView::Incomplete,
            Decoded::Frame { body, consumed } => DecodedView::Frame {
                body: body@,
                consumed: *consumed as nat,
            },
            Decoded::Malformed { consumed } => DecodedView::Malformed { consumed: *consumed as nat },
        }
    }
}

/// What the start of `buf` holds. Until the header terminator has arrived
/// the frame is incomplete. Then the header block either declares the length
/// of the body or is malformed and skipped with its terminator. A frame is
/// whole once the declared number of bytes has followed the terminator.
pub open spec fn decoded(buf: Seq<u8>) -> DecodedView {
    match header_end(buf) {
        None => DecodedView::Incomplete,
        Some(end) => match content_length(buf.subrange(0, end)) {
            None => DecodedView::Malformed { consumed: (end + 4) as nat },
            Some(n) => if buf.len() - (end + 4) < n {
                DecodedView::Incomplete
            } else {
                DecodedView::Frame {
                    body: buf.subrange(end + 4, end + 4 + n),
                    consumed: (end + 4 + n) as nat,
                }
            },
        },
    }
}

/// Appends the length label to `out`.
fn push_length_label(out: &mut Vec<u8>)
    ensures
        final(out)@ == old(out)@ + length_label(),
{
    out.push(67);
    out.push(111);
    out.push(110);
    out.push(116);
    out.push(101);
    out.push(110);
    out.push(116);
    out.push(45);
    out.push(76);
    out.push(101);
    out.push(110);
    out.push(103);
    out.push(116);
    out.push(104);
    out.push(58);
    out.push(32);
    assert(out@ =~= old(out)@ + length_label());
}

/// Frames `body` for the wire: the header line with the exact length of the
/// body, a blank line, and the body.
pub fn encode_frame(body: &[u8]) -> (out: Vec<u8>)
    ensures
        out@ == frame(body@),
{
    let mut out: Vec<u8> = Vec::new();
    push_length_label(&mut out);
    push_decimal(&mut out, body.len() as u64);
    out.push(CR);
    out.push(LF);
    out.push(CR);
    out.push(LF);
    let ghost head = out@;
    assert(head =~= length_label() + decimal_bytes(body@.len()) + terminator());
    let mut i: usize = 0;
    while i < body.len()
        invariant
            i <= body@.len(),
            out@ == head + body@.take(i as int),
        decreases body@.len() - i,
    {
        out.push(body[i]);
        assert(body@.take(i as int + 1) =~= body@.take(i as int).push(body@[i as int]));
        assert(out@ =~= head + body@.take(i as int + 1));
        i = i + 1;
    }
    assert(body@.take(i as int) =~= body@);
    out
}

/// Finds the header terminator.
fn find_header_end(buf: &[u8]) -> (found: Option<usize>)
    ensures
        match found {
            Some(end) => header_end(buf@) == Some(end as int) && end + 4 <= buf@.len(),
            None => header_end(buf@) is None,
        },
{
    let n = buf.len();
    if n < 4 {
        return None;
    }
    let mut i: usize = 0;
    while i <= n - 4
        invariant
            n == buf@.len(),
            4 <= n,
            i <= n - 3,
            header_end(buf@) == header_end_from(buf@, i as int),
        decreases n - i,
    {
        if buf[i] == CR && buf[i + 1] == LF && buf[i + 2] == CR && buf[i + 3] == LF {
            return Some(i);
        }
        i = i + 1;
    }
    None
}

/// Finds the end of the line that starts at `from` in the header block
/// `buf[..block_len]`.
fn find_line_end(buf: &[u8], block_len: usize, from: usize) -> (end: usize)
    requires
        from <= block_len <= buf@.len(),
    ensures
        end == line_end(buf@.subrange(0, block_len as int), from as int),
        from <= end <= block_len,
{
    let ghost block = buf@.subrange(0, block_len as int);
    let mut i: usize = from;
    while i < block_len
        invariant
            from <= i <= block_len <= buf@.len(),
            block == buf@.subrange(0, block_len as int),
            line_end(block, from as int) == line_end(block, i as int),
        decreases block_len - i,
    {
        if i + 1 < block_len && buf[i] == CR && buf[i + 1] == LF {
            return i;
        }
        i = i + 1;
    }
    block_len
}

/// Whether `buf[from..end]` starts with the length label.
fn starts_with_length_label(buf: &[u8], from: usize, end: usize) -> (yes: bool)
    requires
        from <= end <= buf@.len(),
    ensures
        yes == has_length_label(buf@.subrange(from as int, end as int)),
{
    let ghost line = buf@.subrange(from as int, end as int);
    if end - from < 16 {
        return false;
    }
    let yes = buf[from] == 67 && buf[from + 1] == 111 && buf[from + 2] == 110 && buf[from + 3]
        == 116 && buf[from + 4] == 101 && buf[from + 5] == 110 && buf[from + 6] == 116 && buf[from
        + 7] == 45 && buf[from + 8] == 76 && buf[from + 9] == 101 && buf[from + 10] == 110
        && buf[from + 11] == 103 && buf[from + 12] == 116 && buf[from + 13] == 104 && buf[from
        + 14] == 58 && buf[from + 15] == 32;
    proof {
        let head = line.subrange(0, 16);
        let label = length_label();
        if yes {
            assert(head =~= label);
        } else {
            if head == label {
                assert(forall|k: int| 0 <= k < 16 ==> head[k] == label[k]);
                assert(head[0] == label[0]);
                assert(head[1] == label[1]);
                assert(head[2] == label[2]);
                assert(head[3] == label[3]);
                assert(head[4] == label[4]);
                assert(head[5] == label[5]);
                assert(head[6] == label[6]);
                assert(head[7] == label[7]);
                assert(head[8] == label[8]);
                assert(head[9] == label[9]);
                assert(head[10] == label[10]);
                assert(head[11] == label[11]);
                assert(head[12] == label[12]);
                assert(head[13] == label[13]);
                assert(head[14] == label[14]);
                assert(head[15] == label[15]);
            }
        }
    }
    yes
}

/// Values of digit strings grow with each digit.
proof fn lemma_decimal_value_step(digits: Seq<u8>, upto: int)
    requires
        0 <= upto < digits.len(),
    ensures
        decimal_value(digits.take(upto + 1)) == decimal_value(digits.take(upto)) * 10 + (
        digits[upto] - 48) as nat,
{
    assert(digits.take(upto + 1).drop_last() =~= digits.take(upto));
}

/// A digit string is worth at least as much as any of its prefixes.
proof fn lemma_decimal_value_grows(digits: Seq<u8>, upto: int)
    requires
        0 <= upto <= digits.len(),
        forall|i: int| 0 <= i < digits.len() ==> is_digit(#[trigger] digits[i]),
    ensures
        decimal_value(digits.take(upto)) <= decimal_value(digits),
    decreases digits.len() - upto,
{
    if upto == digits.len() {
        assert(digits.take(upto) =~= digits);
    } else {
        lemma_decimal_value_step(digits, upto);
        assert(is_digit(digits[upto]));
        lemma_decimal_value_grows(digits, upto + 1);
    }
}

/// Reads the length that `buf[from..end]` declares.
fn read_declared_length(buf: &[u8], from: usize, end: usize) -> (length: Option<usize>)
    requires
        from <= end <= buf@.len(),
    ensures
        match length {
            Some(n) => declared_length(buf@.subrange(from as int, end as int)) == Some(n as nat),
            None => declared_length(buf@.subrange(from as int, end as int)) is None,
        },
{
    let ghost digits = buf@.subrange(from as int, end as int);
    if from == end {
        return None;
    }
    let mut value: usize = 0;
    let mut i: usize = from;
    while i < end
        invariant
            from <= i <= end <= buf@.len(),
            digits == buf@.subrange(from as int, end as int),
            forall|k: int| 0 <= k < i - from ==> is_digit(#[trigger] digits[k]),
            value == decimal_value(digits.take(i - from)),
        decreases end - i,
    {
        let b = buf[i];
        assert(b == digits[i - from]);
        if b < 48 || b > 57 {
            return None;
        }
        proof {
            lemma_decimal_value_step(digits, i - from);
        }
        let d: usize = (b - 48) as usize;
        let scaled = match value.checked_mul(10) {
            Some(s) => s,
            None => {
                proof {
                    if forall|k: int| 0 <= k < digits.len() ==> is_digit(#[trigger] digits[k]) {
                        lemma_decimal_value_grows(digits, i - from + 1);
                    }
                }
                return None;
            },
        };
        let next = match scaled.checked_add(d) {
            Some(s) => s,
            None => {
                proof {
                    if forall|k: int| 0 <= k < digits.len() ==> is_digit(#[trigger] digits[k]) {
                        lemma_decimal_value_grows(digits, i - from + 1);
                    }
                }
                return None;
            },
        };
        value = next;
        i = i + 1;
    }
    assert(digits.take(i - from) =~= digits);
    Some(value)
}

/// Reads the body length that the header block `buf[..block_len]` declares.
fn read_content_length(buf: &[u8], block_len: usize) -> (length: Option<usize>)
    requires
        block_len + 4 <= buf@.len(),
    ensures
        match length {
            Some(n) => content_length(buf@.subrange(0, block_len as int)) == Some(n as nat),
            None => content_length(buf@.subrange(0, block_len as int)) is None,
        },
{
    let ghost block = buf@.subrange(0, block_len as int);
    let total = buf.len();
    let mut from: usize = 0;
    while from < block_len
        invariant
            total == buf@.len(),
            from <= block_len + 2,
            block_len + 4 <= buf@.len(),
            block == buf@.subrange(0, block_len as int),
            content_length(block) == content_length_from(block, from as int),
        decreases block_len + 2 - from,
    {
        let end = find_line_end(buf, block_len, from);
        assert(block.subrange(from as int, end as int) =~= buf@.subrange(from as int, end as int));
        if starts_with_length_label(buf, from, end) {
            assert(block.subrange(from as int, end as int).skip(16) =~= buf@.subrange(
                from as int + 16,
                end as int,
            ));
            return read_declared_length(buf, from + 16, end);
        }
        from = end + 2;
    }
    None
}

/// Reads one frame from the start of the received bytes `buf`.
pub fn decode_frame(buf: &[u8]) -> (out: Decoded)
    ensures
        out@ == decoded(buf@),
        out matches Decoded::Frame { consumed, .. } ==> 0 < consumed <= buf@.len(),
        out matches Decoded::Malformed { consumed } ==> 0 < consumed <= buf@.len(),
{
    let end = match find_header_end(buf) {
        Some(end) => end,
        None => {
            return Decoded::Incomplete;
        },
    };
    let total = buf.len();
    let start = end + 4;
    match read_content_length(buf, end) {
        None => Decoded::Malformed { consumed: start },
        Some(n) => {
            if total - start < n {
                Decoded::Incomplete
            } else {
                let body = slice_to_vec(slice_subrange(buf, start, start + n));
                Decoded::Frame { body, consumed: start + n }
            }
        },
    }
}


/// The header terminator is found at `at` when it stands there and nowhere
/// between `from` and `at`.
proof fn lemma_header_end_is_first(buf: Seq<u8>, from: int, at: int)
    requires
        0 <= from <= at,
        terminator_at(buf, at),
        forall|j: int| from <= j < at ==> !terminator_at(buf, j),
    ensures
        header_end_from(buf, from) == Some(at),
    decreases at - from,
{
    if from < at {
        assert(!terminator_at(buf, from));
        lemma_header_end_is_first(buf, from + 1, at);
    }
}

/// A block without a carriage return from `from` on is one line from there.
proof fn lemma_line_runs_to_end(block: Seq<u8>, from: int)
    requires
        0 <= from <= block.len(),
        forall|j: int| from <= j < block.len() ==> block[j] != CR,
    ensures
        line_end(block, from) == block.len(),
    decreases block.len() - from,
{
    if from < block.len() {
        assert(block[from] != CR);
        lemma_line_runs_to_end(block, from + 1);
    }
}

/// Decoding undoes framing: from a buffer that starts with the frame of
/// `body`, whatever follows it, the decoder reads exactly `body` and takes
/// exactly the bytes of that frame.
pub proof fn lemma_decode_inverts_encode(body: Seq<u8>, rest: Seq<u8>)
    requires
        body.len() <= usize::MAX,
    ensures
        decoded(frame(body) + rest) == (DecodedView::Frame {
            body,
            consumed: frame(body).len(),
        }),
{
    let n = body.len();
    let digits = decimal_bytes(n);
    let head = length_label() + digits;
    let buf = frame(body) + rest;
    let k = head.len() as int;
    lemma_decimal_bytes_are_digits(n);
    lemma_decimal_round_trip(n);
    assert forall|j: int| 0 <= j < k implies buf[j] != CR by {
        if j < 16 {
            assert(buf[j] == length_label()[j]);
        } else {
            assert(buf[j] == digits[j - 16]);
            assert(is_digit(digits[j - 16]));
        }
    }
    assert(terminator_at(buf, k)) by {
        assert(buf[k] == terminator()[0]);
        assert(buf[k + 1] == terminator()[1]);
        assert(buf[k + 2] == terminator()[2]);
        assert(buf[k + 3] == terminator()[3]);
    }
    lemma_header_end_is_first(buf, 0, k);
    let block = buf.subrange(0, k);
    assert(block =~= head);
    lemma_line_runs_to_end(block, 0);
    assert(block.subrange(0, k).subrange(0, 16) =~= length_label());
    assert(block.subrange(0, k).skip(16) =~= digits);
    assert(declared_length(digits) == Some(n));
    assert(content_length(block) == Some(n));
    assert(buf.subrange(k + 4, k + 4 + n) =~= body);
    assert(frame(body).len() == k + 4 + n);
}

/// The bytes left once what `step` consumed has been dropped from `buf`.
pub open spec fn remaining(buf: Seq<u8>, step: DecodedView) -> Seq<u8> {
    match step {
        DecodedView::Incomplete => buf,
        DecodedView::Frame { consumed, .. } => buf.skip(consumed as int),
        DecodedView::Malformed { consumed } => buf.skip(consumed as int),
    }
}

/// Frames are read one at a time and in the order in which they were
/// written: from a buffer that holds the frame of `first`, then the frame of
/// `second`, then anything, the decoder reads `first` and leaves a buffer
/// from which it reads `second`.
pub proof fn lemma_frames_decode_in_order(first: Seq<u8>, second: Seq<u8>, rest: Seq<u8>)
    requires
        first.len() <= usize::MAX,
        second.len() <= usize::MAX,
    ensures
        ({
            let buf = frame(first) + frame(second) + rest;
            &&& decoded(buf) == (DecodedView::Frame { body: first, consumed: frame(first).len() })
            &&& remaining(buf, decoded(buf)) == frame(second) + rest
            &&& decoded(remaining(buf, decoded(buf))) == (DecodedView::Frame {
                body: second,
                consumed: frame(second).len(),
            })
        }),
{
    let buf = frame(first) + frame(second) + rest;
    assert(buf =~= frame(first) + (frame(second) + rest));
    lemma_decode_inverts_encode(first, frame(second) + rest);
    assert(buf.skip(frame(first).len() as int) =~= frame(second) + rest);
    lemma_decode_inverts_encode(second, rest);
}

/// Bytes received from the backend and not yet read as frames.
#[derive(Debug)]
pub struct FrameBuffer {
    pending: Vec<u8>,
}

impl View for FrameBuffer {
    type V = Seq<u8>;

    closed spec fn view(&self) -> Seq<u8> {
        self.pending@
    }
}

impl FrameBuffer {
    /// An empty buffer.
    pub fn new() -> (buffer: Self)
        ensures
            buffer@ == Seq::<u8>::empty(),
    {
        FrameBuffer { pending: Vec::new() }
    }

    /// Appends bytes as they arrive.
    pub fn extend(&mut self, chunk: &[u8])
        ensures
            final(self)@ == old(self)@ + chunk@,
    {
        let mut i: usize = 0;
        while i < chunk.len()
            invariant
                i <= chunk@.len(),
                self.pending@ == old(self)@ + chunk@.take(i as int),
            decreases chunk@.len() - i,
        {
            self.pending.push(chunk[i]);
            assert(chunk@.take(i as int + 1) =~= chunk@.take(i as int).push(chunk@[i as int]));
            assert(self.pending@ =~= old(self)@ + chunk@.take(i as int + 1));
            i = i + 1;
        }
        assert(chunk@.take(i as int) =~= chunk@);
    }

    /// Number of bytes waiting.
    pub fn len(&self) -> (n: usize)
        ensures
            n == self@.len(),
    {
        self.pending.len()
    }

    /// Reads the next frame, if a whole one has arrived, and drops the bytes
    /// it took; a malformed header block is dropped too. An incomplete frame
    /// stays in the buffer.
    pub fn next_frame(&mut self) -> (step: Decoded)
        ensures
            step@ == decoded(old(self)@),
            final(self)@ == remaining(old(self)@, step@),
    {
        let step = decode_frame(self.pending.as_slice());
        match &step {
            Decoded::Incomplete => {},
            Decoded::Frame { consumed, .. } => {
                let tail = self.pending.split_off(*consumed);
                self.pending = tail;
                assert(self.pending@ =~= old(self)@.skip(*consumed as int));
            },
            Decoded::Malformed { consumed } => {
                let tail = self.pending.split_off(*consumed);
                self.pending = tail;
                assert(self.pending@ =~= old(self)@.skip(*consumed as int));
            },
        }
        step
    }
}

} // verus!
