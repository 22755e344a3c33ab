//! The HTTP framing of a track's data stream.
//!
//! The server sends the request headers for each track. The player counts
//! their line ends, sends them off with surrounding white space removed and
//! a blank line behind them, and skips the response headers up to the first
//! blank line before it hands the stream to the container probe.

use vstd::prelude::*;

verus! {

pub const CR: u8 = 13;

pub const LF: u8 = 10;

/// How many of the first `n` bytes of `s` end a CR LF pair.
pub open spec fn crlf_ends(s: Seq<u8>, n: int) -> nat
    decreases n,
{
    if n < 2 || n > s.len() {
        0
    } else if s[n - 2] == CR && s[n - 1] == LF {
        crlf_ends(s, n - 1) + 1
    } else {
        crlf_ends(s, n - 1)
    }
}

/// Number of CR LF pairs in `s`.
pub open spec fn spec_count_crlf(s: Seq<u8>) -> nat {
    crlf_ends(s, s.len() as int)
}

/// Count the CR LF pairs in a block of headers.
pub fn count_crlf(headers: &[u8]) -> (count: usize)
    ensures
        count == spec_count_crlf(headers@),
{
    if headers.len() < 2 {
        return 0;
    }
    let mut count: usize = 0;
    let mut n: usize = 1;
    while n < headers.len()
        invariant
            1 <= n <= headers.len(),
            count == crlf_ends(headers@, n as int),
            count <= n,
        decreases headers.len() - n,
    {
        n = n + 1;
        if headers[n - 2] == CR && headers[n - 1] == LF {
            count = count + 1;
        }
    }
    count
}

/// Whether `b` encodes a white-space character by itself.
pub open spec fn is_space1(b: u8) -> bool {
    (9 <= b <= 13) || b == 32
}

/// Whether `a b` encodes a white-space character (U+0085 or U+00A0).
pub open spec fn is_space2(a: u8, b: u8) -> bool {
    a == 0xC2 && (b == 0x85 || b == 0xA0)
}

/// Whether `a b c` encodes a white-space character (U+1680, U+2000 to
/// U+200A, U+2028, U+2029, U+202F, U+205F or U+3000).
pub open spec fn is_space3(a: u8, b: u8, c: u8) -> bool {
    ||| a == 0xE1 && b == 0x9A && c == 0x80
    ||| a == 0xE2 && b == 0x80 && (0x80 <= c <= 0x8A || c == 0xA8 || c == 0xA9 || c == 0xAF)
    ||| a == 0xE2 && b == 0x81 && c == 0x9F
    ||| a == 0xE3 && b == 0x80 && c == 0x80
}

/// Length of the white-space character encoded at the front of `s`, or 0.
pub open spec fn space_at_front(s: Seq<u8>) -> nat {
    if s.len() >= 1 && is_space1(s[0]) {
        1
    } else if s.len() >= 2 && is_space2(s[0], s[1]) {
        2
    } else if s.len() >= 3 && is_space3(s[0], s[1], s[2]) {
        3
    } else {
        0
    }
}

/// Length of the white-space character encoded at the back of `s`, or 0.
pub open spec fn space_at_back(s: Seq<u8>) -> nat {
    let n = s.len() as int;
    if n >= 1 && is_space1(s[n - 1]) {
        1
    } else if n >= 2 && is_space2(s[n - 2], s[n - 1]) {
        2
    } else if n >= 3 && is_space3(s[n - 3], s[n - 2], s[n - 1]) {
        3
    } else {
        0
    }
}

/// `s` without the white space at its front.
pub open spec fn trim_front(s: Seq<u8>) -> Seq<u8>
    decreases s.len(),
{
    let n = space_at_front(s);
    if n == 0 {
        s
    } else {
        trim_front(s.skip(n as int))
    }
}

/// `s` without the white space at its back.
pub open spec fn trim_back(s: Seq<u8>) -> Seq<u8>
    decreases s.len(),
{
    let n = space_at_back(s);
    if n == 0 {
        s
    } else {
        trim_back(s.take(s.len() - n))
    }
}

/// `s` without the white space at either end.
pub open spec fn spec_trim(s: Seq<u8>) -> Seq<u8> {
    trim_back(trim_front(s))
}

/// The bytes of the request for a track: the headers without the white
/// space around them, then an empty line.
pub open spec fn spec_request_bytes(headers: Seq<u8>) -> Seq<u8> {
    spec_trim(headers) + seq![CR, LF, CR, LF]
}

fn is_space1_exec(b: u8) -> (r: bool)
    ensures
        r == is_space1(b),
{
    (9 <= b && b <= 13) || b == 32
}

fn is_space2_exec(a: u8, b: u8) -> (r: bool)
    ensures
        r == is_space2(a, b),
{
    a == 0xC2 && (b == 0x85 || b == 0xA0)
}

fn is_space3_exec(a: u8, b: u8, c: u8) -> (r: bool)
    ensures
        r == is_space3(a, b, c),
{
    (a == 0xE1 && b == 0x9A && c == 0x80) || (a == 0xE2 && b == 0x80 && ((0x80 <= c && c <= 0x8A)
        || c == 0xA8 || c == 0xA9 || c == 0xAF)) || (a == 0xE2 && b == 0x81 && c == 0x9F) || (a
        == 0xE3 && b == 0x80 && c == 0x80)
}

/// Length of the white-space character that starts at `from`, or 0.
fn space_from(data: &[u8], from: usize, to: usize) -> (n: usize)
    requires
        from <= to <= data.len(),
    ensures
        n == space_at_front(data@.subrange(from as int, to as int)),
        from + n <= to,
{
    let len = to - from;
    if len >= 1 && is_space1_exec(data[from]) {
        1
    } else if len >= 2 && is_space2_exec(data[from], data[from + 1]) {
        2
    } else if len >= 3 && is_space3_exec(data[from], data[from + 1], data[from + 2]) {
        3
    } else {
        0
    }
}

/// Length of the white-space character that ends at `to`, or 0.
fn space_until(data: &[u8], from: usize, to: usize) -> (n: usize)
    requires
        from <= to <= data.len(),
    ensures
        n == space_at_back(data@.subrange(from as int, to as int)),
        from + n <= to,
{
    let len = to - from;
    if len >= 1 && is_space1_exec(data[to - 1]) {
        1
    } else if len >= 2 && is_space2_exec(data[to - 2], data[to - 1]) {
        2
    } else if len >= 3 && is_space3_exec(data[to - 3], data[to - 2], data[to - 1]) {
        3
    } else {
        0
    }
}

/// Where `data` starts and ends once the white space around it is removed.
pub fn trim(data: &[u8]) -> (range: (usize, usize))
    ensures
        range.0 <= range.1 <= data.len(),
        data@.subrange(range.0 as int, range.1 as int) == spec_trim(data@),
{
    let len = data.len();
    let mut from: usize = 0;
    assert(data@ =~= data@.subrange(0, len as int));
    loop
        invariant
            from <= len,
            len == data.len(),
            trim_front(data@) == trim_front(data@.subrange(from as int, len as int)),
        ensures
            from <= len,
            trim_front(data@) == data@.subrange(from as int, len as int),
        decreases len - from,
    {
        let n = space_from(data, from, len);
        if n == 0 {
            break;
        }
        proof {
            let rest = data@.subrange(from as int, len as int);
            assert(rest.skip(n as int) =~= data@.subrange(from + n, len as int));
        }
        from = from + n;
    }
    let mut to: usize = len;
    loop
        invariant
            from <= to <= len,
            len == data.len(),
            spec_trim(data@) == trim_back(data@.subrange(from as int, to as int)),
        ensures
            from <= to <= len,
            spec_trim(data@) == data@.subrange(from as int, to as int),
        decreases to - from,
    {
        let n = space_until(data, from, to);
        if n == 0 {
            break;
        }
        proof {
            let rest = data@.subrange(from as int, to as int);
            assert(rest.take(rest.len() - n) =~= data@.subrange(from as int, to - n));
        }
        to = to - n;
    }
    (from, to)
}

/// Build the bytes of the request for a track from the headers that the
/// server sent for it.
pub fn request_bytes(headers: &[u8]) -> (request: Vec<u8>)
    ensures
        request@ == spec_request_bytes(headers@),
{
    let (from, to) = trim(headers);
    let mut request: Vec<u8> = Vec::new();
    let mut i: usize = from;
    while i < to
        invariant
            from <= i <= to <= headers.len(),
            request@ == headers@.subrange(from as int, i as int),
        decreases to - i,
    {
        request.push(headers[i]);
        i = i + 1;
    }
    request.push(CR);
    request.push(LF);
    request.push(CR);
    request.push(LF);
    assert(request@ =~= spec_request_bytes(headers@));
    request
}

/// How far the response headers have been read.
#[derive(Clone, Copy, Debug, PartialEq, Eq, Structural)]
pub enum HeaderScan {
    /// At the start of a line.
    LineStart,
    /// Behind a carriage return that started a line.
    SawCr,
    /// Inside a line that is not blank.
    InLine,
    /// Behind the blank line that ends the headers.
    Done,
}

impl HeaderScan {
    /// The state after one more byte.
    pub open spec fn spec_step(self, b: u8) -> HeaderScan {
        match self {
            HeaderScan::LineStart => if b == CR {
                HeaderScan::SawCr
            } else if b == LF {
                HeaderScan::LineStart
            } else {
                HeaderScan::InLine
            },
            HeaderScan::SawCr => if b == LF {
                HeaderScan::Done
            } else {
                HeaderScan::InLine
            },
            HeaderScan::InLine => if b == LF {
                HeaderScan::LineStart
            } else {
                HeaderScan::InLine
            },
            HeaderScan::Done => HeaderScan::Done,
        }
    }

    /// The state after the bytes of `s`.
    pub open spec fn scan(self, s: Seq<u8>) -> HeaderScan
        decreases s.len(),
    {
        if s.len() == 0 {
            self
        } else {
            self.scan(s.drop_last()).spec_step(s.last())
        }
    }

    /// The state after one more byte.
    pub fn step(self, b: u8) -> (next: HeaderScan)
        ensures
            next == self.spec_step(b),
    {
        match self {
            HeaderScan::LineStart => if b == CR {
                HeaderScan::SawCr
            } else if b == LF {
                HeaderScan::LineStart
            } else {
                HeaderScan::InLine
            },
            HeaderScan::SawCr => if b == LF {
                HeaderScan::Done
            } else {
                HeaderScan::InLine
            },
            HeaderScan::InLine => if b == LF {
                HeaderScan::LineStart
            } else {
                HeaderScan::InLine
            },
            HeaderScan::Done => HeaderScan::Done,
        }
    }

    /// Read response headers from the next chunk of the stream.
    ///
    /// Returns the state behind the bytes read and their number. Reading
    /// stops behind the blank line: the bytes of the chunk after that are
    /// audio data and are left alone. A chunk without the blank line is
    /// read to its end.
    pub fn feed(self, chunk: &[u8]) -> (read: (HeaderScan, usize))
        ensures
            read.1 <= chunk.len(),
            read.0 == self.scan(chunk@.take(read.1 as int)),
            forall|k: int| 0 <= k < read.1 ==> !(#[trigger] self.scan(chunk@.take(k)) is Done),
            read.0 is Done || read.1 == chunk.len(),
    {
        let mut state = self;
        let mut used: usize = 0;
        proof {
            assert(chunk@.take(0).len() == 0);
        }
        while used < chunk.len() && !matches!(state, HeaderScan::Done)
            invariant
                used <= chunk.len(),
                state == self.scan(chunk@.take(used as int)),
                forall|k: int| 0 <= k < used ==> !(#[trigger] self.scan(chunk@.take(k)) is Done),
            decreases chunk.len() - used,
        {
            proof {
                let longer = chunk@.take(used + 1);
                assert(longer.drop_last() =~= chunk@.take(used as int));
                assert(longer.last() == chunk@[used as int]);
            }
            state = state.step(chunk[used]);
            used = used + 1;
        }
        (state, used)
    }
}

/// Whether a blank line (a line that is CR LF and nothing else) ends at `p`.
pub open spec fn blank_line_ends_at(s: Seq<u8>, p: int) -> bool {
    &&& 2 <= p <= s.len()
    &&& s[p - 2] == CR
    &&& s[p - 1] == LF
    &&& (p == 2 || s[p - 3] == LF)
}

/// Whether CR LF CR LF stands at `i`.
pub open spec fn terminator_at(s: Seq<u8>, i: int) -> bool {
    &&& 0 <= i
    &&& i + 4 <= s.len()
    &&& s[i] == CR
    &&& s[i + 1] == LF
    &&& s[i + 2] == CR
    &&& s[i + 3] == LF
}

/// What the scan state says about the bytes read so far, as long as no
/// blank line has ended among them.
pub open spec fn state_matches(s: Seq<u8>, state: HeaderScan) -> bool {
    let n = s.len() as int;
    match state {
        HeaderScan::LineStart => n == 0 || s[n - 1] == LF,
        HeaderScan::SawCr => n >= 1 && s[n - 1] == CR && (n == 1 || s[n - 2] == LF),
        HeaderScan::InLine => n >= 1 && s[n - 1] != LF && !(s[n - 1] == CR && (n == 1 || s[n - 2]
            == LF)),
        HeaderScan::Done => false,
    }
}

/// Scanning from the start of a line ends exactly behind the first blank
/// line: the scan of the first `p` bytes is done if and only if a blank
/// line ends at or before `p`.
pub proof fn lemma_scan_finds_blank_line(s: Seq<u8>, p: int)
    requires
        0 <= p <= s.len(),
    ensures
        HeaderScan::LineStart.scan(s.take(p)) is Done <==> exists|q: int|
            q <= p && #[trigger] blank_line_ends_at(s, q),
        !(HeaderScan::LineStart.scan(s.take(p)) is Done) ==> state_matches(
            s.take(p),
            HeaderScan::LineStart.scan(s.take(p)),
        ),
    decreases p,
{
    let start = HeaderScan::LineStart;
    if p == 0 {
        assert(s.take(0).len() == 0);
    } else {
        lemma_scan_finds_blank_line(s, p - 1);
        let shorter = s.take(p - 1);
        let longer = s.take(p);
        assert(longer.drop_last() =~= shorter);
        assert(longer.last() == s[p - 1]);
        let before = start.scan(shorter);
        let after = start.scan(longer);
        assert(after == before.spec_step(s[p - 1]));
        if before is Done {
            let q = choose|q: int| q <= p - 1 && #[trigger] blank_line_ends_at(s, q);
            assert(q <= p && blank_line_ends_at(s, q));
        } else {
            assert(state_matches(shorter, before));
            assert(forall|q: int| q <= p - 1 ==> !#[trigger] blank_line_ends_at(s, q));
            if after is Done {
                assert(before is SawCr);
                assert(s[p - 1] == LF);
                assert(shorter[p - 2] == CR);
                assert(blank_line_ends_at(s, p));
            } else {
                assert(!blank_line_ends_at(s, p)) by {
                    if blank_line_ends_at(s, p) {
                        assert(shorter[p - 2] == CR);
                        if p > 2 {
                            assert(shorter[p - 3] == LF);
                        }
                        assert(before is SawCr);
                    }
                }
                assert forall|q: int| q <= p implies !#[trigger] blank_line_ends_at(s, q) by {
                    if q <= p - 1 {
                    }
                }
                assert(state_matches(longer, after)) by {
                    assert(longer[p - 1] == s[p - 1]);
                    if p >= 2 {
                        assert(longer[p - 2] == shorter[p - 2]);
                    }
                }
            }
        }
    }
}

/// Where the line before the blank line ends in CR LF, the data starts
/// right behind the first CR LF CR LF: if the scan is first done after `p`
/// bytes and a carriage return stands four bytes before `p`, then
/// CR LF CR LF stands at `p - 4` and nowhere before.
pub proof fn lemma_data_starts_past_terminator(s: Seq<u8>, p: int)
    requires
        4 <= p <= s.len(),
        HeaderScan::LineStart.scan(s.take(p)) is Done,
        forall|k: int| 0 <= k < p ==> !(#[trigger] HeaderScan::LineStart.scan(s.take(k)) is Done),
        s[p - 4] == CR,
    ensures
        terminator_at(s, p - 4),
        forall|i: int| 0 <= i < p - 4 ==> !#[trigger] terminator_at(s, i),
{
    lemma_scan_finds_blank_line(s, p);
    lemma_scan_finds_blank_line(s, p - 1);
    let q = choose|q: int| q <= p && #[trigger] blank_line_ends_at(s, q);
    assert(q == p) by {
        if q < p {
            assert(q <= p - 1 && blank_line_ends_at(s, q));
        }
    }
    assert forall|i: int| 0 <= i < p - 4 implies !#[trigger] terminator_at(s, i) by {
        if terminator_at(s, i) {
            assert(blank_line_ends_at(s, i + 4));
            assert(i + 4 <= p - 1);
        }
    }
}

/// A stream in which the scan is never done holds no CR LF CR LF.
pub proof fn lemma_no_blank_line_no_terminator(s: Seq<u8>, i: int)
    requires
        !(HeaderScan::LineStart.scan(s) is Done),
    ensures
        !terminator_at(s, i),
{
    lemma_scan_finds_blank_line(s, s.len() as int);
    assert(s.take(s.len() as int) =~= s);
    if terminator_at(s, i) {
        assert(blank_line_ends_at(s, i + 4));
    }
}

} // verus!
