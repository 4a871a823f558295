use vstd::prelude::*;

verus! {

/// How many leading bytes of a file decide whether it is text.
pub const SNIFF_LEN: usize = 512;

/// How many lines of a text file are shown at most.
pub const PREVIEW_LINES: usize = 20;

/// What was read from the start of a file: the bytes of a first read of at
/// most `SNIFF_LEN` bytes, and then, from the start again, the first lines
/// (at most `PREVIEW_LINES`), each `None` where it could not be decoded.
pub struct FileSample {
    pub head: Vec<u8>,
    pub lines: Vec<Option<String>>,
}

pub open spec fn starts_with(b: Seq<u8>, p: Seq<u8>) -> bool {
    p.len() <= b.len() && b.take(p.len() as int) == p
}

/// Whether `b` opens with one of the byte order marks of UTF-8, UTF-16 or UTF-32.
pub open spec fn has_bom(b: Seq<u8>) -> bool {
    starts_with(b, seq![0xEFu8, 0xBBu8, 0xBFu8]) || starts_with(b, seq![0x00u8, 0x00u8, 0xFEu8, 0xFFu8])
        || starts_with(b, seq![0xFFu8, 0xFEu8, 0x00u8, 0x00u8]) || starts_with(b, seq![0xFEu8, 0xFFu8])
        || starts_with(b, seq![0xFFu8, 0xFEu8])
}

/// Whether content opening with `b` is taken for binary: it has no byte order
/// mark, and either a null byte among its first 1024 bytes or the magic number
/// of PDF or PNG at its start.
pub open spec fn looks_binary(b: Seq<u8>) -> bool {
    !has_bom(b) && ((exists|i: int| 0 <= i < b.len() && i < 1024 && b[i] == 0u8) || starts_with(
        b,
        seq![0x25u8, 0x50u8, 0x44u8, 0x46u8],
    ) || starts_with(b, seq![0x89u8, 0x50u8, 0x4Eu8, 0x47u8]))
}

/// Relies on content_inspector::inspect, and ContentType::is_binary on its
/// result: a buffer with a byte order mark is text; otherwise one with a null
/// byte in its first 1024 bytes, or opening with `%PDF` or `\x89PNG`, is binary.
#[verifier::external_body]
fn inspect_is_binary(buf: &[u8]) -> (r: bool)
    ensures
        r == looks_binary(buf@),
{
    content_inspector::inspect(buf).is_binary()
}

pub open spec fn line_views(s: Seq<Option<String>>) -> Seq<Option<Seq<char>>> {
    s.map_values(|o: Option<String>| match o {
        Some(l) => Some(l@),
        None => None,
    })
}

/// The lines that could be decoded, in order.
pub open spec fn readable(s: Seq<Option<Seq<char>>>) -> Seq<Seq<char>>
    decreases s.len(),
{
    if s.len() == 0 {
        Seq::empty()
    } else {
        match s.last() {
            Some(l) => readable(s.drop_last()).push(l),
            None => readable(s.drop_last()),
        }
    }
}

pub open spec fn min(a: int, b: int) -> int {
    if a < b {
        a
    } else {
        b
    }
}

/// The preview of a file whose sample is `head` and `lines`: nothing for
/// binary content, else the decodable lines among the first `PREVIEW_LINES`.
pub open spec fn preview(head: Seq<u8>, lines: Seq<Option<Seq<char>>>) -> Option<Seq<Seq<char>>> {
    if looks_binary(head.take(min(head.len() as int, SNIFF_LEN as int))) {
        None
    } else {
        Some(readable(lines.take(min(lines.len() as int, PREVIEW_LINES as int))))
    }
}

/// `r` holds the lines of `p`, or nothing where `p` is nothing.
pub open spec fn lines_match(r: Option<Vec<String>>, p: Option<Seq<Seq<char>>>) -> bool {
    match p {
        None => r is None,
        Some(p) => r matches Some(v) && v@.map_values(|l: String| l@) == p,
    }
}

/// The first `SNIFF_LEN` bytes of `head`.
fn sniff_prefix(head: &Vec<u8>) -> (r: Vec<u8>)
    ensures
        r@ == head@.take(min(head.len() as int, SNIFF_LEN as int)),
{
    let n: usize = if head.len() < SNIFF_LEN {
        head.len()
    } else {
        SNIFF_LEN
    };
    let mut r: Vec<u8> = Vec::new();
    let mut i: usize = 0;
    while i < n
        invariant
            n <= head.len(),
            n == min(head.len() as int, SNIFF_LEN as int),
            i <= n,
            r@ == head@.take(i as int),
        decreases n - i,
    {
        r.push(head[i]);
        i += 1;
        assert(r@ =~= head@.take(i as int));
    }
    r
}

/// What a file shows in the preview pane: `None` where its first bytes look
/// binary, else the lines that could be decoded among its first `PREVIEW_LINES`.
pub fn preview_text(sample: &FileSample) -> (r: Option<Vec<String>>)
    ensures
        lines_match(r, preview(sample.head@, line_views(sample.lines@))),
{
    let head = sniff_prefix(&sample.head);
    if inspect_is_binary(head.as_slice()) {
        return None;
    }
    let ghost s = line_views(sample.lines@);
    let n: usize = if sample.lines.len() < PREVIEW_LINES {
        sample.lines.len()
    } else {
        PREVIEW_LINES
    };
    let mut r: Vec<String> = Vec::new();
    let mut i: usize = 0;
    while i < n
        invariant
            s == line_views(sample.lines@),
            n <= sample.lines.len(),
            n == min(sample.lines.len() as int, PREVIEW_LINES as int),
            i <= n,
            r@.map_values(|l: String| l@) == readable(s.take(i as int)),
        decreases n - i,
    {
        proof {
            assert(s.take(i + 1).drop_last() =~= s.take(i as int));
        }
        let ghost before = r@;
        match &sample.lines[i] {
            Some(l) => {
                r.push(l.clone());
                assert(r@.map_values(|l: String| l@) =~= before.map_values(|l: String| l@).push(
                    l@,
                ));
            },
            None => {},
        }
        i += 1;
    }
    Some(r)
}

} // verus!
