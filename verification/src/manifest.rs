//! Reading a package manifest.

use vstd::prelude::*;
use vstd::string::StrSliceExecFns;
use vstd::utf8::encode_utf8;

verus! {

/// The name of the crate that marks a project as built on this framework.
pub const FRAMEWORK_CRATE: &'static str = "pino-core";

/// `needle` stands in `haystack` at position `at`.
pub open spec fn occurs_at(haystack: Seq<u8>, needle: Seq<u8>, at: int) -> bool {
    0 <= at && at + needle.len() <= haystack.len() && haystack.subrange(at, at + needle.len())
        == needle
}

/// `needle` stands somewhere in `haystack`.
pub open spec fn occurs(haystack: Seq<u8>, needle: Seq<u8>) -> bool {
    exists|at: int| occurs_at(haystack, needle, at)
}

/// Tells whether `needle` stands at position `at` of `haystack`.
fn matches_at(haystack: &[u8], needle: &[u8], at: usize) -> (r: bool)
    requires
        at + needle@.len() <= haystack@.len() <= usize::MAX,
    ensures
        r == occurs_at(haystack@, needle@, at as int),
{
    let mut i: usize = 0;
    while i < needle.len()
        invariant
            i <= needle@.len(),
            at + needle@.len() <= haystack@.len() <= usize::MAX,
            haystack@.subrange(at as int, at + i) == needle@.subrange(0, i as int),
        decreases needle@.len() - i,
    {
        if haystack[at + i] != needle[i] {
            assert(haystack@.subrange(at as int, at + needle@.len())[i as int] != needle@[i as int]);
            return false;
        }
        assert(haystack@.subrange(at as int, at + i + 1) =~= haystack@.subrange(
            at as int,
            at + i,
        ).push(haystack@[at + i]));
        assert(needle@.subrange(0, i + 1) =~= needle@.subrange(0, i as int).push(needle@[i as int]));
        i += 1;
    }
    assert(needle@.subrange(0, i as int) =~= needle@);
    true
}

/// Tells whether `needle` stands somewhere in `haystack`.
pub fn contains_bytes(haystack: &[u8], needle: &[u8]) -> (r: bool)
    ensures
        r == occurs(haystack@, needle@),
{
    if needle.len() > haystack.len() {
        return false;
    }
    let last = haystack.len() - needle.len();
    let mut at: usize = 0;
    loop
        invariant
            at <= last,
            last + needle@.len() == haystack@.len() <= usize::MAX,
            forall|k: int| 0 <= k < at ==> !occurs_at(haystack@, needle@, k),
        decreases last - at,
    {
        if matches_at(haystack, needle, at) {
            return true;
        }
        if at == last {
            return false;
        }
        at += 1;
    }
}

/// Tells whether a package manifest is that of a project built on this
/// framework: it is where the bytes of [`FRAMEWORK_CRATE`] stand somewhere
/// in it.
pub fn is_pino_manifest(manifest: &str) -> (r: bool)
    ensures
        r == occurs(encode_utf8(manifest@), encode_utf8(FRAMEWORK_CRATE@)),
{
    contains_bytes(manifest.as_bytes(), FRAMEWORK_CRATE.as_bytes())
}

/// White space as Unicode defines it.
pub open spec fn is_space(c: char) -> bool {
    let code = c as u32;
    ||| 0x09 <= code <= 0x0D
    ||| code == 0x20
    ||| code == 0x85
    ||| code == 0xA0
    ||| code == 0x1680
    ||| 0x2000 <= code <= 0x200A
    ||| code == 0x2028
    ||| code == 0x2029
    ||| code == 0x202F
    ||| code == 0x205F
    ||| code == 0x3000
}

/// Tells whether a character is white space.
pub fn char_is_space(c: char) -> (r: bool)
    ensures
        r == is_space(c),
{
    let code = c as u32;
    (0x09 <= code && code <= 0x0D) || code == 0x20 || code == 0x85 || code == 0xA0 || code == 0x1680
        || (0x2000 <= code && code <= 0x200A) || code == 0x2028 || code == 0x2029 || code == 0x202F
        || code == 0x205F || code == 0x3000
}

/// What a scan passes over.
#[derive(Debug, Clone, Copy)]
pub enum Skip {
    /// White space
    Space,
    /// Double quotes
    Quote,
    /// Every character but the given one
    Until(char),
}

impl Skip {
    /// Whether a scan of this kind passes over `c`.
    pub open spec fn passes(self, c: char) -> bool {
        match self {
            Skip::Space => is_space(c),
            Skip::Quote => c == '"',
            Skip::Until(stop) => c != stop,
        }
    }

    /// Tells whether a scan of this kind passes over `c`.
    pub fn passes_over(self, c: char) -> (r: bool)
        ensures
            r == self.passes(c),
    {
        match self {
            Skip::Space => char_is_space(c),
            Skip::Quote => c == '"',
            Skip::Until(stop) => c != stop,
        }
    }
}

/// The first position from `from` on, and before `to`, whose character
/// the scan does not pass over; `to` where there is none.
pub open spec fn skip_forward(text: Seq<char>, from: int, to: int, skip: Skip) -> int
    decreases to - from,
{
    if from >= to {
        to
    } else if skip.passes(text[from]) {
        skip_forward(text, from + 1, to, skip)
    } else {
        from
    }
}

/// The end of the last character before `to`, and not before `from`, that
/// the scan does not pass over; `from` where there is none.
pub open spec fn skip_backward(text: Seq<char>, from: int, to: int, skip: Skip) -> int
    decreases to - from,
{
    if from >= to {
        from
    } else if skip.passes(text[to - 1]) {
        skip_backward(text, from, to - 1, skip)
    } else {
        to
    }
}

/// The two ends of the name that the line from `start` to `end` gives the
/// project, if it gives one.
///
/// It gives one where, white space at its front aside, it starts with
/// `name` and holds an equals sign. The name is what stands between that
/// sign and the next one, or the end of the line, without the white space
/// and then the double quotes at its two ends.
pub open spec fn name_in_line(text: Seq<char>, start: int, end: int) -> Option<(int, int)> {
    let front = skip_forward(text, start, end, Skip::Space);
    let sign = skip_forward(text, start, end, Skip::Until('='));
    if front + 4 <= end && text.subrange(front, front + 4) == seq!['n', 'a', 'm', 'e'] && sign
        < end {
        let stop = skip_forward(text, sign + 1, end, Skip::Until('='));
        let a = skip_forward(text, sign + 1, stop, Skip::Space);
        let b = skip_backward(text, a, stop, Skip::Space);
        let a2 = skip_forward(text, a, b, Skip::Quote);
        let b2 = skip_backward(text, a2, b, Skip::Quote);
        Some((a2, b2))
    } else {
        None
    }
}

/// The name that a package manifest gives the project: that of the first
/// of its lines, from `start` on, which gives one. Lines end at a line
/// feed.
pub open spec fn name_from(text: Seq<char>, start: int) -> Option<Seq<char>>
    decreases text.len() - start,
{
    if start >= text.len() || start < 0 {
        None
    } else {
        let end = skip_forward(text, start, text.len() as int, Skip::Until('\n'));
        if name_in_line(text, start, end) is Some {
            let (a, b) = name_in_line(text, start, end)->0;
            Some(text.subrange(a, b))
        } else if start <= end < text.len() {
            name_from(text, end + 1)
        } else {
            None
        }
    }
}

/// Scans forward from `from` to `to`.
fn scan_forward(text: &str, from: usize, to: usize, skip: Skip) -> (r: usize)
    requires
        from <= to <= text@.len(),
    ensures
        r == skip_forward(text@, from as int, to as int, skip),
        from <= r <= to,
{
    let mut i = from;
    while i < to
        invariant
            from <= i <= to <= text@.len(),
            skip_forward(text@, from as int, to as int, skip) == skip_forward(
                text@,
                i as int,
                to as int,
                skip,
            ),
        decreases to - i,
    {
        if !skip.passes_over(text.get_char(i)) {
            return i;
        }
        i += 1;
    }
    i
}

/// Scans backward from `to` to `from`.
fn scan_backward(text: &str, from: usize, to: usize, skip: Skip) -> (r: usize)
    requires
        from <= to <= text@.len(),
    ensures
        r == skip_backward(text@, from as int, to as int, skip),
        from <= r <= to,
{
    let mut i = to;
    while i > from
        invariant
            from <= i <= to <= text@.len(),
            skip_backward(text@, from as int, to as int, skip) == skip_backward(
                text@,
                from as int,
                i as int,
                skip,
            ),
        decreases i - from,
    {
        if !skip.passes_over(text.get_char(i - 1)) {
            return i;
        }
        i -= 1;
    }
    i
}

/// Tells whether the four characters from `at` on spell `name`.
fn spells_name(text: &str, at: usize) -> (r: bool)
    requires
        at + 4 <= text@.len() <= usize::MAX,
    ensures
        r == (text@.subrange(at as int, at + 4) == seq!['n', 'a', 'm', 'e']),
{
    let r = text.get_char(at) == 'n' && text.get_char(at + 1) == 'a' && text.get_char(at + 2) == 'm'
        && text.get_char(at + 3) == 'e';
    proof {
        let part = text@.subrange(at as int, at + 4);
        if r {
            assert(part =~= seq!['n', 'a', 'm', 'e']);
        } else {
            assert(part[0] == text@[at as int] && part[1] == text@[at + 1] && part[2] == text@[at
                + 2] && part[3] == text@[at + 3]);
        }
    }
    r
}

/// Finds the two ends of the name that the line from `start` to `end`
/// gives the project.
fn find_name_in_line(text: &str, start: usize, end: usize) -> (r: Option<(usize, usize)>)
    requires
        start <= end <= text@.len() <= usize::MAX,
    ensures
        match r {
            Some((a, b)) => name_in_line(text@, start as int, end as int) == Some((a as int, b as int))
                && a <= b <= end,
            None => name_in_line(text@, start as int, end as int) is None,
        },
{
    let front = scan_forward(text, start, end, Skip::Space);
    let sign = scan_forward(text, start, end, Skip::Until('='));
    if end - front < 4 || sign >= end {
        return None;
    }
    if !spells_name(text, front) {
        return None;
    }
    let stop = scan_forward(text, sign + 1, end, Skip::Until('='));
    let a = scan_forward(text, sign + 1, stop, Skip::Space);
    let b = scan_backward(text, a, stop, Skip::Space);
    let a2 = scan_forward(text, a, b, Skip::Quote);
    let b2 = scan_backward(text, a2, b, Skip::Quote);
    Some((a2, b2))
}

/// Get the project name from the text of a package manifest, as
/// [`name_from`] says; `None` where no line gives one.
pub fn project_name(manifest: &str) -> (r: Option<String>)
    ensures
        match r {
            Some(name) => name_from(manifest@, 0) == Some(name@),
            None => name_from(manifest@, 0) is None,
        },
{
    let len = manifest.unicode_len();
    let mut start: usize = 0;
    while start < len
        invariant
            len == manifest@.len(),
            name_from(manifest@, 0) == name_from(manifest@, start as int),
        decreases len - start,
    {
        let end = scan_forward(manifest, start, len, Skip::Until('\n'));
        match find_name_in_line(manifest, start, end) {
            Some((a, b)) => {
                return Some(manifest.substring_char(a, b).to_string());
            },
            None => {},
        }
        if end >= len {
            return None;
        }
        start = end + 1;
    }
    None
}

} // verus!
