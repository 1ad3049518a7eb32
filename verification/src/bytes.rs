//! Search in byte strings, and the upkeep of a marked section of a text
//! file.

use vstd::prelude::*;
use vstd::slice::slice_subrange;
use vstd::string::StringSliceAdditionalSpecFns;

verus! {

/// Whether `needle` stands at `at` in `hay`.
pub open spec fn matches_at(hay: Seq<u8>, needle: Seq<u8>, at: int) -> bool {
    0 <= at && at + needle.len() <= hay.len() && hay.subrange(at, at + needle.len()) == needle
}

/// The first position at or after `from` where `needle` stands in `hay`.
pub open spec fn first_match_from(hay: Seq<u8>, needle: Seq<u8>, from: int) -> Option<int>
    decreases hay.len() - from,
{
    if from < 0 || from + needle.len() > hay.len() {
        None
    } else if matches_at(hay, needle, from) {
        Some(from)
    } else if from >= hay.len() {
        None
    } else {
        first_match_from(hay, needle, from + 1)
    }
}

/// The first position where `needle` stands in `hay`.
pub open spec fn first_match(hay: Seq<u8>, needle: Seq<u8>) -> Option<int> {
    first_match_from(hay, needle, 0)
}

/// Whether `needle` stands somewhere in `hay`.
pub open spec fn contains_bytes(hay: Seq<u8>, needle: Seq<u8>) -> bool {
    first_match(hay, needle) is Some
}

/// What the search finds is the first place where the needle stands: it
/// stands there, and nowhere before.
pub proof fn lemma_first_match_is_first(hay: Seq<u8>, needle: Seq<u8>, from: int)
    requires
        0 <= from,
    ensures
        match first_match_from(hay, needle, from) {
            Some(at) => from <= at && matches_at(hay, needle, at) && forall|k: int|
                from <= k < at ==> !matches_at(hay, needle, k),
            None => forall|k: int| from <= k ==> !matches_at(hay, needle, k),
        },
    decreases hay.len() - from,
{
    if from + needle.len() <= hay.len() && !matches_at(hay, needle, from) && from < hay.len() {
        lemma_first_match_is_first(hay, needle, from + 1);
    }
    if from >= hay.len() {
        assert forall|k: int| from < k implies !matches_at(hay, needle, k) by {}
        if from + needle.len() <= hay.len() {
            assert(hay.subrange(from, from + needle.len()) =~= needle);
        }
    }
}

fn stands_at(hay: &[u8], needle: &[u8], at: usize) -> (yes: bool)
    requires
        at + needle@.len() <= hay@.len(),
    ensures
        yes == matches_at(hay@, needle@, at as int),
{
    let n = needle.len();
    let h = hay.len();
    let mut k: usize = 0;
    while k < n
        invariant
            n == needle@.len(),
            h == hay@.len(),
            at + n <= hay@.len(),
            k <= n,
            forall|j: int| 0 <= j < k ==> hay@[at + j] == needle@[j],
        decreases n - k,
    {
        if hay[at + k] != needle[k] {
            proof {
                let part = hay@.subrange(at as int, at + n);
                if part == needle@ {
                    assert(part[k as int] == needle@[k as int]);
                }
            }
            return false;
        }
        k = k + 1;
    }
    assert(hay@.subrange(at as int, at + n) =~= needle@);
    true
}

/// Finds the first place where `needle` stands in `hay`.
pub fn find_bytes(hay: &[u8], needle: &[u8]) -> (found: Option<usize>)
    ensures
        match found {
            Some(at) => first_match(hay@, needle@) == Some(at as int) && at + needle@.len()
                <= hay@.len(),
            None => first_match(hay@, needle@) is None,
        },
{
    let h = hay.len();
    let n = needle.len();
    if n > h {
        return None;
    }
    let last = h - n;
    let mut i: usize = 0;
    loop
        invariant
            h == hay@.len(),
            n == needle@.len(),
            n <= h,
            last == h - n,
            i <= last,
            first_match(hay@, needle@) == first_match_from(hay@, needle@, i as int),
        decreases last - i,
    {
        if stands_at(hay, needle, i) {
            return Some(i);
        }
        if i == last {
            return None;
        }
        i = i + 1;
    }
}

/// Whether the text `text` holds `needle`.
pub fn text_contains(text: &str, needle: &str) -> (yes: bool)
    ensures
        yes == contains_bytes(text.spec_bytes(), needle.spec_bytes()),
{
    find_bytes(text.as_bytes(), needle.as_bytes()).is_some()
}

/// Line feed.
pub const NEWLINE: u8 = 10;

/// Where the marked section of `content` ends: after the first end marker,
/// or at the end of `content` where there is none.
pub open spec fn section_end(content: Seq<u8>, end_marker: Seq<u8>) -> int {
    match first_match(content, end_marker) {
        Some(at) => at + end_marker.len(),
        None => content.len() as int,
    }
}

/// `content` with a line feed at its end, added where it has none.
pub open spec fn newline_ended(content: Seq<u8>) -> Seq<u8> {
    if content.len() > 0 && content.last() == NEWLINE {
        content
    } else {
        content.push(NEWLINE)
    }
}

/// The file after the section was installed. A file that is missing is
/// created from the header and the section. In a file that has the marker,
/// the text from the marker to the end of the section gives way to the new
/// section. To any other file the section is appended after an empty line.
pub open spec fn installed(
    existing: Option<Seq<u8>>,
    header: Seq<u8>,
    marker: Seq<u8>,
    end_marker: Seq<u8>,
    section: Seq<u8>,
) -> Seq<u8> {
    match existing {
        None => header + section + seq![NEWLINE],
        Some(content) => match first_match(content, marker) {
            Some(start) => content.subrange(0, start) + section + content.subrange(
                section_end(content, end_marker),
                content.len() as int,
            ),
            None => newline_ended(content) + seq![NEWLINE] + section + seq![NEWLINE],
        },
    }
}

fn append(out: &mut Vec<u8>, bytes: &[u8])
    ensures
        final(out)@ == old(out)@ + bytes@,
{
    let mut i: usize = 0;
    while i < bytes.len()
        invariant
            i <= bytes@.len(),
            out@ == old(out)@ + bytes@.take(i as int),
        decreases bytes@.len() - i,
    {
        out.push(bytes[i]);
        assert(bytes@.take(i as int + 1) =~= bytes@.take(i as int).push(bytes@[i as int]));
        assert(out@ =~= old(out)@ + bytes@.take(i as int + 1));
        i = i + 1;
    }
    assert(bytes@.take(i as int) =~= bytes@);
}

/// Installs `section` in the file with the content `existing`, which is
/// `None` where the file is missing.
pub fn install_section(
    existing: Option<&[u8]>,
    header: &[u8],
    marker: &[u8],
    end_marker: &[u8],
    section: &[u8],
) -> (updated: Vec<u8>)
    ensures
        updated@ == installed(
            match existing {
                Some(content) => Some(content@),
                None => None,
            },
            header@,
            marker@,
            end_marker@,
            section@,
        ),
{
    let mut out: Vec<u8> = Vec::new();
    match existing {
        None => {
            append(&mut out, header);
            append(&mut out, section);
            out.push(NEWLINE);
            assert(out@ =~= header@ + section@ + seq![NEWLINE]);
        },
        Some(content) => {
            let total = content.len();
            match find_bytes(content, marker) {
                Some(start) => {
                    let end = match find_bytes(content, end_marker) {
                        Some(at) => at + end_marker.len(),
                        None => total,
                    };
                    append(&mut out, slice_subrange(content, 0, start));
                    append(&mut out, section);
                    append(&mut out, slice_subrange(content, end, total));
                    assert(out@ =~= content@.subrange(0, start as int) + section@
                        + content@.subrange(end as int, total as int));
                },
                None => {
                    append(&mut out, content);
                    if !(total > 0 && content[total - 1] == NEWLINE) {
                        out.push(NEWLINE);
                    }
                    assert(out@ =~= newline_ended(content@));
                    out.push(NEWLINE);
                    append(&mut out, section);
                    out.push(NEWLINE);
                    assert(out@ =~= newline_ended(content@) + seq![NEWLINE] + section@
                        + seq![NEWLINE]);
                },
            }
        },
    }
    out
}

} // verus!
