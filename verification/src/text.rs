//! Searching in sequences of characters.
//!
//! Positions are counted in characters, never in bytes.
use vstd::prelude::*;
use vstd::string::*;

verus! {

/// `needle` stands in `hay` at index `at`.
pub open spec fn occurs_at(hay: Seq<char>, needle: Seq<char>, at: int) -> bool {
    &&& 0 <= at
    &&& at + needle.len() <= hay.len()
    &&& hay.subrange(at, at + needle.len()) =~= needle
}

/// `at` is the least index at which `needle` stands in `hay`.
pub open spec fn is_first_occurrence(hay: Seq<char>, needle: Seq<char>, at: int) -> bool {
    &&& occurs_at(hay, needle, at)
    &&& forall|j: int| 0 <= j < at ==> !occurs_at(hay, needle, j)
}

/// `at` is the greatest index at which `needle` stands in `hay`.
pub open spec fn is_last_occurrence(hay: Seq<char>, needle: Seq<char>, at: int) -> bool {
    &&& occurs_at(hay, needle, at)
    &&& forall|j: int| at < j ==> !occurs_at(hay, needle, j)
}

/// The least index at which `needle` stands in `hay`, if it stands anywhere.
pub open spec fn first_occurrence(hay: Seq<char>, needle: Seq<char>) -> Option<int> {
    if exists|at: int| occurs_at(hay, needle, at) {
        Some(choose|at: int| is_first_occurrence(hay, needle, at))
    } else {
        None
    }
}

/// The greatest index at which `needle` stands in `hay`, if it stands anywhere.
pub open spec fn last_occurrence(hay: Seq<char>, needle: Seq<char>) -> Option<int> {
    if exists|at: int| occurs_at(hay, needle, at) {
        Some(choose|at: int| is_last_occurrence(hay, needle, at))
    } else {
        None
    }
}

/// Below any occurrence there is a first one.
proof fn lemma_first_exists(hay: Seq<char>, needle: Seq<char>, at: int)
    requires
        occurs_at(hay, needle, at),
    ensures
        exists|i: int| is_first_occurrence(hay, needle, i),
    decreases at,
{
    if exists|j: int| 0 <= j < at && occurs_at(hay, needle, j) {
        let j = choose|j: int| 0 <= j < at && occurs_at(hay, needle, j);
        lemma_first_exists(hay, needle, j);
    } else {
        assert(is_first_occurrence(hay, needle, at));
    }
}

/// Above any occurrence there is a last one.
proof fn lemma_last_exists(hay: Seq<char>, needle: Seq<char>, at: int)
    requires
        occurs_at(hay, needle, at),
    ensures
        exists|i: int| is_last_occurrence(hay, needle, i),
    decreases hay.len() - at,
{
    if exists|j: int| at < j && occurs_at(hay, needle, j) {
        let j = choose|j: int| at < j && occurs_at(hay, needle, j);
        lemma_last_exists(hay, needle, j);
    } else {
        assert(is_last_occurrence(hay, needle, at));
    }
}

/// What `first_occurrence` returns is the first occurrence, and it returns
/// `None` only where there is no occurrence at all.
pub proof fn lemma_first_occurrence(hay: Seq<char>, needle: Seq<char>)
    ensures
        match first_occurrence(hay, needle) {
            Some(at) => is_first_occurrence(hay, needle, at),
            None => forall|at: int| !occurs_at(hay, needle, at),
        },
{
    if exists|at: int| occurs_at(hay, needle, at) {
        let at = choose|at: int| occurs_at(hay, needle, at);
        lemma_first_exists(hay, needle, at);
    }
}

/// What `last_occurrence` returns is the last occurrence, and it returns
/// `None` only where there is no occurrence at all.
pub proof fn lemma_last_occurrence(hay: Seq<char>, needle: Seq<char>)
    ensures
        match last_occurrence(hay, needle) {
            Some(at) => is_last_occurrence(hay, needle, at),
            None => forall|at: int| !occurs_at(hay, needle, at),
        },
{
    if exists|at: int| occurs_at(hay, needle, at) {
        let at = choose|at: int| occurs_at(hay, needle, at);
        lemma_last_exists(hay, needle, at);
    }
}

/// A first occurrence is the one that `first_occurrence` returns.
pub proof fn lemma_first_occurrence_is(hay: Seq<char>, needle: Seq<char>, at: int)
    requires
        is_first_occurrence(hay, needle, at),
    ensures
        first_occurrence(hay, needle) == Some(at),
{
    lemma_first_occurrence(hay, needle);
}

/// A last occurrence is the one that `last_occurrence` returns.
pub proof fn lemma_last_occurrence_is(hay: Seq<char>, needle: Seq<char>, at: int)
    requires
        is_last_occurrence(hay, needle, at),
    ensures
        last_occurrence(hay, needle) == Some(at),
{
    lemma_last_occurrence(hay, needle);
}

/// A single character stands at an index exactly where the sequence holds it.
pub proof fn lemma_occurs_char(hay: Seq<char>, c: char, at: int)
    ensures
        occurs_at(hay, seq![c], at) <==> (0 <= at < hay.len() && hay[at] == c),
{
    if 0 <= at < hay.len() {
        if hay[at] == c {
            assert(hay.subrange(at, at + 1) =~= seq![c]);
        } else {
            assert(hay.subrange(at, at + 1)[0] != seq![c][0]);
        }
    }
}

/// Whether two strings hold the same characters.
pub fn same_text(a: &str, b: &str) -> (same: bool)
    ensures
        same == (a@ == b@),
{
    broadcast use {vstd::utf8::encode_utf8_decode_utf8, vstd::utf8::encode_utf8_valid_utf8};

    let x = a.as_bytes();
    let y = b.as_bytes();
    if x.len() != y.len() {
        return false;
    }
    let mut i: usize = 0;
    while i < x.len()
        invariant
            i <= x.len(),
            x.len() == y.len(),
            x@ == a.spec_bytes(),
            y@ == b.spec_bytes(),
            forall|j: int| 0 <= j < i ==> x@[j] == y@[j],
        decreases x.len() - i,
    {
        if x[i] != y[i] {
            return false;
        }
        i += 1;
    }
    assert(x@ =~= y@);
    assert(vstd::utf8::decode_utf8(a.spec_bytes()) == a@);
    assert(vstd::utf8::decode_utf8(b.spec_bytes()) == b@);
    true
}

/// The characters of a string, in order.
pub fn chars_of(s: &str) -> (chars: Vec<char>)
    ensures
        chars@ == s@,
{
    let mut chars: Vec<char> = Vec::new();
    for c in it: s.chars()
        invariant
            chars@ == it.seq().take(it.index()),
            it.seq() == s@,
    {
        chars.push(c);
    }
    chars
}

/// Whether `needle` stands in `hay` at index `at`.
fn stands_at(hay: &Vec<char>, needle: &Vec<char>, at: usize) -> (stands: bool)
    requires
        at + needle.len() <= hay.len(),
    ensures
        stands == occurs_at(hay@, needle@, at as int),
{
    let mut k: usize = 0;
    while k < needle.len()
        invariant
            k <= needle.len(),
            at + needle.len() <= hay.len(),
            forall|j: int| 0 <= j < k ==> hay@[at + j] == needle@[j],
        decreases needle.len() - k,
    {
        if hay[at + k] != needle[k] {
            assert(hay@.subrange(at as int, at + needle.len())[k as int] != needle@[k as int]);
            return false;
        }
        k += 1;
    }
    true
}

/// The first index at or after `from` at which `needle` stands in `hay`.
///
/// The contract speaks of the part of `hay` that begins at `from`: the index
/// returned is `from` plus the first occurrence in that part.
pub fn find(hay: &Vec<char>, from: usize, needle: &Vec<char>) -> (found: Option<usize>)
    requires
        from <= hay.len(),
    ensures
        match found {
            Some(at) => from <= at && at + needle.len() <= hay.len() && first_occurrence(
                hay@.skip(from as int),
                needle@,
            ) == Some(at - from),
            None => first_occurrence(hay@.skip(from as int), needle@) is None,
        },
{
    let ghost rest = hay@.skip(from as int);
    if needle.len() > hay.len() - from {
        return None;
    }
    let last: usize = hay.len() - needle.len();
    let mut at: usize = from;
    while at <= last
        invariant
            from <= at <= last + 1,
            last + needle.len() == hay.len(),
            rest == hay@.skip(from as int),
            forall|j: int| 0 <= j < at - from ==> !occurs_at(rest, needle@, j),
        decreases last + 1 - at,
    {
        proof {
            assert(rest.subrange(at - from, at - from + needle.len()) =~= hay@.subrange(
                at as int,
                at + needle.len(),
            ));
        }
        if stands_at(hay, needle, at) {
            proof {
                lemma_first_occurrence_is(rest, needle@, at - from);
            }
            return Some(at);
        }
        at += 1;
    }
    None
}

/// The last index at which `needle` stands in `hay`.
pub fn rfind(hay: &Vec<char>, needle: &Vec<char>) -> (found: Option<usize>)
    ensures
        match found {
            Some(at) => at + needle.len() <= hay.len() && last_occurrence(hay@, needle@) == Some(
                at as int,
            ),
            None => last_occurrence(hay@, needle@) is None,
        },
{
    if needle.len() > hay.len() {
        return None;
    }
    let mut at: usize = hay.len() - needle.len();
    loop
        invariant
            at + needle.len() <= hay.len(),
            forall|j: int| at < j ==> !occurs_at(hay@, needle@, j),
        decreases at,
    {
        if stands_at(hay, needle, at) {
            proof {
                lemma_last_occurrence_is(hay@, needle@, at as int);
            }
            return Some(at);
        }
        if at == 0 {
            return None;
        }
        at -= 1;
    }
}

/// A line without the carriage return that may end it.
pub open spec fn without_cr(line: Seq<char>) -> Seq<char> {
    if line.len() > 0 && line.last() == '\r' {
        line.drop_last()
    } else {
        line
    }
}

/// The lines of a text.
///
/// A line ends at a line feed, or at a carriage return directly before a line
/// feed; neither belongs to the line. What follows the last line feed is a
/// line of its own unless it is empty.
pub open spec fn lines(text: Seq<char>) -> Seq<Seq<char>>
    decreases text.len(),
{
    if text.len() == 0 {
        Seq::empty()
    } else {
        match first_occurrence(text, seq!['\n']) {
            None => seq![text],
            Some(at) => {
                proof {
                    lemma_first_occurrence(text, seq!['\n']);
                }
                seq![without_cr(text.take(at))] + lines(text.skip(at + 1))
            },
        }
    }
}

/// The parts of `text` that `bounds` cuts out, in order.
pub open spec fn parts(text: Seq<char>, bounds: Seq<(usize, usize)>) -> Seq<Seq<char>> {
    Seq::new(bounds.len(), |i: int| text.subrange(bounds[i].0 as int, bounds[i].1 as int))
}

/// Where the lines of `text` begin and end: line `i` is `text[start..end]`
/// for the `i`-th pair.
pub fn line_bounds(text: &Vec<char>) -> (bounds: Vec<(usize, usize)>)
    ensures
        parts(text@, bounds@) == lines(text@),
        forall|i: int|
            0 <= i < bounds.len() ==> (#[trigger] bounds[i]).0 <= bounds[i].1 <= text.len(),
{
    let mut feed: Vec<char> = Vec::new();
    feed.push('\n');
    assert(feed@ =~= seq!['\n']);
    let mut bounds: Vec<(usize, usize)> = Vec::new();
    let mut start: usize = 0;
    assert(text@.skip(0) =~= text@);
    assert(parts(text@, bounds@) =~= Seq::empty());
    while start < text.len()
        invariant
            start <= text.len(),
            feed@ == seq!['\n'],
            lines(text@) == parts(text@, bounds@) + lines(text@.skip(start as int)),
            forall|i: int|
            0 <= i < bounds.len() ==> (#[trigger] bounds[i]).0 <= bounds[i].1 <= text.len(),
        decreases text.len() - start,
    {
        let ghost rest = text@.skip(start as int);
        let ghost done = parts(text@, bounds@);
        match find(text, start, &feed) {
            None => {
                bounds.push((start, text.len()));
                assert(rest =~= text@.subrange(start as int, text.len() as int));
                assert(parts(text@, bounds@) =~= done + seq![rest]);
                assert(text@.skip(text.len() as int) =~= Seq::empty());
                start = text.len();
            },
            Some(at) => {
                let end = if at > start && text[at - 1] == '\r' {
                    at - 1
                } else {
                    at
                };
                bounds.push((start, end));
                assert(without_cr(rest.take(at - start)) =~= text@.subrange(
                    start as int,
                    end as int,
                ));
                assert(parts(text@, bounds@) =~= done + seq![
                    without_cr(rest.take(at - start)),
                ]);
                assert(rest.skip(at - start + 1) =~= text@.skip(at + 1));
                start = at + 1;
            },
        }
    }
    bounds
}

} // verus!
