//! Searching in character and byte sequences, shared by the parsers, and the
//! contracts this crate gives to the std text functions it calls.

use vstd::prelude::*;
use vstd::utf8::*;

verus! {

/// Whether `c` carries the Unicode `White_Space` property.
pub open spec fn is_white_space(c: char) -> bool {
    let n = c as u32;
    ||| 0x09 <= n <= 0x0D
    ||| n == 0x20
    ||| n == 0x85
    ||| n == 0xA0
    ||| n == 0x1680
    ||| 0x2000 <= n <= 0x200A
    ||| n == 0x2028
    ||| n == 0x2029
    ||| n == 0x202F
    ||| n == 0x205F
    ||| n == 0x3000
}

/// `char::is_whitespace` answers whether the character has the Unicode
/// `White_Space` property. The contract spells that property out as the code
/// points that carry it; nothing here checks the table inside std against it.
pub assume_specification[ char::is_whitespace ](c: char) -> (b: bool)
    ensures
        b == is_white_space(c),
;

/// `core::str::Utf8Error`, with which `core::str::from_utf8` fails. It is
/// carried through and never looked into.
#[verifier::external_type_specification]
#[verifier::external_body]
pub struct ExUtf8Error(core::str::Utf8Error);

/// `core::str::from_utf8` succeeds exactly on well-formed UTF-8 and then
/// hands back the text that the bytes encode. Taken on trust from std's
/// documentation, over vstd's definition of UTF-8.
pub assume_specification[ core::str::from_utf8 ](v: &[u8]) -> (r: Result<
    &str,
    core::str::Utf8Error,
>)
    ensures
        r is Ok <==> valid_utf8(v@),
        r matches Ok(s) ==> s@ == decode_utf8(v@),
;

/// Whether `pat` stands in `s` at index `i`.
pub open spec fn occurs_at<T>(s: Seq<T>, pat: Seq<T>, i: int) -> bool {
    &&& 0 <= i
    &&& i + pat.len() <= s.len()
    &&& s.subrange(i, i + pat.len()) =~= pat
}

/// The index of the first occurrence of `pat` in `s` at or after `from`.
pub open spec fn find_from<T>(s: Seq<T>, pat: Seq<T>, from: int) -> Option<int>
    decreases s.len() - from,
{
    if from < 0 || from + pat.len() > s.len() {
        None
    } else if occurs_at(s, pat, from) {
        Some(from)
    } else {
        find_from(s, pat, from + 1)
    }
}

/// What `find_from` finds is an occurrence with none before it, and it finds
/// nothing only where there is none.
pub proof fn lemma_find_from<T>(s: Seq<T>, pat: Seq<T>, from: int)
    requires
        0 <= from,
    ensures
        match find_from(s, pat, from) {
            Some(i) => {
                &&& from <= i
                &&& occurs_at(s, pat, i)
                &&& forall|j: int| from <= j < i ==> !occurs_at(s, pat, j)
            },
            None => forall|j: int| from <= j ==> !occurs_at(s, pat, j),
        },
    decreases s.len() - from,
{
    if from + pat.len() <= s.len() && !occurs_at(s, pat, from) {
        lemma_find_from(s, pat, from + 1);
    }
}

/// An occurrence with none before it is the one that `find_from` finds.
pub proof fn lemma_find_from_first<T>(s: Seq<T>, pat: Seq<T>, from: int, i: int)
    requires
        0 <= from <= i,
        occurs_at(s, pat, i),
        forall|j: int| from <= j < i ==> !occurs_at(s, pat, j),
    ensures
        find_from(s, pat, from) == Some(i),
    decreases i - from,
{
    if from < i {
        lemma_find_from_first(s, pat, from + 1, i);
    }
}

/// Where no occurrence starts at or after `from`, `find_from` finds none.
pub proof fn lemma_find_from_none<T>(s: Seq<T>, pat: Seq<T>, from: int)
    requires
        forall|j: int| from <= j ==> !occurs_at(s, pat, j),
    ensures
        find_from(s, pat, from) is None,
    decreases s.len() - from,
{
    if 0 <= from && from + pat.len() <= s.len() {
        lemma_find_from_none(s, pat, from + 1);
    }
}

/// The end of the longest run of characters that starts at `from` and in
/// which every character is white space (`white`) or none is (`!white`).
pub open spec fn run_end(s: Seq<char>, from: int, white: bool) -> int
    decreases s.len() - from,
{
    if 0 <= from < s.len() && is_white_space(s[from]) == white {
        run_end(s, from + 1, white)
    } else {
        from
    }
}

/// A uniform stretch `[from, end)` that is followed by a character of the
/// other kind, or by the end of `s`, is the run that `run_end` measures.
pub proof fn lemma_run_end_is(s: Seq<char>, from: int, end: int, white: bool)
    requires
        0 <= from <= end <= s.len(),
        forall|j: int| from <= j < end ==> is_white_space(s[j]) == white,
        end < s.len() ==> is_white_space(s[end]) != white,
    ensures
        run_end(s, from, white) == end,
    decreases end - from,
{
    if from < end {
        lemma_run_end_is(s, from + 1, end, white);
    }
}

/// The characters of `s`, in order.
pub fn chars_of(s: &str) -> (v: Vec<char>)
    ensures
        v@ == s@,
{
    let mut v: Vec<char> = Vec::new();
    for c in it: s.chars()
        invariant
            v@ == it.seq().take(it.index() as int),
            it.seq() == s@,
    {
        v.push(c);
    }
    v
}

/// Whether `pat` stands in `hay` at index `i`.
fn matches_at(hay: &[char], pat: &[char], i: usize) -> (b: bool)
    requires
        i + pat.len() <= hay.len(),
    ensures
        b == occurs_at(hay@, pat@, i as int),
{
    let mut k: usize = 0;
    while k < pat.len()
        invariant
            k <= pat.len(),
            i + pat.len() <= hay.len(),
            forall|j: int| 0 <= j < k ==> hay@[i + j] == pat@[j],
        decreases pat.len() - k,
    {
        if hay[i + k] != pat[k] {
            assert(hay@.subrange(i as int, i + pat.len())[k as int] != pat@[k as int]);
            return false;
        }
        k += 1;
    }
    true
}

/// Searches `hay` for the first occurrence of `pat` at or after `from`.
pub fn find(hay: &[char], pat: &[char], from: usize) -> (r: Option<usize>)
    ensures
        match r {
            Some(i) => find_from(hay@, pat@, from as int) == Some(i as int),
            None => find_from(hay@, pat@, from as int) is None,
        },
{
    if pat.len() > hay.len() || from > hay.len() - pat.len() {
        return None;
    }
    let last = hay.len() - pat.len();
    let mut i = from;
    loop
        invariant
            from <= i <= last,
            last == hay.len() - pat.len(),
            find_from(hay@, pat@, from as int) == find_from(hay@, pat@, i as int),
        decreases last - i,
    {
        if matches_at(hay, pat, i) {
            return Some(i);
        }
        if i == last {
            assert(find_from(hay@, pat@, i + 1) is None);
            return None;
        }
        i += 1;
    }
}

/// Walks from `from` over the run of characters that are white space
/// (`white`) or are not (`!white`), and returns where it ends.
pub fn skip_run(s: &[char], from: usize, white: bool) -> (end: usize)
    ensures
        end == run_end(s@, from as int, white),
        from <= end,
        from <= s.len() ==> end <= s.len(),
{
    let mut i = from;
    while i < s.len() && s[i].is_whitespace() == white
        invariant
            from <= i,
            from <= s.len() ==> i <= s.len(),
            run_end(s@, from as int, white) == run_end(s@, i as int, white),
        decreases s.len() - i,
    {
        i += 1;
    }
    i
}

} // verus!
