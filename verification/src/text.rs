//! Character-sequence helpers: scanning, trimming and substitution.
use vstd::prelude::*;
use vstd::std_specs::iter::IteratorSpec;

verus! {

/// Collects the characters of a string slice, in order.
pub fn chars_of(s: &str) -> (out: Vec<char>)
    ensures
        out@ == s@,
{
    broadcast use vstd::string::group_string_axioms;
    let mut out: Vec<char> = Vec::new();
    let mut it = s.chars();
    loop
        invariant
            it.obeys_prophetic_iter_laws(),
            it.decrease() is Some,
            out@ + it.remaining() == s@,
        ensures
            it.remaining().len() == 0,
        decreases it.decrease()->0,
    {
        match it.next() {
            Some(c) => {
                out.push(c);
                assert(out@ + it.remaining() =~= s@);
            },
            None => {
                break ;
            },
        }
    }
    assert(out@ =~= out@ + it.remaining());
    out
}



/// Appends one character to a string through `String::push`, which adds the
/// character at the end and leaves what was there in place.
#[verifier::external_body]
pub(crate) fn push_char(s: &mut String, c: char)
    ensures
        final(s)@ == old(s)@.push(c),
{
    s.push(c)
}

/// Builds the string that holds exactly the given characters.
pub fn string_of(chars: &[char]) -> (out: String)
    ensures
        out@ == chars@,
{
    let mut out = String::new();
    let mut i: usize = 0;
    while i < chars.len()
        invariant
            i <= chars.len(),
            out@ == chars@.subrange(0, i as int),
        decreases chars.len() - i,
    {
        push_char(&mut out, chars[i]);
        i += 1;
        assert(out@ =~= chars@.subrange(0, i as int));
    }
    assert(chars@.subrange(0, i as int) =~= chars@);
    out
}

/// `pat` occurs in `s` at index `i`.
pub open spec fn matches_at(s: Seq<char>, pat: Seq<char>, i: int) -> bool {
    0 <= i && i + pat.len() <= s.len() && s.subrange(i, i + pat.len()) == pat
}

/// The index of the first occurrence of `pat` in `s` that starts at `from` or
/// later, if there is one.
pub open spec fn find_from(s: Seq<char>, pat: Seq<char>, from: int) -> Option<int>
    decreases s.len() + 1 - from,
{
    if from < 0 || from + pat.len() > s.len() {
        None
    } else if matches_at(s, pat, from) {
        Some(from)
    } else {
        find_from(s, pat, from + 1)
    }
}

/// What `find_from` returns is the leftmost occurrence at or after `from`:
/// it is an occurrence, none lies between `from` and it, and where it returns
/// nothing there is no occurrence at or after `from` at all.
pub proof fn lemma_find_from_is_leftmost(s: Seq<char>, pat: Seq<char>, from: int)
    requires
        0 <= from,
    ensures
        match find_from(s, pat, from) {
            Some(i) => from <= i && matches_at(s, pat, i) && forall|j: int|
                from <= j < i ==> !matches_at(s, pat, j),
            None => forall|j: int| from <= j ==> !matches_at(s, pat, j),
        },
    decreases s.len() + 1 - from,
{
    if from + pat.len() > s.len() {
    } else if matches_at(s, pat, from) {
    } else {
        lemma_find_from_is_leftmost(s, pat, from + 1);
    }
}

/// Tells whether `pat` occurs in `s` at index `i`.
pub fn starts_at(s: &[char], pat: &[char], i: usize) -> (r: bool)
    ensures
        r == matches_at(s@, pat@, i as int),
{
    if pat.len() > s.len() || i > s.len() - pat.len() {
        return false;
    }
    let mut k: usize = 0;
    while k < pat.len()
        invariant
            k <= pat.len(),
            i + pat.len() <= s.len(),
            forall|j: int| 0 <= j < k ==> s@[i + j] == pat@[j],
        decreases pat.len() - k,
    {
        if s[i + k] != pat[k] {
            assert(s@.subrange(i as int, i + pat.len())[k as int] == s@[i + k]);
            return false;
        }
        k += 1;
    }
    assert(s@.subrange(i as int, i + pat.len()) =~= pat@);
    true
}

/// Finds the first occurrence of `pat` in `s` at or after `from`.
pub fn find(s: &[char], pat: &[char], from: usize) -> (r: Option<usize>)
    ensures
        match r {
            Some(i) => find_from(s@, pat@, from as int) == Some(i as int) && from <= i && i
                + pat.len() <= s.len(),
            None => find_from(s@, pat@, from as int) is None,
        },
{
    if pat.len() > s.len() || from > s.len() - pat.len() {
        return None;
    }
    let last: usize = s.len() - pat.len();
    let mut i: usize = from;
    loop
        invariant
            from <= i <= last,
            last == s.len() - pat.len(),
            find_from(s@, pat@, from as int) == find_from(s@, pat@, i as int),
        decreases last - i,
    {
        if starts_at(s, pat, i) {
            return Some(i);
        }
        if i == last {
            assert(find_from(s@, pat@, i + 1) is None);
            return None;
        }
        i += 1;
    }
}

/// The characters with the Unicode property `White_Space`, which are the ones
/// that trimming removes.
pub open spec fn is_space(c: char) -> bool {
    let n = c as u32;
    (0x09 <= n <= 0x0D) || n == 0x20 || n == 0x85 || n == 0xA0 || n == 0x1680 || (0x2000 <= n
        <= 0x200A) || n == 0x2028 || n == 0x2029 || n == 0x202F || n == 0x205F || n == 0x3000
}

/// Tells whether a character is white space.
pub fn is_whitespace(c: char) -> (r: bool)
    ensures
        r == is_space(c),
{
    let n: u32 = c as u32;
    (0x09 <= n && n <= 0x0D) || n == 0x20 || n == 0x85 || n == 0xA0 || n == 0x1680 || (0x2000 <= n
        && n <= 0x200A) || n == 0x2028 || n == 0x2029 || n == 0x202F || n == 0x205F || n == 0x3000
}

/// The first index in `lo..hi` that holds no white space, or `hi`.
pub open spec fn skip_space(s: Seq<char>, lo: int, hi: int) -> int
    decreases hi - lo,
{
    if lo < hi && 0 <= lo < s.len() && is_space(s[lo]) {
        skip_space(s, lo + 1, hi)
    } else {
        lo
    }
}

/// The end of the part of `lo..hi` that is left when trailing white space
/// goes.
pub open spec fn drop_space(s: Seq<char>, lo: int, hi: int) -> int
    decreases hi - lo,
{
    if lo < hi && 0 < hi <= s.len() && is_space(s[hi - 1]) {
        drop_space(s, lo, hi - 1)
    } else {
        hi
    }
}

/// The bounds of `s[lo..hi]` without its leading and trailing white space.
pub open spec fn trim_bounds(s: Seq<char>, lo: int, hi: int) -> (int, int) {
    let a = skip_space(s, lo, hi);
    (a, drop_space(s, a, hi))
}

/// `s` without its leading and trailing white space.
pub open spec fn trimmed(s: Seq<char>) -> Seq<char> {
    let (a, b) = trim_bounds(s, 0, s.len() as int);
    s.subrange(a, b)
}

/// The bounds that trimming leaves lie inside the range, in order, and no
/// white space stands at either end of what is left.
pub proof fn lemma_trim_bounds(s: Seq<char>, lo: int, hi: int)
    requires
        0 <= lo <= hi <= s.len(),
    ensures
        lo <= trim_bounds(s, lo, hi).0 <= trim_bounds(s, lo, hi).1 <= hi,
        trim_bounds(s, lo, hi).0 < trim_bounds(s, lo, hi).1 ==> !is_space(
            s[trim_bounds(s, lo, hi).0],
        ) && !is_space(s[trim_bounds(s, lo, hi).1 - 1]),
        forall|j: int| lo <= j < trim_bounds(s, lo, hi).0 ==> is_space(s[j]),
        forall|j: int| trim_bounds(s, lo, hi).1 <= j < hi ==> is_space(s[j]),
{
    lemma_skip_space(s, lo, hi);
    lemma_drop_space(s, skip_space(s, lo, hi), hi);
}

proof fn lemma_skip_space(s: Seq<char>, lo: int, hi: int)
    requires
        0 <= lo <= hi <= s.len(),
    ensures
        lo <= skip_space(s, lo, hi) <= hi,
        skip_space(s, lo, hi) < hi ==> !is_space(s[skip_space(s, lo, hi)]),
        forall|j: int| lo <= j < skip_space(s, lo, hi) ==> is_space(s[j]),
    decreases hi - lo,
{
    if lo < hi && is_space(s[lo]) {
        lemma_skip_space(s, lo + 1, hi);
    }
}

proof fn lemma_drop_space(s: Seq<char>, lo: int, hi: int)
    requires
        0 <= lo <= hi <= s.len(),
    ensures
        lo <= drop_space(s, lo, hi) <= hi,
        lo < drop_space(s, lo, hi) ==> !is_space(s[drop_space(s, lo, hi) - 1]),
        forall|j: int| drop_space(s, lo, hi) <= j < hi ==> is_space(s[j]),
    decreases hi - lo,
{
    if lo < hi && is_space(s[hi - 1]) {
        lemma_drop_space(s, lo, hi - 1);
    }
}

/// Trims the range `lo..hi` of `s` and returns the bounds of what is left.
pub fn trim_range(s: &[char], lo: usize, hi: usize) -> (r: (usize, usize))
    requires
        lo <= hi <= s.len(),
    ensures
        (r.0 as int, r.1 as int) == trim_bounds(s@, lo as int, hi as int),
        lo <= r.0 <= r.1 <= hi,
{
    let mut a: usize = lo;
    while a < hi && is_whitespace(s[a])
        invariant
            lo <= a <= hi <= s.len(),
            skip_space(s@, lo as int, hi as int) == skip_space(s@, a as int, hi as int),
        decreases hi - a,
    {
        a += 1;
    }
    let mut b: usize = hi;
    while a < b && is_whitespace(s[b - 1])
        invariant
            a <= b <= hi <= s.len(),
            drop_space(s@, a as int, hi as int) == drop_space(s@, a as int, b as int),
        decreases b - a,
    {
        b -= 1;
    }
    (a, b)
}

/// Copies the range `lo..hi` of `s`.
pub fn slice_of(s: &[char], lo: usize, hi: usize) -> (out: Vec<char>)
    requires
        lo <= hi <= s.len(),
    ensures
        out@ == s@.subrange(lo as int, hi as int),
{
    let mut out: Vec<char> = Vec::new();
    let mut i: usize = lo;
    while i < hi
        invariant
            lo <= i <= hi <= s.len(),
            out@ == s@.subrange(lo as int, i as int),
        decreases hi - i,
    {
        out.push(s[i]);
        i += 1;
        assert(out@ =~= s@.subrange(lo as int, i as int));
    }
    out
}

/// Appends every character of `tail` to `out`.
pub fn extend_chars(out: &mut Vec<char>, tail: &[char])
    ensures
        final(out)@ == old(out)@ + tail@,
{
    let mut i: usize = 0;
    while i < tail.len()
        invariant
            i <= tail.len(),
            out@ == old(out)@ + tail@.subrange(0, i as int),
        decreases tail.len() - i,
    {
        out.push(tail[i]);
        i += 1;
        assert(out@ =~= old(out)@ + tail@.subrange(0, i as int));
    }
    assert(tail@.subrange(0, i as int) =~= tail@);
}

/// The index just behind the `n`-th `mark` that stands at `from` or later,
/// if `s` holds that many.
pub open spec fn after_marks(s: Seq<char>, mark: char, from: int, n: nat) -> Option<int>
    decreases s.len() - from,
{
    if n == 0 {
        Some(from)
    } else if from < 0 || from >= s.len() {
        None
    } else if s[from] == mark {
        after_marks(s, mark, from + 1, (n - 1) as nat)
    } else {
        after_marks(s, mark, from + 1, n)
    }
}

/// Finds the index just behind the `n`-th `mark` of `s`.
pub fn skip_marks(s: &[char], mark: char, n: usize) -> (r: Option<usize>)
    ensures
        match r {
            Some(i) => after_marks(s@, mark, 0, n as nat) == Some(i as int) && i <= s.len(),
            None => after_marks(s@, mark, 0, n as nat) is None,
        },
{
    let mut i: usize = 0;
    let mut left: usize = n;
    while left > 0
        invariant
            i <= s.len(),
            after_marks(s@, mark, 0, n as nat) == after_marks(s@, mark, i as int, left as nat),
        decreases s.len() - i,
    {
        if i >= s.len() {
            return None;
        }
        if s[i] == mark {
            left -= 1;
        }
        i += 1;
    }
    Some(i)
}

/// The first index at `from` or later that holds `<` or `>`, or the length
/// of `s` where none does.
pub open spec fn bracket_from(s: Seq<char>, from: int) -> int
    decreases s.len() - from,
{
    if from < 0 || from >= s.len() {
        from
    } else if s[from] == '<' || s[from] == '>' {
        from
    } else {
        bracket_from(s, from + 1)
    }
}

/// Finds the first angle bracket at `from` or later.
pub fn find_bracket(s: &[char], from: usize) -> (r: usize)
    requires
        from <= s.len(),
    ensures
        r as int == bracket_from(s@, from as int),
        from <= r <= s.len(),
{
    let mut i: usize = from;
    while i < s.len() && s[i] != '<' && s[i] != '>'
        invariant
            from <= i <= s.len(),
            bracket_from(s@, from as int) == bracket_from(s@, i as int),
        decreases s.len() - i,
    {
        i += 1;
    }
    i
}

} // verus!
