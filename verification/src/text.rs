//! Character and string primitives: ASCII case folding, substring search,
//! whitespace tokenization, punctuation trimming and decimal rendering.
//! Everything here is verified; the one trusted item wraps `String::push`.
use vstd::prelude::*;

verus! {

/// ASCII case folding of a single character.
pub open spec fn lower_char(c: char) -> char {
    if 'A' <= c && c <= 'Z' {
        ((c as int) + 32) as char
    } else {
        c
    }
}

/// ASCII case folding of a whole text.
pub open spec fn lower(s: Seq<char>) -> Seq<char> {
    s.map_values(|c: char| lower_char(c))
}

/// Relies on `String::push`: appends exactly the given character.
#[verifier::external_body]
fn push_char(s: &mut String, c: char)
    ensures
        final(s)@ == old(s)@.push(c),
{
    s.push(c)
}

/// Executable ASCII case folding of one character.
pub fn lower_char_exec(c: char) -> (r: char)
    ensures
        r == lower_char(c),
{
    if 'A' <= c && c <= 'Z' {
        (((c as u32) + 32) as u8) as char
    } else {
        c
    }
}

/// Executable ASCII case folding; the result is `lower` of the input.
pub fn to_lower(s: &str) -> (r: String)
    ensures
        r@ == lower(s@),
{
    let n = s.unicode_len();
    let mut r = String::new();
    let mut i: usize = 0;
    while i < n
        invariant
            i <= n,
            n == s@.len(),
            r@ == lower(s@.take(i as int)),
        decreases n - i,
    {
        let c = s.get_char(i);
        push_char(&mut r, lower_char_exec(c));
        proof {
            assert(s@.take(i + 1).drop_last() =~= s@.take(i as int));
            assert(lower(s@.take(i + 1)) =~= lower(s@.take(i as int)).push(lower_char(s@[i as int])));
        }
        i = i + 1;
    }
    proof {
        assert(s@.take(n as int) =~= s@);
    }
    r
}

/// `needle` occurs in `hay` starting at position `i`.
pub open spec fn match_at(hay: Seq<char>, needle: Seq<char>, i: int) -> bool {
    &&& 0 <= i
    &&& i + needle.len() <= hay.len()
    &&& forall|j: int| 0 <= j < needle.len() ==> hay[i + j] == #[trigger] needle[j]
}

/// `needle` occurs somewhere in `hay` (an empty needle always occurs).
pub open spec fn contains_sub(hay: Seq<char>, needle: Seq<char>) -> bool {
    exists|i: int| #[trigger] match_at(hay, needle, i)
}

/// Position of the first occurrence of `needle` in `hay`, if any.
pub fn find_sub(hay: &str, needle: &str) -> (r: Option<usize>)
    ensures
        match r {
            Some(i) => match_at(hay@, needle@, i as int) && forall|k: int|
                0 <= k < i ==> !match_at(hay@, needle@, k),
            None => !contains_sub(hay@, needle@),
        },
{
    let hay_len = hay.unicode_len();
    let needle_len = needle.unicode_len();
    if needle_len == 0 {
        proof {
            assert(match_at(hay@, needle@, 0));
        }
        return Some(0);
    }
    if needle_len > hay_len {
        proof {
            assert(forall|i: int| !match_at(hay@, needle@, i));
        }
        return None;
    }
    let mut i: usize = 0;
    while i <= hay_len - needle_len
        invariant
            needle_len == needle@.len(),
            hay_len == hay@.len(),
            0 < needle_len <= hay_len,
            i <= hay_len - needle_len + 1,
            forall|k: int| 0 <= k < i ==> !match_at(hay@, needle@, k),
        decreases hay_len - needle_len + 1 - i,
    {
        let mut j: usize = 0;
        let mut matched = true;
        while matched && j < needle_len
            invariant
                needle_len == needle@.len(),
                hay_len == hay@.len(),
                i + needle_len <= hay_len,
                j <= needle_len,
                matched ==> forall|m: int| 0 <= m < j ==> hay@[i + m] == #[trigger] needle@[m],
                !matched ==> !match_at(hay@, needle@, i as int),
            decreases (if matched { 1int } else { 0int }), needle_len - j,
    {
            if hay.get_char(i + j) != needle.get_char(j) {
                matched = false;
                proof {
                    assert(!match_at(hay@, needle@, i as int));
                }
            } else {
                j = j + 1;
            }
        }
        if matched {
            return Some(i);
        }
        proof {
            assert(!match_at(hay@, needle@, i as int));
        }
        i = i + 1;
    }
    proof {
        assert(forall|k: int| !match_at(hay@, needle@, k));
    }
    None
}

/// Position of the first occurrence of `needle` in `hay` at or after `i`,
/// or `-1` when there is none.
pub open spec fn find_from(hay: Seq<char>, needle: Seq<char>, i: int) -> int
    decreases hay.len() - i when 0 <= i <= hay.len()
{
    if i + needle.len() > hay.len() {
        -1
    } else if match_at(hay, needle, i) {
        i
    } else {
        find_from(hay, needle, i + 1)
    }
}

/// A first match at `i` (no match before it) pins `find_from` down.
pub proof fn lemma_find_from_first(hay: Seq<char>, needle: Seq<char>, j: int, i: int)
    requires
        0 <= j <= i,
        match_at(hay, needle, i),
        forall|k: int| j <= k < i ==> !match_at(hay, needle, k),
    ensures
        find_from(hay, needle, j) == i,
    decreases i - j,
{
    if j < i {
        lemma_find_from_first(hay, needle, j + 1, i);
    }
}

/// No match anywhere at or after `j` pins `find_from` to `-1`.
pub proof fn lemma_find_from_none(hay: Seq<char>, needle: Seq<char>, j: int)
    requires
        0 <= j <= hay.len(),
        forall|k: int| j <= k ==> !match_at(hay, needle, k),
    ensures
        find_from(hay, needle, j) == -1,
    decreases hay.len() - j,
{
    if j + needle.len() <= hay.len() {
        assert(!match_at(hay, needle, j));
        if j < hay.len() {
            lemma_find_from_none(hay, needle, j + 1);
        } else {
            assert(match_at(hay, needle, j));
        }
    }
}

/// Whether `needle` occurs in `hay`; mirrors `str::contains` for our specs.
pub fn contains_str(hay: &str, needle: &str) -> (b: bool)
    ensures
        b == contains_sub(hay@, needle@),
{
    match find_sub(hay, needle) {
        Some(_) => true,
        None => false,
    }
}

/// Whitespace, for splitting a message into tokens.
pub open spec fn is_ws_char(c: char) -> bool {
    c == ' ' || c == '\t' || c == '\n' || c == '\r'
}

/// Punctuation stripped from the end of an extracted token.
pub open spec fn is_trail_punct(c: char) -> bool {
    c == '.' || c == ',' || c == '!' || c == '?'
}

/// Index of the first non-whitespace character at or after `i` (or the length).
pub open spec fn skip_ws_from(s: Seq<char>, i: int) -> int
    decreases s.len() - i when 0 <= i <= s.len()
{
    if i >= s.len() {
        i
    } else if is_ws_char(s[i]) {
        skip_ws_from(s, i + 1)
    } else {
        i
    }
}

/// Index of the first whitespace character at or after `i` (or the length).
pub open spec fn token_end_from(s: Seq<char>, i: int) -> int
    decreases s.len() - i when 0 <= i <= s.len()
{
    if i >= s.len() {
        i
    } else if is_ws_char(s[i]) {
        i
    } else {
        token_end_from(s, i + 1)
    }
}

/// The first whitespace-separated token at or after position `i` (empty when
/// only whitespace follows).
pub open spec fn first_token_from(s: Seq<char>, i: int) -> Seq<char> {
    s.subrange(skip_ws_from(s, i), token_end_from(s, skip_ws_from(s, i)))
}

/// The token with trailing `.`, `,`, `!`, `?` characters removed.
pub open spec fn trim_trailing_punct(s: Seq<char>) -> Seq<char>
    decreases s.len()
{
    if s.len() > 0 && is_trail_punct(s.last()) {
        trim_trailing_punct(s.drop_last())
    } else {
        s
    }
}

proof fn lemma_skip_ws_range(s: Seq<char>, i: int, j: int)
    requires
        0 <= i <= j <= s.len(),
        forall|k: int| i <= k < j ==> is_ws_char(s[k]),
        j == s.len() || !is_ws_char(s[j]),
    ensures
        skip_ws_from(s, i) == j,
    decreases j - i,
{
    if i < j {
        lemma_skip_ws_range(s, i + 1, j);
    }
}

proof fn lemma_token_end_range(s: Seq<char>, i: int, j: int)
    requires
        0 <= i <= j <= s.len(),
        forall|k: int| i <= k < j ==> !is_ws_char(s[k]),
        j == s.len() || is_ws_char(s[j]),
    ensures
        token_end_from(s, i) == j,
    decreases j - i,
{
    if i < j {
        lemma_token_end_range(s, i + 1, j);
    }
}

proof fn lemma_trim_range(s: Seq<char>, p: int, end: int, q: int)
    requires
        0 <= p <= end <= q <= s.len(),
        forall|k: int| end <= k < q ==> is_trail_punct(s[k]),
        end == p || !is_trail_punct(s[end - 1]),
    ensures
        trim_trailing_punct(s.subrange(p, q)) == s.subrange(p, end),
    decreases q - end,
{
    if end < q {
        assert(s.subrange(p, q).drop_last() =~= s.subrange(p, q - 1));
        lemma_trim_range(s, p, end, q - 1);
    } else {
        if p < end {
            assert(s.subrange(p, q).last() == s[end - 1]);
        }
    }
}

proof fn lemma_token_end_ge(s: Seq<char>, i: int)
    requires
        0 <= i <= s.len(),
    ensures
        i <= token_end_from(s, i) <= s.len(),
    decreases s.len() - i,
{
    if i < s.len() && !is_ws_char(s[i]) {
        lemma_token_end_ge(s, i + 1);
    }
}

/// Whether a (non-empty) whitespace-separated token stands at or after
/// character position `from`.
pub fn has_token_after(s: &str, from: usize) -> (b: bool)
    requires
        from <= s@.len(),
    ensures
        b == (first_token_from(s@, from as int).len() > 0),
{
    let n = s.unicode_len();
    let mut p: usize = from;
    while p < n && is_ws_exec(s.get_char(p))
        invariant
            from <= p <= n,
            n == s@.len(),
            forall|k: int| from <= k < p ==> is_ws_char(s@[k]),
        decreases n - p,
    {
        p = p + 1;
    }
    proof {
        lemma_skip_ws_range(s@, from as int, p as int);
        if p < n {
            lemma_token_end_ge(s@, p + 1);
        }
    }
    p < n
}

/// The first whitespace-separated token of `s` at or after character position
/// `from`, with trailing punctuation stripped.
pub fn token_after(s: &str, from: usize) -> (r: String)
    requires
        from <= s@.len(),
    ensures
        r@ == trim_trailing_punct(first_token_from(s@, from as int)),
{
    let n = s.unicode_len();
    let mut p: usize = from;
    while p < n && is_ws_exec(s.get_char(p))
        invariant
            from <= p <= n,
            n == s@.len(),
            forall|k: int| from <= k < p ==> is_ws_char(s@[k]),
        decreases n - p,
    {
        p = p + 1;
    }
    proof {
        lemma_skip_ws_range(s@, from as int, p as int);
    }
    let mut q: usize = p;
    while q < n && !is_ws_exec(s.get_char(q))
        invariant
            p <= q <= n,
            n == s@.len(),
            forall|k: int| p <= k < q ==> !is_ws_char(s@[k]),
        decreases n - q,
    {
        q = q + 1;
    }
    proof {
        lemma_token_end_range(s@, p as int, q as int);
    }
    let mut end: usize = q;
    while end > p && is_punct_exec(s.get_char(end - 1))
        invariant
            p <= end <= q <= n,
            n == s@.len(),
            forall|k: int| end <= k < q ==> is_trail_punct(s@[k]),
        decreases end,
    {
        end = end - 1;
    }
    proof {
        lemma_trim_range(s@, p as int, end as int, q as int);
    }
    String::from_str(s.substring_char(p, end))
}

/// Executable test for `is_ws_char`.
pub fn is_ws_exec(c: char) -> (b: bool)
    ensures
        b == is_ws_char(c),
{
    c == ' ' || c == '\t' || c == '\n' || c == '\r'
}

/// Executable test for `is_trail_punct`.
pub fn is_punct_exec(c: char) -> (b: bool)
    ensures
        b == is_trail_punct(c),
{
    c == '.' || c == ',' || c == '!' || c == '?'
}

/// The decimal digit character for `d` (where `0 <= d <= 9`).
pub open spec fn dec_digit(d: int) -> char {
    (('0' as int) + d) as char
}

/// The decimal representation of a non-negative integer, most significant
/// digit first, no leading zeros (`0` is rendered as `"0"`).
pub open spec fn dec_rep(n: int) -> Seq<char>
    decreases n when n >= 0
{
    if n < 10 {
        seq![dec_digit(n)]
    } else {
        dec_rep(n / 10).push(dec_digit(n % 10))
    }
}

fn dec_digit_exec(d: u64) -> (c: char)
    requires
        d < 10,
    ensures
        c == dec_digit(d as int),
{
    match d {
        0 => '0',
        1 => '1',
        2 => '2',
        3 => '3',
        4 => '4',
        5 => '5',
        6 => '6',
        7 => '7',
        8 => '8',
        _ => '9',
    }
}

/// Renders `n` in decimal.
pub fn u64_to_string(n: u64) -> (r: String)
    ensures
        r@ == dec_rep(n as int),
{
    let mut digits: Vec<char> = Vec::new();
    let mut m = n;
    while m >= 10
        invariant
            dec_rep(n as int) =~= dec_rep(m as int) + digits@.reverse(),
        decreases m,
    {
        let ghost pre = digits@;
        digits.push(dec_digit_exec(m % 10));
        proof {
            assert(digits@.reverse() =~= seq![dec_digit(m as int % 10)] + pre.reverse());
            assert(dec_rep(m as int) + pre.reverse() =~= dec_rep(m as int / 10) + digits@.reverse());
        }
        m = m / 10;
    }
    let mut r = String::new();
    push_char(&mut r, dec_digit_exec(m));
    let mut i: usize = digits.len();
    while i > 0
        invariant
            i <= digits@.len(),
            r@ =~= dec_rep(m as int) + digits@.subrange(i as int, digits@.len() as int).reverse(),
        decreases i,
    {
        i = i - 1;
        push_char(&mut r, digits[i]);
        proof {
            assert(digits@.subrange(i as int, digits@.len() as int).reverse() =~= digits@.subrange(
                i + 1,
                digits@.len() as int,
            ).reverse().push(digits@[i as int]));
        }
    }
    proof {
        assert(digits@.subrange(0, digits@.len() as int) =~= digits@);
    }
    r
}

} // verus!
