//! Character and text utilities shared by the command parser and the
//! telemetry codec: ASCII case folding, whitespace splitting, and conversions
//! between `&str`, `Vec<char>` and `String`.

use vstd::prelude::*;

verus! {

use vstd::std_specs::iter::IteratorSpec;

/// Relies on `String::push`: appends the given character to the end of the
/// string.
pub assume_specification[ String::push ](s: &mut String, c: char)
    ensures
        final(s)@ == old(s)@.push(c),
;

/// Relies on `char::from_u32`: returns the character with the given code
/// point, or `None` when the value is a surrogate or lies above the Unicode
/// range.
pub assume_specification[ char::from_u32 ](u: u32) -> (r: Option<char>)
    ensures
        (u < 0xD800 || (0xE000 <= u && u <= 0x10FFFF)) ==> r == Some(u as char),
        !(u < 0xD800 || (0xE000 <= u && u <= 0x10FFFF)) ==> r is None,
;

/// An ASCII whitespace character: the characters a command or a payload may
/// use to separate tokens.
pub open spec fn is_space(c: char) -> bool {
    c == ' ' || c == '\t' || c == '\n' || c == '\r'
}

/// Tests whether a character is token-separating whitespace.
pub fn space(c: char) -> (r: bool)
    ensures
        r == is_space(c),
{
    c == ' ' || c == '\t' || c == '\n' || c == '\r'
}

/// ASCII case folding of a single character: `A`..`Z` map to `a`..`z`, every
/// other character is unchanged.
pub open spec fn lower_char(c: char) -> char {
    if 'A' <= c && c <= 'Z' {
        (c as u8 + 32) as char
    } else {
        c
    }
}

/// A sequence of characters, ASCII case folded.
pub open spec fn lower(s: Seq<char>) -> Seq<char> {
    s.map_values(|c: char| lower_char(c))
}

/// Case folding is idempotent: folding a second time changes nothing.
pub proof fn lemma_lower_idempotent(s: Seq<char>)
    ensures
        lower(lower(s)) == lower(s),
{
    assert forall|c: char| #[trigger] lower_char(lower_char(c)) == lower_char(c) by {
    }
    assert(lower(lower(s)) =~= lower(s));
}

/// ASCII case folding of a single character.
pub fn fold_char(c: char) -> (r: char)
    ensures
        r == lower_char(c),
{
    if 'A' <= c && c <= 'Z' {
        (c as u8 + 32) as char
    } else {
        c
    }
}

/// ASCII case folding of a sequence of characters.
pub fn fold_chars(v: &[char]) -> (r: Vec<char>)
    ensures
        r@ == lower(v@),
{
    let mut r: Vec<char> = Vec::new();
    let mut i: usize = 0;
    while i < v.len()
        invariant
            i <= v.len(),
            r@.len() == i,
            forall|j: int| 0 <= j < i ==> r@[j] == lower_char(v@[j]),
        decreases v@.len() - i,
    {
        r.push(fold_char(v[i]));
        i = i + 1;
    }
    assert(r@ =~= lower(v@));
    r
}

/// The characters of a string, in order.
pub fn chars_of(s: &str) -> (v: Vec<char>)
    ensures
        v@ == s@,
{
    broadcast use vstd::string::group_string_axioms;

    let mut v: Vec<char> = Vec::new();
    let mut it = s.chars();
    loop
        invariant
            it.obeys_prophetic_iter_laws(),
            it.decrease() is Some,
            v@ + it.remaining() == s@,
        decreases it.decrease()->0,
    {
        match it.next() {
            Some(c) => {
                v.push(c);
            },
            None => {
                assert(v@ =~= s@);
                return v;
            },
        }
    }
}

/// A `String` holding exactly the given characters.
pub fn string_from_chars(v: &[char]) -> (s: String)
    ensures
        s@ == v@,
{
    let mut s = String::new();
    let mut i: usize = 0;
    while i < v.len()
        invariant
            i <= v.len(),
            s@ == v@.take(i as int),
        decreases v@.len() - i,
    {
        s.push(v[i]);
        i = i + 1;
        assert(s@ =~= v@.take(i as int));
    }
    assert(s@ =~= v@);
    s
}

/// Whether the characters of `t` spell exactly the string `lit`.
pub fn chars_match(t: &[char], lit: &str) -> (r: bool)
    ensures
        r == (t@ == lit@),
{
    let n = lit.unicode_len();
    if t.len() != n {
        assert(t@.len() != lit@.len());
        assert(t@ != lit@);
        return false;
    }
    let mut i: usize = 0;
    while i < n
        invariant
            i <= n,
            n == lit@.len(),
            t@.len() == n,
            forall|j: int| 0 <= j < i ==> t@[j] == lit@[j],
        decreases n - i,
    {
        if t[i] != lit.get_char(i) {
            assert(t@ != lit@);
            return false;
        }
        i = i + 1;
    }
    assert(t@ =~= lit@);
    true
}

/// The tokens of `s` from position `i` on, where `cur` holds the (possibly
/// empty) token in progress and `acc` the tokens already completed: maximal
/// runs of non-whitespace characters, in order, with all whitespace discarded.
pub open spec fn tokens_from(s: Seq<char>, i: int, cur: Seq<char>, acc: Seq<Seq<char>>) -> Seq<
    Seq<char>,
>
    decreases s.len() - i,
{
    if i < 0 || i >= s.len() {
        if cur.len() > 0 {
            acc.push(cur)
        } else {
            acc
        }
    } else if is_space(s[i]) {
        if cur.len() > 0 {
            tokens_from(s, i + 1, Seq::empty(), acc.push(cur))
        } else {
            tokens_from(s, i + 1, cur, acc)
        }
    } else {
        tokens_from(s, i + 1, cur.push(s[i]), acc)
    }
}

/// The whitespace-separated tokens of `s`: maximal runs of non-whitespace
/// characters, in order.  Leading, trailing and repeated whitespace produce no
/// empty tokens.
pub open spec fn tokens_of(s: Seq<char>) -> Seq<Seq<char>> {
    tokens_from(s, 0, Seq::empty(), Seq::empty())
}

/// Splitting reads only the characters from the given position on: equal
/// suffixes split into equal tokens.
proof fn lemma_tokens_from_suffix(
    s1: Seq<char>,
    i1: int,
    s2: Seq<char>,
    i2: int,
    cur: Seq<char>,
    acc: Seq<Seq<char>>,
)
    requires
        0 <= i1 <= s1.len(),
        0 <= i2 <= s2.len(),
        s1.skip(i1) == s2.skip(i2),
    ensures
        tokens_from(s1, i1, cur, acc) == tokens_from(s2, i2, cur, acc),
    decreases s1.len() - i1,
{
    assert(s1.skip(i1).len() == s2.skip(i2).len());
    assert(s1.skip(i1).len() == s1.len() - i1);
    assert(s2.skip(i2).len() == s2.len() - i2);
    if i1 == s1.len() {
        assert(i2 == s2.len());
    } else {
        assert(s1[i1] == s1.skip(i1)[0]);
        assert(s2[i2] == s2.skip(i2)[0]);
        assert(s1.skip(i1 + 1) =~= s2.skip(i2 + 1)) by {
            assert forall|k: int| 0 <= k < s1.len() - i1 - 1 implies #[trigger] s1.skip(i1 + 1)[k]
                == s2.skip(i2 + 1)[k] by {
                assert(s1.skip(i1 + 1)[k] == s1.skip(i1)[k + 1]);
                assert(s2.skip(i2 + 1)[k] == s2.skip(i2)[k + 1]);
            }
        }
        if is_space(s1[i1]) {
            if cur.len() > 0 {
                lemma_tokens_from_suffix(s1, i1 + 1, s2, i2 + 1, Seq::empty(), acc.push(cur));
            } else {
                lemma_tokens_from_suffix(s1, i1 + 1, s2, i2 + 1, cur, acc);
            }
        } else {
            lemma_tokens_from_suffix(s1, i1 + 1, s2, i2 + 1, cur.push(s1[i1]), acc);
        }
    }
}

/// Whitespace in front of the text changes nothing about its tokens.
pub proof fn lemma_tokens_leading_space(c: char, s: Seq<char>)
    requires
        is_space(c),
    ensures
        tokens_of(seq![c] + s) == tokens_of(s),
{
    let s1 = seq![c] + s;
    assert(s1[0] == c);
    assert(s1.skip(1) =~= s.skip(0));
    lemma_tokens_from_suffix(s1, 1, s, 0, Seq::empty(), Seq::empty());
}

proof fn lemma_tokens_from_trailing_space(
    s: Seq<char>,
    c: char,
    i: int,
    cur: Seq<char>,
    acc: Seq<Seq<char>>,
)
    requires
        is_space(c),
        0 <= i <= s.len(),
    ensures
        tokens_from(s.push(c), i, cur, acc) == tokens_from(s, i, cur, acc),
    decreases s.len() - i,
{
    let s1 = s.push(c);
    if i == s.len() {
        assert(s1[i] == c);
        if cur.len() > 0 {
            assert(tokens_from(s1, i + 1, Seq::empty(), acc.push(cur)) == acc.push(cur));
        } else {
            assert(tokens_from(s1, i + 1, cur, acc) == acc);
        }
    } else {
        assert(s1[i] == s[i]);
        if is_space(s[i]) {
            if cur.len() > 0 {
                lemma_tokens_from_trailing_space(s, c, i + 1, Seq::empty(), acc.push(cur));
            } else {
                lemma_tokens_from_trailing_space(s, c, i + 1, cur, acc);
            }
        } else {
            lemma_tokens_from_trailing_space(s, c, i + 1, cur.push(s[i]), acc);
        }
    }
}

/// Whitespace at the end of the text changes nothing about its tokens.
pub proof fn lemma_tokens_trailing_space(s: Seq<char>, c: char)
    requires
        is_space(c),
    ensures
        tokens_of(s.push(c)) == tokens_of(s),
{
    lemma_tokens_from_trailing_space(s, c, 0, Seq::empty(), Seq::empty());
}

proof fn lemma_tokens_from_insert_space(
    s: Seq<char>,
    p: int,
    c: char,
    i: int,
    cur: Seq<char>,
    acc: Seq<Seq<char>>,
)
    requires
        is_space(c),
        0 <= i <= p < s.len(),
        is_space(s[p]),
    ensures
        tokens_from(s.insert(p, c), i, cur, acc) == tokens_from(s, i, cur, acc),
    decreases p - i,
{
    let s1 = s.insert(p, c);
    s.insert_ensures(p, c);
    if i == p {
        assert(s1[p] == c);
        assert(s1.skip(p + 1) =~= s.skip(p)) by {
            assert forall|k: int| 0 <= k < s.len() - p implies s1.skip(p + 1)[k] == s.skip(p)[k] by {
                assert(s1[p + 1 + k] == s[p + k]);
            }
        }
        if cur.len() > 0 {
            lemma_tokens_from_suffix(s1, p + 1, s, p, Seq::empty(), acc.push(cur));
        } else {
            lemma_tokens_from_suffix(s1, p + 1, s, p, cur, acc);
        }
    } else {
        assert(s1[i] == s[i]);
        if is_space(s[i]) {
            if cur.len() > 0 {
                lemma_tokens_from_insert_space(s, p, c, i + 1, Seq::empty(), acc.push(cur));
            } else {
                lemma_tokens_from_insert_space(s, p, c, i + 1, cur, acc);
            }
        } else {
            lemma_tokens_from_insert_space(s, p, c, i + 1, cur.push(s[i]), acc);
        }
    }
}

/// One more whitespace character next to existing whitespace changes nothing
/// about the tokens: runs of whitespace may be stretched at will.
pub proof fn lemma_tokens_insert_space(s: Seq<char>, p: int, c: char)
    requires
        is_space(c),
        0 <= p < s.len(),
        is_space(s[p]),
    ensures
        tokens_of(s.insert(p, c)) == tokens_of(s),
{
    lemma_tokens_from_insert_space(s, p, c, 0, Seq::empty(), Seq::empty());
}

/// Case folding distributes over insertion: folding after inserting a
/// character is inserting the folded character into the folded text.
pub proof fn lemma_lower_insert(s: Seq<char>, p: int, c: char)
    requires
        0 <= p <= s.len(),
    ensures
        lower(s.insert(p, c)) == lower(s).insert(p, lower_char(c)),
{
    s.insert_ensures(p, c);
    lower(s).insert_ensures(p, lower_char(c));
    assert(lower(s.insert(p, c)) =~= lower(s).insert(p, lower_char(c))) by {
        assert forall|k: int| 0 <= k < s.len() + 1 implies lower(s.insert(p, c))[k] == lower(
            s,
        ).insert(p, lower_char(c))[k] by {
            if k < p {
                assert(s.insert(p, c)[k] == s[k]);
                assert(lower(s).insert(p, lower_char(c))[k] == lower(s)[k]);
            } else if k == p {
                assert(s.insert(p, c)[p] == c);
                assert(lower(s).insert(p, lower_char(c))[p] == lower_char(c));
            } else {
                assert(s.insert(p, c)[k] == s[k - 1]);
                assert(lower(s).insert(p, lower_char(c))[k] == lower(s)[k - 1]);
            }
        }
    }
}

/// Splits a sequence of characters into its whitespace-separated tokens.
pub fn tokenize(s: &[char]) -> (toks: Vec<Vec<char>>)
    ensures
        toks.deep_view() == tokens_of(s@),
{
    let ghost whole: Seq<char> = s@;
    let mut toks: Vec<Vec<char>> = Vec::new();
    let mut cur: Vec<char> = Vec::new();
    let mut i: usize = 0;
    assert(toks.deep_view() =~~= Seq::<Seq<char>>::empty());
    while i < s.len()
        invariant
            i <= s.len(),
            s@ == whole,
            tokens_of(whole) == tokens_from(whole, i as int, cur@, toks.deep_view()),
        decreases s@.len() - i,
    {
        let c = s[i];
        if space(c) {
            if cur.len() > 0 {
                let ghost old_toks = toks.deep_view();
                let ghost done = cur@;
                toks.push(cur);
                assert(toks.deep_view() =~~= old_toks.push(done));
                cur = Vec::new();
            }
        } else {
            cur.push(c);
        }
        i = i + 1;
    }
    if cur.len() > 0 {
        let ghost old_toks = toks.deep_view();
        let ghost done = cur@;
        toks.push(cur);
        assert(toks.deep_view() =~~= old_toks.push(done));
    }
    toks
}

} // verus!
