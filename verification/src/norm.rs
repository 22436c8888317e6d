//! Text normalization for the parser: trimming surrounding whitespace,
//! lowercasing ASCII letters, turning spaces into underscores, and
//! stripping parentheses.

use vstd::prelude::*;

verus! {

/// Whether a character has the Unicode white-space property, as `str::trim`
/// understands it.
pub open spec fn is_ws(c: char) -> bool {
    ||| c == '\t'
    ||| c == '\n'
    ||| c == '\u{0B}'
    ||| c == '\u{0C}'
    ||| c == '\r'
    ||| c == ' '
    ||| c == '\u{85}'
    ||| c == '\u{A0}'
    ||| c == '\u{1680}'
    ||| ('\u{2000}' <= c && c <= '\u{200A}')
    ||| c == '\u{2028}'
    ||| c == '\u{2029}'
    ||| c == '\u{202F}'
    ||| c == '\u{205F}'
    ||| c == '\u{3000}'
}

/// An ASCII uppercase letter mapped to its lowercase form; any other
/// character unchanged.
pub open spec fn lower_char(c: char) -> char {
    if 'A' <= c && c <= 'Z' {
        ((c as u8) + 32) as char
    } else {
        c
    }
}

/// What one (already trimmed) character contributes to the normalized text:
/// it is lowercased, then a parenthesis is dropped, a space becomes an
/// underscore, and anything else stays.
pub open spec fn norm_char(c: char) -> Seq<char> {
    let l = lower_char(c);
    if l == '(' || l == ')' {
        Seq::<char>::empty()
    } else if l == ' ' {
        seq!['_']
    } else {
        seq![l]
    }
}

/// The per-character normalization of a whole sequence.
pub open spec fn norm_seq(s: Seq<char>) -> Seq<char>
    decreases s.len(),
{
    if s.len() == 0 {
        Seq::<char>::empty()
    } else {
        norm_seq(s.drop_last()) + norm_char(s.last())
    }
}

/// The number of white-space characters at the front of `s`.
pub open spec fn lead_ws(s: Seq<char>) -> nat
    decreases s.len(),
{
    if s.len() > 0 && is_ws(s[0]) {
        1 + lead_ws(s.drop_first())
    } else {
        0
    }
}

/// The number of white-space characters at the back of `s`.
pub open spec fn trail_ws(s: Seq<char>) -> nat
    decreases s.len(),
{
    if s.len() > 0 && is_ws(s.last()) {
        1 + trail_ws(s.drop_last())
    } else {
        0
    }
}

/// `s` with its surrounding white space removed.
pub open spec fn trim_spec(s: Seq<char>) -> Seq<char> {
    if lead_ws(s) == s.len() {
        Seq::<char>::empty()
    } else {
        s.subrange(lead_ws(s) as int, s.len() - trail_ws(s) as int)
    }
}

/// The whole normalization: trim, then the per-character rewriting.
pub open spec fn normalize(s: Seq<char>) -> Seq<char> {
    norm_seq(trim_spec(s))
}

/// `lead_ws` counts exactly the white-space prefix of `s`.
pub proof fn lemma_lead_ws(s: Seq<char>)
    ensures
        lead_ws(s) <= s.len(),
        forall|j: int| 0 <= j < lead_ws(s) ==> is_ws(s[j]),
        lead_ws(s) < s.len() ==> !is_ws(s[lead_ws(s) as int]),
    decreases s.len(),
{
    if s.len() > 0 && is_ws(s[0]) {
        lemma_lead_ws(s.drop_first());
        assert forall|j: int| 0 <= j < lead_ws(s) implies is_ws(s[j]) by {
            if j > 0 {
                assert(s.drop_first()[j - 1] == s[j]);
            }
        }
        if lead_ws(s) < s.len() {
            assert(s.drop_first()[lead_ws(s) as int - 1] == s[lead_ws(s) as int]);
        }
    }
}

/// The white-space prefix length is determined by any index `k` that bounds
/// a white-space prefix and is itself not white space (or the end).
pub proof fn lemma_lead_ws_unique(s: Seq<char>, k: int)
    requires
        0 <= k <= s.len(),
        forall|j: int| 0 <= j < k ==> is_ws(s[j]),
        k == s.len() || !is_ws(s[k]),
    ensures
        lead_ws(s) == k,
{
    lemma_lead_ws(s);
    if lead_ws(s) < k {
        assert(is_ws(s[lead_ws(s) as int]));
    }
    if lead_ws(s) > k {
        assert(is_ws(s[k]));
    }
}

/// `trail_ws` counts exactly the white-space suffix of `s`.
pub proof fn lemma_trail_ws(s: Seq<char>)
    ensures
        trail_ws(s) <= s.len(),
        forall|j: int| s.len() - trail_ws(s) <= j < s.len() ==> is_ws(s[j]),
        trail_ws(s) < s.len() ==> !is_ws(s[s.len() - trail_ws(s) - 1]),
    decreases s.len(),
{
    if s.len() > 0 && is_ws(s.last()) {
        lemma_trail_ws(s.drop_last());
        assert forall|j: int| s.len() - trail_ws(s) <= j < s.len() implies is_ws(s[j]) by {
            if j < s.len() - 1 {
                assert(s.drop_last()[j] == s[j]);
            }
        }
        if trail_ws(s) < s.len() {
            assert(s.drop_last()[s.len() - trail_ws(s) - 1] == s[s.len() - trail_ws(s) - 1]);
        }
    }
}

/// The white-space suffix length is determined by any index `k` from which
/// everything is white space while `s[k - 1]` is not (or `k` is 0).
pub proof fn lemma_trail_ws_unique(s: Seq<char>, k: int)
    requires
        0 <= k <= s.len(),
        forall|j: int| k <= j < s.len() ==> is_ws(s[j]),
        k == 0 || !is_ws(s[k - 1]),
    ensures
        trail_ws(s) == s.len() - k,
    decreases s.len(),
{
    lemma_trail_ws(s);
    if s.len() - trail_ws(s) < k {
        assert(is_ws(s[k - 1]));
    }
    if s.len() - trail_ws(s) > k {
        assert(is_ws(s[s.len() - trail_ws(s) - 1]));
    }
}

/// Whether a character passes through normalization unchanged: it is not
/// white space, not an ASCII capital, not a parenthesis.
pub open spec fn is_plain_char(c: char) -> bool {
    &&& !is_ws(c)
    &&& !('A' <= c && c <= 'Z')
    &&& c != '('
    &&& c != ')'
}

/// The per-character rewriting leaves a sequence of plain characters alone.
pub proof fn lemma_norm_seq_plain(s: Seq<char>)
    requires
        forall|i: int| 0 <= i < s.len() ==> is_plain_char(s[i]),
    ensures
        norm_seq(s) == s,
    decreases s.len(),
{
    if s.len() == 0 {
        assert(norm_seq(s) =~= s);
    } else {
        lemma_norm_seq_plain(s.drop_last());
        assert(norm_seq(s) =~= s);
    }
}

/// Normalization leaves a non-empty sequence of plain characters alone.
pub proof fn lemma_normalize_plain(s: Seq<char>)
    requires
        forall|i: int| 0 <= i < s.len() ==> is_plain_char(s[i]),
    ensures
        normalize(s) == s,
{
    lemma_lead_ws_unique(s, 0);
    if s.len() > 0 {
        lemma_trail_ws_unique(s, s.len() as int);
        assert(trim_spec(s) =~= s);
    } else {
        assert(trim_spec(s) =~= s);
    }
    lemma_norm_seq_plain(s);
}

/// `s` with every ASCII capital lowercased.
pub open spec fn lower_seq(s: Seq<char>) -> Seq<char> {
    s.map_values(|c: char| lower_char(c))
}

/// Lowercasing does not change whether a character is white space.
pub proof fn lemma_lower_preserves_ws(c: char)
    ensures
        is_ws(lower_char(c)) == is_ws(c),
{
}

/// Lowercasing is idempotent.
pub proof fn lemma_lower_idempotent(c: char)
    ensures
        lower_char(lower_char(c)) == lower_char(c),
{
}

/// The per-character rewriting does not see case: it lowercases first.
pub proof fn lemma_norm_seq_lower(s: Seq<char>)
    ensures
        norm_seq(lower_seq(s)) == norm_seq(s),
    decreases s.len(),
{
    if s.len() == 0 {
        assert(lower_seq(s) =~= s);
    } else {
        lemma_norm_seq_lower(s.drop_last());
        lemma_lower_idempotent(s.last());
        assert(lower_seq(s).drop_last() =~= lower_seq(s.drop_last()));
        assert(lower_seq(s).last() == lower_char(s.last()));
        assert(norm_char(lower_char(s.last())) == norm_char(s.last()));
    }
}

/// Normalization does not see case: lowercasing the input first changes
/// nothing.
pub proof fn lemma_normalize_lower(s: Seq<char>)
    ensures
        normalize(lower_seq(s)) == normalize(s),
{
    let ls = lower_seq(s);
    lemma_lead_ws(s);
    lemma_trail_ws(s);
    assert forall|j: int| 0 <= j < s.len() implies is_ws(ls[j]) == is_ws(s[j]) by {
        lemma_lower_preserves_ws(s[j]);
    }
    lemma_lead_ws_unique(ls, lead_ws(s) as int);
    if lead_ws(s) == s.len() {
        assert(trim_spec(ls) =~= trim_spec(s));
        assert(normalize(ls) == normalize(s));
    } else {
        lemma_trail_ws_unique(ls, s.len() - trail_ws(s) as int);
        assert(trim_spec(ls) =~= lower_seq(trim_spec(s)));
        lemma_norm_seq_lower(trim_spec(s));
    }
}

/// Normalization ignores surrounding white space.
pub proof fn lemma_normalize_padded(s: Seq<char>, w1: Seq<char>, w2: Seq<char>)
    requires
        forall|i: int| 0 <= i < w1.len() ==> is_ws(w1[i]),
        forall|i: int| 0 <= i < w2.len() ==> is_ws(w2[i]),
    ensures
        normalize(w1 + s + w2) == normalize(s),
{
    let x = w1 + s + w2;
    lemma_lead_ws(s);
    lemma_trail_ws(s);
    if lead_ws(s) == s.len() {
        assert forall|j: int| 0 <= j < x.len() implies is_ws(x[j]) by {
            if j < w1.len() {
                assert(x[j] == w1[j]);
            } else if j < w1.len() + s.len() {
                assert(x[j] == s[j - w1.len()]);
            } else {
                assert(x[j] == w2[j - w1.len() - s.len()]);
            }
        }
        lemma_lead_ws_unique(x, x.len() as int);
        assert(trim_spec(x) =~= trim_spec(s));
        assert(normalize(x) == normalize(s));
    } else {
        let lo = lead_ws(s) as int;
        let tr = trail_ws(s) as int;
        assert(!is_ws(s[lo]));
        assert(tr < s.len()) by {
            if tr == s.len() {
                assert(is_ws(s[lo]));
            }
        }
        assert(lo < s.len() - tr) by {
            if s.len() - tr <= lo {
                assert(is_ws(s[lo]));
            }
        }
        assert forall|j: int| 0 <= j < w1.len() + lo implies is_ws(x[j]) by {
            if j < w1.len() {
                assert(x[j] == w1[j]);
            } else {
                assert(x[j] == s[j - w1.len()]);
            }
        }
        assert(x[w1.len() + lo] == s[lo]);
        lemma_lead_ws_unique(x, w1.len() + lo);
        let k = w1.len() + s.len() - tr;
        assert forall|j: int| k <= j < x.len() implies is_ws(x[j]) by {
            if j < w1.len() + s.len() {
                assert(x[j] == s[j - w1.len()]);
            } else {
                assert(x[j] == w2[j - w1.len() - s.len()]);
            }
        }
        assert(x[k - 1] == s[s.len() - tr - 1]);
        assert(!is_ws(x[k - 1]));
        lemma_trail_ws_unique(x, k);
        assert(trim_spec(x) =~= trim_spec(s));
        assert(normalize(x) == normalize(s));
    }
}

/// Exec test for the Unicode white-space property.
pub(crate) fn char_is_ws(c: char) -> (r: bool)
    ensures
        r == is_ws(c),
{
    c == '\t' || c == '\n' || c == '\u{0B}' || c == '\u{0C}' || c == '\r' || c == ' '
        || c == '\u{85}' || c == '\u{A0}' || c == '\u{1680}'
        || ('\u{2000}' <= c && c <= '\u{200A}') || c == '\u{2028}' || c == '\u{2029}'
        || c == '\u{202F}' || c == '\u{205F}' || c == '\u{3000}'
}

/// Exec ASCII lowercasing of one character.
pub(crate) fn char_lower(c: char) -> (r: char)
    ensures
        r == lower_char(c),
{
    if 'A' <= c && c <= 'Z' {
        let b: u8 = c as u8;
        (b + 32) as char
    } else {
        c
    }
}

/// The characters of `s`, in order.
pub(crate) fn chars_of(s: &str) -> (v: Vec<char>)
    ensures
        v@ == s@,
{
    let n: usize = s.unicode_len();
    let mut v: Vec<char> = Vec::new();
    let mut i: usize = 0;
    while i < n
        invariant
            n == s@.len(),
            i <= n,
            v@ == s@.take(i as int),
        decreases n - i,
    {
        v.push(s.get_char(i));
        i += 1;
        proof {
            assert(v@ =~= s@.take(i as int));
        }
    }
    proof {
        assert(v@ =~= s@);
    }
    v
}

/// Whether the characters held in `v` are exactly those of `s`.
pub(crate) fn vec_eq_str(v: &Vec<char>, s: &str) -> (r: bool)
    ensures
        r == (v@ == s@),
{
    let n: usize = s.unicode_len();
    if v.len() != n {
        return false;
    }
    let mut i: usize = 0;
    while i < n
        invariant
            n == s@.len(),
            v@.len() == n,
            i <= n,
            forall|j: int| 0 <= j < i ==> v@[j] == s@[j],
        decreases n - i,
    {
        if v[i] != s.get_char(i) {
            return false;
        }
        i += 1;
    }
    proof {
        assert(v@ =~= s@);
    }
    true
}

/// The normalized form of the characters in `v`: surrounding white space
/// trimmed, ASCII capitals lowercased, spaces turned into underscores,
/// parentheses stripped.
pub(crate) fn normalize_vec(v: &Vec<char>) -> (out: Vec<char>)
    ensures
        out@ == normalize(v@),
{
    let n: usize = v.len();
    let mut lo: usize = 0;
    while lo < n && char_is_ws(v[lo])
        invariant
            n == v@.len(),
            lo <= n,
            forall|j: int| 0 <= j < lo ==> is_ws(v@[j]),
        decreases n - lo,
    {
        lo += 1;
    }
    proof {
        lemma_lead_ws_unique(v@, lo as int);
    }
    if lo == n {
        proof {
            assert(trim_spec(v@) =~= Seq::<char>::empty());
            assert(normalize(v@) =~= Seq::<char>::empty());
        }
        return Vec::new();
    }
    let mut hi: usize = n;
    while hi > lo && char_is_ws(v[hi - 1])
        invariant
            n == v@.len(),
            lo <= hi <= n,
            forall|j: int| hi <= j < n ==> is_ws(v@[j]),
        decreases hi,
    {
        hi -= 1;
    }
    proof {
        assert(hi > lo) by {
            if hi == lo {
                assert(is_ws(v@[lo as int]));
            }
        }
        lemma_trail_ws_unique(v@, hi as int);
        assert(trim_spec(v@) == v@.subrange(lo as int, hi as int));
    }
    let ghost t: Seq<char> = v@.subrange(lo as int, hi as int);
    let mut out: Vec<char> = Vec::new();
    let mut i: usize = lo;
    while i < hi
        invariant
            n == v@.len(),
            lo <= i <= hi <= n,
            t == v@.subrange(lo as int, hi as int),
            out@ == norm_seq(v@.subrange(lo as int, i as int)),
        decreases hi - i,
    {
        let c = v[i];
        proof {
            let prev = v@.subrange(lo as int, i as int);
            let cur = v@.subrange(lo as int, i as int + 1);
            assert(cur.drop_last() =~= prev);
            assert(cur.last() == v@[i as int]);
        }
        let l = char_lower(c);
        if l == '(' || l == ')' {
            proof {
                assert(out@ =~= norm_seq(v@.subrange(lo as int, i as int + 1)));
            }
        } else if l == ' ' {
            out.push('_');
            proof {
                assert(out@ =~= norm_seq(v@.subrange(lo as int, i as int + 1)));
            }
        } else {
            out.push(l);
            proof {
                assert(out@ =~= norm_seq(v@.subrange(lo as int, i as int + 1)));
            }
        }
        i += 1;
    }
    out
}

} // verus!
