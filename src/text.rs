//! Text building blocks with exact specifications.

use vstd::prelude::*;
use vstd::string::{StrSliceExecFns, StringExecFns};

verus! {

/// The character of the decimal digit `d` (for `d < 10`).
pub open spec fn digit_char(d: nat) -> char {
    seq!['0', '1', '2', '3', '4', '5', '6', '7', '8', '9'][d as int]
}

/// The decimal representation of `n`, without sign or leading zeros.
pub open spec fn decimal(n: nat) -> Seq<char>
    decreases n,
{
    if n < 10 {
        seq![digit_char(n)]
    } else {
        decimal(n / 10) + seq![digit_char(n % 10)]
    }
}

/// What a single character becomes when line breaks are flattened.
pub open spec fn flatten_char(c: char) -> Seq<char> {
    if c == '\n' {
        seq![',', ' ']
    } else {
        seq![c]
    }
}

/// `s` with every line break replaced by a comma and a space.
pub open spec fn flatten_lines(s: Seq<char>) -> Seq<char>
    decreases s.len(),
{
    if s.len() == 0 {
        Seq::empty()
    } else {
        flatten_lines(s.drop_last()) + flatten_char(s.last())
    }
}

/// `sub` occurs in `s` as a contiguous run.
pub open spec fn contains_seq(s: Seq<char>, sub: Seq<char>) -> bool {
    exists|i: int| 0 <= i && i + sub.len() <= s.len() && #[trigger] s.subrange(i, i + sub.len()) == sub
}

/// Flattening line breaks works piece by piece.
pub proof fn lemma_flatten_concat(a: Seq<char>, b: Seq<char>)
    ensures
        flatten_lines(a + b) == flatten_lines(a) + flatten_lines(b),
    decreases b.len(),
{
    if b.len() == 0 {
        assert(a + b =~= a);
        assert(flatten_lines(a) + flatten_lines(b) =~= flatten_lines(a));
    } else {
        let ab = a + b;
        assert(ab.drop_last() =~= a + b.drop_last());
        assert(ab.last() == b.last());
        lemma_flatten_concat(a, b.drop_last());
        assert(flatten_lines(ab) =~= flatten_lines(a) + flatten_lines(b));
    }
}

/// A run that occurs in `t` still occurs, flattened, in `t` flattened.
pub proof fn lemma_flatten_contains(t: Seq<char>, sub: Seq<char>)
    requires
        contains_seq(t, sub),
    ensures
        contains_seq(flatten_lines(t), flatten_lines(sub)),
{
    let i = choose|i: int| 0 <= i && i + sub.len() <= t.len() && #[trigger] t.subrange(i, i + sub.len()) == sub;
    let pre = t.subrange(0, i);
    let post = t.subrange(i + sub.len(), t.len() as int);
    assert(t =~= pre + sub + post);
    lemma_flatten_concat(pre + sub, post);
    lemma_flatten_concat(pre, sub);
    let ft = flatten_lines(t);
    let fs = flatten_lines(sub);
    let j = flatten_lines(pre).len() as int;
    assert(ft.subrange(j, j + fs.len()) =~= fs);
}

/// A run that occurs in `x` occurs in anything built around `x`.
pub proof fn lemma_contains_within(p: Seq<char>, x: Seq<char>, q: Seq<char>, sub: Seq<char>)
    requires
        contains_seq(x, sub),
    ensures
        contains_seq(p + x + q, sub),
{
    let i = choose|i: int| 0 <= i && i + sub.len() <= x.len() && #[trigger] x.subrange(i, i + sub.len()) == sub;
    let whole = p + x + q;
    let j = p.len() + i;
    assert(whole.subrange(j, j + sub.len()) =~= sub);
}

fn digit_str(d: usize) -> (r: &'static str)
    requires
        d < 10,
    ensures
        r@ == seq![digit_char(d as nat)],
{
    let digits = "0123456789";
    proof {
        reveal_strlit("0123456789");
    }
    let r = digits.substring_char(d, d + 1);
    assert(r@ =~= seq![digit_char(d as nat)]);
    r
}

/// Renders `n` in decimal.
pub fn decimal_string(n: usize) -> (r: String)
    ensures
        r@ == decimal(n as nat),
    decreases n,
{
    if n < 10 {
        String::from_str(digit_str(n))
    } else {
        let mut s = decimal_string(n / 10);
        s.append(digit_str(n % 10));
        s
    }
}

/// Copies `s`, replacing every line break by a comma and a space.
pub fn flatten_line_breaks(s: &str) -> (r: String)
    ensures
        r@ == flatten_lines(s@),
{
    let n = s.unicode_len();
    let mut r = String::new();
    let mut i: usize = 0;
    while i < n
        invariant
            n == s@.len(),
            i <= n,
            r@ == flatten_lines(s@.subrange(0, i as int)),
        decreases n - i,
    {
        let c = s.get_char(i);
        if c == '\n' {
            r.append(", ");
        } else {
            r.append(s.substring_char(i, i + 1));
        }
        proof {
            reveal_strlit(", ");
            let next = s@.subrange(0, i + 1);
            assert(next.drop_last() =~= s@.subrange(0, i as int));
            assert(next.last() == c);
        }
        assert(r@ =~= flatten_lines(s@.subrange(0, i + 1)));
        i = i + 1;
    }
    assert(s@.subrange(0, n as int) =~= s@);
    r
}

} // verus!
