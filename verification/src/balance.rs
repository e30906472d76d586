//! Paired delimiters in emitted text: how far a text opens each class of
//! delimiter without closing it.

use vstd::prelude::*;
use crate::text::{decimal, digit, joined};

verus! {

/// For each class of paired delimiter, the number of opening delimiters
/// minus the number of closing ones.
pub struct Depth {
    pub paren: int,
    pub brace: int,
    pub angle: int,
    pub bracket: int,
}

impl Depth {
    /// No delimiter left open or closed in excess.
    pub open spec fn zero() -> Depth {
        Depth { paren: 0, brace: 0, angle: 0, bracket: 0 }
    }

    /// The depths of two texts, added class by class.
    pub open spec fn plus(self, other: Depth) -> Depth {
        Depth {
            paren: self.paren + other.paren,
            brace: self.brace + other.brace,
            angle: self.angle + other.angle,
            bracket: self.bracket + other.bracket,
        }
    }

    /// What one character adds to the depth.
    pub open spec fn of_char(c: char) -> Depth {
        Depth {
            paren: if c == '(' { 1 } else if c == ')' { -1int } else { 0 },
            brace: if c == '{' { 1 } else if c == '}' { -1int } else { 0 },
            angle: if c == '<' { 1 } else if c == '>' { -1int } else { 0 },
            bracket: if c == '[' { 1 } else if c == ']' { -1int } else { 0 },
        }
    }
}

/// `n` parentheses left open, and nothing else.
pub open spec fn parens(n: int) -> Depth {
    Depth { paren: n, brace: 0, angle: 0, bracket: 0 }
}

/// `n` braces left open, and nothing else.
pub open spec fn braces(n: int) -> Depth {
    Depth { paren: 0, brace: n, angle: 0, bracket: 0 }
}

/// `n` angle brackets left open, and nothing else.
pub open spec fn angles(n: int) -> Depth {
    Depth { paren: 0, brace: 0, angle: n, bracket: 0 }
}

/// The depth after the first `n` characters of `s`.
pub open spec fn depth_upto(s: Seq<char>, n: int) -> Depth
    decreases n,
{
    if n <= 0 {
        Depth::zero()
    } else {
        depth_upto(s, n - 1).plus(Depth::of_char(s[n - 1]))
    }
}

/// The depth of the whole text `s`.
pub open spec fn depth(s: Seq<char>) -> Depth {
    depth_upto(s, s.len() as int)
}

/// Whether every class of delimiter is opened as often as it is closed in `s`.
pub open spec fn balanced(s: Seq<char>) -> bool {
    depth(s) == Depth::zero()
}

/// The depth after the first `n` characters is the same in two texts that
/// agree on those characters.
proof fn lemma_depth_upto_agrees(s: Seq<char>, t: Seq<char>, n: int)
    requires
        0 <= n <= s.len(),
        n <= t.len(),
        forall|i: int| 0 <= i < n ==> s[i] == t[i],
    ensures
        depth_upto(s, n) == depth_upto(t, n),
    decreases n,
{
    if n > 0 {
        lemma_depth_upto_agrees(s, t, n - 1);
    }
}

proof fn lemma_depth_upto_concat(a: Seq<char>, b: Seq<char>, n: int)
    requires
        0 <= n <= b.len(),
    ensures
        depth_upto(a + b, a.len() + n) == depth(a).plus(depth_upto(b, n)),
    decreases n,
{
    if n == 0 {
        lemma_depth_upto_agrees(a + b, a, a.len() as int);
    } else {
        lemma_depth_upto_concat(a, b, n - 1);
        assert((a + b)[a.len() + n - 1] == b[n - 1]);
    }
}

/// The depth of two texts written one after the other is the sum of their depths.
pub broadcast proof fn lemma_depth_concat(a: Seq<char>, b: Seq<char>)
    ensures
        #[trigger] depth(a + b) == depth(a).plus(depth(b)),
{
    lemma_depth_upto_concat(a, b, b.len() as int);
}

/// A decimal numeral holds no delimiter.
pub proof fn lemma_decimal_balanced(n: nat)
    ensures
        balanced(decimal(n)),
    decreases n,
{
    if n < 10 {
        reveal_with_fuel(depth_upto, 2);
    } else {
        lemma_decimal_balanced(n / 10);
        let head = decimal(n / 10);
        let last = seq![digit(n % 10)];
        assert(decimal(n) =~= head + last);
        lemma_depth_concat(head, last);
        reveal_with_fuel(depth_upto, 2);
    }
}

/// Balanced texts joined by a balanced separator make a balanced text.
pub proof fn lemma_joined_balanced(parts: Seq<Seq<char>>, sep: Seq<char>)
    requires
        forall|i: int| 0 <= i < parts.len() ==> balanced(#[trigger] parts[i]),
        balanced(sep),
    ensures
        balanced(joined(parts, sep)),
    decreases parts.len(),
{
    if parts.len() >= 2 {
        lemma_joined_balanced(parts.drop_last(), sep);
        lemma_depth_concat(joined(parts.drop_last(), sep), sep);
        lemma_depth_concat(joined(parts.drop_last(), sep) + sep, parts.last());
    }
}

} // verus!
