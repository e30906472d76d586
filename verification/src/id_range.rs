//! What the generator of the `id` and `range` classes decides: the
//! operators that the classes overload, with the kind of each, and the
//! configuration of one rendering.

use vstd::prelude::*;
use vstd::string::StringExecFns;

verus! {

/// The relational operators.
pub open spec fn relational_operators() -> Seq<Seq<char>> {
    seq!["=="@, "!="@]
}

/// The binary operators.
pub open spec fn binary_operators() -> Seq<Seq<char>> {
    seq![
        "+"@,
        "-"@,
        "*"@,
        "/"@,
        "%"@,
        "<<"@,
        ">>"@,
        "&"@,
        "|"@,
        "^"@,
        "&&"@,
        "||"@,
        "<"@,
        ">"@,
        "<="@,
        ">="@,
    ]
}

/// The compound assignment operators.
pub open spec fn compound_operators() -> Seq<Seq<char>> {
    seq!["+="@, "-="@, "*="@, "/="@, "%="@, "<<="@, ">>="@, "&="@, "|="@, "^="@]
}

/// All the operators, in the order in which they are generated: the
/// relational ones, then the binary ones, then the compound ones.
pub open spec fn all_operators() -> Seq<Seq<char>> {
    relational_operators() + binary_operators() + compound_operators()
}

/// The kind of the operator `op`, told from its text: 0 for a relational
/// one, 1 for a binary one, 2 for a compound assignment. An operator that
/// ends in `=` is relational after `=` or `!`, binary after a single `<` or
/// `>`, and compound otherwise; any other operator is binary.
spec fn kind(op: Seq<char>) -> int {
    if op.len() >= 1 && op.last() == '=' {
        if op.len() == 2 && (op[0] == '=' || op[0] == '!') {
            0
        } else if op.len() == 2 && (op[0] == '<' || op[0] == '>') {
            1
        } else {
            2
        }
    } else {
        1
    }
}

/// Whether every operator of `ops` is of the kind `k`.
spec fn all_of_kind(ops: Seq<Seq<char>>, k: int) -> bool
    decreases ops.len(),
{
    ops.len() == 0 || (all_of_kind(ops.drop_last(), k) && kind(ops.last()) == k)
}

proof fn lemma_all_of_kind(ops: Seq<Seq<char>>, k: int, op: Seq<char>)
    requires
        all_of_kind(ops, k),
        ops.contains(op),
    ensures
        kind(op) == k,
    decreases ops.len(),
{
    if ops.last() != op {
        let i = choose|i: int| 0 <= i < ops.len() && ops[i] == op;
        assert(ops.drop_last()[i] == op);
        lemma_all_of_kind(ops.drop_last(), k, op);
    }
}

proof fn lemma_kinds()
    ensures
        all_of_kind(relational_operators(), 0),
        all_of_kind(binary_operators(), 1),
        all_of_kind(compound_operators(), 2),
{
    reveal_with_fuel(all_of_kind, 17);
    reveal_strlit("==");
    reveal_strlit("!=");
    reveal_strlit("+");
    reveal_strlit("-");
    reveal_strlit("*");
    reveal_strlit("/");
    reveal_strlit("%");
    reveal_strlit("<<");
    reveal_strlit(">>");
    reveal_strlit("&");
    reveal_strlit("|");
    reveal_strlit("^");
    reveal_strlit("&&");
    reveal_strlit("||");
    reveal_strlit("<");
    reveal_strlit(">");
    reveal_strlit("<=");
    reveal_strlit(">=");
    reveal_strlit("+=");
    reveal_strlit("-=");
    reveal_strlit("*=");
    reveal_strlit("/=");
    reveal_strlit("%=");
    reveal_strlit("<<=");
    reveal_strlit(">>=");
    reveal_strlit("&=");
    reveal_strlit("|=");
    reveal_strlit("^=");
}

/// Every operator is of exactly one kind: relational, binary or compound.
pub proof fn lemma_one_kind_per_operator(op: Seq<char>)
    requires
        all_operators().contains(op),
    ensures
        relational_operators().contains(op) || binary_operators().contains(op)
            || compound_operators().contains(op),
        !(relational_operators().contains(op) && binary_operators().contains(op)),
        !(relational_operators().contains(op) && compound_operators().contains(op)),
        !(binary_operators().contains(op) && compound_operators().contains(op)),
{
    lemma_kinds();
    if relational_operators().contains(op) {
        lemma_all_of_kind(relational_operators(), 0, op);
    }
    if binary_operators().contains(op) {
        lemma_all_of_kind(binary_operators(), 1, op);
    }
    if compound_operators().contains(op) {
        lemma_all_of_kind(compound_operators(), 2, op);
    }
    let i = choose|i: int| 0 <= i < all_operators().len() && all_operators()[i] == op;
    if i < 2 {
        assert(relational_operators()[i] == op);
    } else if i < 18 {
        assert(binary_operators()[i - 2] == op);
    } else {
        assert(compound_operators()[i - 18] == op);
    }
}

/// The texts of the strings of `ops`.
pub open spec fn texts(ops: Seq<&str>) -> Seq<Seq<char>> {
    Seq::new(ops.len(), |i: int| ops[i]@)
}

/// The texts of the operators of `ops`.
pub open spec fn operator_texts(ops: Seq<Op>) -> Seq<Seq<char>> {
    Seq::new(ops.len(), |i: int| ops[i].str@)
}

/// An operator, by its text.
#[derive(Debug, PartialEq, Eq)]
pub struct Op {
    pub str: String,
}

impl Clone for Op {
    fn clone(&self) -> (res: Op)
        ensures
            res == *self,
    {
        Op { str: self.str.clone() }
    }
}

impl Op {
    /// All the operators.
    pub fn all() -> (res: Vec<Op>)
        ensures
            operator_texts(res@) == all_operators(),
    {
        let ops = [
            "==", "!=", "+", "-", "*", "/", "%", "<<", ">>", "&", "|", "^", "&&", "||", "<", ">",
            "<=", ">=", "+=", "-=", "*=", "/=", "%=", "<<=", ">>=", "&=", "|=", "^=",
        ];
        let mut res: Vec<Op> = Vec::new();
        let mut i: usize = 0;
        while i < ops.len()
            invariant
                i <= ops.len(),
                res.len() == i,
                forall|j: int| 0 <= j < i ==> (#[trigger] res[j]).str@ == ops[j]@,
            decreases ops.len() - i,
        {
            res.push(Op { str: String::from_str(ops[i]) });
            i += 1;
        }
        assert(operator_texts(res@) =~= all_operators());
        res
    }

    /// Whether the text of this operator is one of `ops`.
    fn is_one_of(&self, ops: &[&str]) -> (res: bool)
        ensures
            res == texts(ops@).contains(self.str@),
    {
        let mut i: usize = 0;
        while i < ops.len()
            invariant
                i <= ops.len(),
                forall|j: int| 0 <= j < i ==> (#[trigger] ops[j])@ != self.str@,
            decreases ops.len() - i,
        {
            if String::from_str(ops[i]) == self.str {
                assert(texts(ops@)[i as int] == self.str@);
                return true;
            }
            i += 1;
        }
        false
    }

    /// Whether this operator is relational.
    pub fn is_rel(&self) -> (res: bool)
        ensures
            res == relational_operators().contains(self.str@),
    {
        let ops = ["==", "!="];
        assert(texts(ops@) =~= relational_operators());
        self.is_one_of(&ops)
    }

    /// Whether this operator is binary.
    pub fn is_bin(&self) -> (res: bool)
        ensures
            res == binary_operators().contains(self.str@),
    {
        let ops = [
            "+", "-", "*", "/", "%", "<<", ">>", "&", "|", "^", "&&", "||", "<", ">", "<=", ">=",
        ];
        assert(texts(ops@) =~= binary_operators());
        self.is_one_of(&ops)
    }

    /// Whether this operator is a compound assignment.
    pub fn is_compound(&self) -> (res: bool)
        ensures
            res == compound_operators().contains(self.str@),
    {
        let ops = ["+=", "-=", "*=", "/=", "%=", "<<=", ">>=", "&=", "|=", "^="];
        assert(texts(ops@) =~= compound_operators());
        self.is_one_of(&ops)
    }
}

/// The class that is generated.
#[derive(Debug, PartialEq, Eq, Structural, Clone, Copy)]
pub enum Target {
    ID,
    Range,
}

/// `a` for the first dimension, which is numbered zero, and `b` for any other.
pub fn a_or_b<'a>(d: u8, a: &'a str, b: &'a str) -> (res: &'a str)
    ensures
        res == if d == 0 {
            a
        } else {
            b
        },
{
    if d == 0 {
        a
    } else {
        b
    }
}

/// The configuration of one rendering: the class, the number of its
/// dimensions, whether declarations or definitions are wanted, and the
/// operators.
pub struct Config {
    pub _target: Target,
    pub dim: u8,
    pub decl: bool,
    pub ops: Vec<Op>,
}

impl Config {
    /// The name of the class.
    pub fn name(&self) -> (res: &'static str)
        ensures
            res@ == match self._target {
                Target::ID => "id"@,
                Target::Range => "range"@,
            },
    {
        match self._target {
            Target::ID => "id",
            Target::Range => "range",
        }
    }

    /// Whether the class is `id`.
    pub fn is_id(&self) -> (res: bool)
        ensures
            res == (self._target == Target::ID),
    {
        match self._target {
            Target::ID => true,
            Target::Range => false,
        }
    }
}

} // verus!
