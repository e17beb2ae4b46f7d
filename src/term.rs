use vstd::prelude::*;
use vstd::string::*;

verus! {

/// Textual identifier of a variable.
pub type Name = String;

/// Numeric operators carried by `Op2` agents.
#[derive(Clone, Copy, PartialEq, Eq, Structural, Debug)]
pub enum Op {
    ADD,
    SUB,
    MUL,
    DIV,
    MOD,
    EQ,
    NE,
    LT,
    GT,
    AND,
    OR,
    XOR,
    NOT,
    LSH,
    RSH,
}

/// The runtime label of each operator.
pub open spec fn op_label(op: Op) -> u32 {
    match op {
        Op::ADD => 0x1,
        Op::SUB => 0x2,
        Op::MUL => 0x3,
        Op::DIV => 0x4,
        Op::MOD => 0x5,
        Op::EQ => 0x6,
        Op::NE => 0x7,
        Op::LT => 0x8,
        Op::GT => 0x9,
        Op::AND => 0xa,
        Op::OR => 0xb,
        Op::XOR => 0xc,
        Op::NOT => 0xd,
        Op::LSH => 0xe,
        Op::RSH => 0xf,
    }
}

/// The operator whose label is `v`, if any.
pub open spec fn op_of_label(v: u32) -> Option<Op> {
    if 1 <= v <= 0xf {
        Some(choose|op: Op| op_label(op) == v)
    } else {
        None
    }
}

impl Op {
    pub fn from_hvmc_label(value: u32) -> (r: Option<Op>)
        ensures
            r == op_of_label(value),
            r matches Some(op) ==> op_label(op) == value,
            r is None <==> (value == 0 || value > 0xf),
    {
        let r = match value {
            0x1 => Some(Op::ADD),
            0x2 => Some(Op::SUB),
            0x3 => Some(Op::MUL),
            0x4 => Some(Op::DIV),
            0x5 => Some(Op::MOD),
            0x6 => Some(Op::EQ),
            0x7 => Some(Op::NE),
            0x8 => Some(Op::LT),
            0x9 => Some(Op::GT),
            0xa => Some(Op::AND),
            0xb => Some(Op::OR),
            0xc => Some(Op::XOR),
            0xd => Some(Op::NOT),
            0xe => Some(Op::LSH),
            0xf => Some(Op::RSH),
            _ => None,
        };
        proof {
            lemma_label_injective();
            if let Some(op) = r {
                assert(op_label(op) == value);
            }
        }
        r
    }
}

/// Distinct operators have distinct labels.
pub proof fn lemma_label_injective()
    ensures
        forall|a: Op, b: Op| op_label(a) == op_label(b) ==> a == b,
        forall|a: Op| 1 <= #[trigger] op_label(a) <= 0xf,
{
}

/// Binding pattern of a `Let`.
#[derive(Debug, PartialEq, Eq)]
pub enum LetPat {
    Tup(Option<Name>, Option<Name>),
}

/// Lambda-calculus terms produced by readback.
#[derive(Debug, PartialEq, Eq)]
#[allow(inconsistent_fields)]
pub enum Term {
    Lam { nam: Option<Name>, bod: Box<Term> },
    Var { nam: Name },
    Chn { nam: Name, bod: Box<Term> },
    Lnk { nam: Name },
    Let { pat: LetPat, val: Box<Term>, nxt: Box<Term> },
    Ref { def_id: usize },
    App { fun: Box<Term>, arg: Box<Term> },
    Tup { fst: Box<Term>, snd: Box<Term> },
    Dup { tag: Option<Name>, fst: Option<Name>, snd: Option<Name>, val: Box<Term>, nxt: Box<Term> },
    Sup { fst: Box<Term>, snd: Box<Term> },
    Num { val: u32 },
    Opx { op: Op, fst: Box<Term>, snd: Box<Term> },
    Match { cond: Box<Term>, zero: Box<Term>, succ: Box<Term> },
    Era,
}

/// Mathematical model of a term: names are character sequences.
#[allow(inconsistent_fields)]
pub enum TermV {
    Lam { nam: Option<Seq<char>>, bod: Box<TermV> },
    Var { nam: Seq<char> },
    Chn { nam: Seq<char>, bod: Box<TermV> },
    Lnk { nam: Seq<char> },
    Let { fst: Option<Seq<char>>, snd: Option<Seq<char>>, val: Box<TermV>, nxt: Box<TermV> },
    Ref { def_id: usize },
    App { fun: Box<TermV>, arg: Box<TermV> },
    Tup { fst: Box<TermV>, snd: Box<TermV> },
    Dup {
        tag: Option<Seq<char>>,
        fst: Option<Seq<char>>,
        snd: Option<Seq<char>>,
        val: Box<TermV>,
        nxt: Box<TermV>,
    },
    Sup { fst: Box<TermV>, snd: Box<TermV> },
    Num { val: u32 },
    Opx { op: Op, fst: Box<TermV>, snd: Box<TermV> },
    Match { cond: Box<TermV>, zero: Box<TermV>, succ: Box<TermV> },
    Era,
}

pub open spec fn name_view(n: Option<Name>) -> Option<Seq<char>> {
    match n {
        Some(s) => Some(s@),
        None => None,
    }
}

pub open spec fn term_view(t: Term) -> TermV
    decreases t,
{
    match t {
        Term::Lam { nam, bod } => TermV::Lam { nam: name_view(nam), bod: Box::new(term_view(*bod)) },
        Term::Var { nam } => TermV::Var { nam: nam@ },
        Term::Chn { nam, bod } => TermV::Chn { nam: nam@, bod: Box::new(term_view(*bod)) },
        Term::Lnk { nam } => TermV::Lnk { nam: nam@ },
        Term::Let { pat, val, nxt } => match pat {
            LetPat::Tup(a, b) => TermV::Let {
                fst: name_view(a),
                snd: name_view(b),
                val: Box::new(term_view(*val)),
                nxt: Box::new(term_view(*nxt)),
            },
        },
        Term::Ref { def_id } => TermV::Ref { def_id },
        Term::App { fun, arg } => TermV::App {
            fun: Box::new(term_view(*fun)),
            arg: Box::new(term_view(*arg)),
        },
        Term::Tup { fst, snd } => TermV::Tup {
            fst: Box::new(term_view(*fst)),
            snd: Box::new(term_view(*snd)),
        },
        Term::Dup { tag, fst, snd, val, nxt } => TermV::Dup {
            tag: name_view(tag),
            fst: name_view(fst),
            snd: name_view(snd),
            val: Box::new(term_view(*val)),
            nxt: Box::new(term_view(*nxt)),
        },
        Term::Sup { fst, snd } => TermV::Sup {
            fst: Box::new(term_view(*fst)),
            snd: Box::new(term_view(*snd)),
        },
        Term::Num { val } => TermV::Num { val },
        Term::Opx { op, fst, snd } => TermV::Opx {
            op,
            fst: Box::new(term_view(*fst)),
            snd: Box::new(term_view(*snd)),
        },
        Term::Match { cond, zero, succ } => TermV::Match {
            cond: Box::new(term_view(*cond)),
            zero: Box::new(term_view(*zero)),
            succ: Box::new(term_view(*succ)),
        },
        Term::Era => TermV::Era,
    }
}

impl View for Term {
    type V = TermV;

    open spec fn view(&self) -> TermV {
        term_view(*self)
    }
}

/// Number of constructors in a term.
pub open spec fn size(t: TermV) -> nat
    decreases t,
{
    match t {
        TermV::Lam { bod, .. } => 1 + size(*bod),
        TermV::Chn { bod, .. } => 1 + size(*bod),
        TermV::Let { val, nxt, .. } => 1 + size(*val) + size(*nxt),
        TermV::App { fun, arg } => 1 + size(*fun) + size(*arg),
        TermV::Tup { fst, snd } => 1 + size(*fst) + size(*snd),
        TermV::Dup { val, nxt, .. } => 1 + size(*val) + size(*nxt),
        TermV::Sup { fst, snd } => 1 + size(*fst) + size(*snd),
        TermV::Opx { fst, snd, .. } => 1 + size(*fst) + size(*snd),
        TermV::Match { cond, zero, succ } => 1 + size(*cond) + size(*zero) + size(*succ),
        _ => 1,
    }
}

/// Whether an optional binder binds `x`.
pub open spec fn binds(n: Option<Seq<char>>, x: Seq<char>) -> bool {
    n == Some(x)
}

/// Replaces the free occurrences of variable `from` by variable `to`.
pub open spec fn subst(t: TermV, from: Seq<char>, to: Seq<char>) -> TermV
    decreases t,
{
    match t {
        TermV::Lam { nam, bod } => if binds(nam, from) {
            TermV::Lam { nam, bod }
        } else {
            TermV::Lam { nam, bod: Box::new(subst(*bod, from, to)) }
        },
        TermV::Var { nam } => if nam == from {
            TermV::Var { nam: to }
        } else {
            TermV::Var { nam }
        },
        TermV::Chn { nam, bod } => TermV::Chn { nam, bod: Box::new(subst(*bod, from, to)) },
        TermV::Let { fst, snd, val, nxt } => TermV::Let {
            fst,
            snd,
            val: Box::new(subst(*val, from, to)),
            nxt: if binds(fst, from) || binds(snd, from) {
                nxt
            } else {
                Box::new(subst(*nxt, from, to))
            },
        },
        TermV::App { fun, arg } => TermV::App {
            fun: Box::new(subst(*fun, from, to)),
            arg: Box::new(subst(*arg, from, to)),
        },
        TermV::Tup { fst, snd } => TermV::Tup {
            fst: Box::new(subst(*fst, from, to)),
            snd: Box::new(subst(*snd, from, to)),
        },
        TermV::Dup { tag, fst, snd, val, nxt } => TermV::Dup {
            tag,
            fst,
            snd,
            val: Box::new(subst(*val, from, to)),
            nxt: if binds(fst, from) || binds(snd, from) {
                nxt
            } else {
                Box::new(subst(*nxt, from, to))
            },
        },
        TermV::Sup { fst, snd } => TermV::Sup {
            fst: Box::new(subst(*fst, from, to)),
            snd: Box::new(subst(*snd, from, to)),
        },
        TermV::Opx { op, fst, snd } => TermV::Opx {
            op,
            fst: Box::new(subst(*fst, from, to)),
            snd: Box::new(subst(*snd, from, to)),
        },
        TermV::Match { cond, zero, succ } => TermV::Match {
            cond: Box::new(subst(*cond, from, to)),
            zero: Box::new(subst(*zero, from, to)),
            succ: Box::new(subst(*succ, from, to)),
        },
        _ => t,
    }
}

/// Substitution renames variables only: it keeps the size of a term.
pub proof fn lemma_subst_size(t: TermV, from: Seq<char>, to: Seq<char>)
    ensures
        size(subst(t, from, to)) == size(t),
    decreases t,
{
    match t {
        TermV::Lam { nam, bod } => {
            lemma_subst_size(*bod, from, to);
        },
        TermV::Chn { bod, .. } => {
            lemma_subst_size(*bod, from, to);
        },
        TermV::Let { val, nxt, .. } => {
            lemma_subst_size(*val, from, to);
            lemma_subst_size(*nxt, from, to);
        },
        TermV::App { fun, arg } => {
            lemma_subst_size(*fun, from, to);
            lemma_subst_size(*arg, from, to);
        },
        TermV::Tup { fst, snd } => {
            lemma_subst_size(*fst, from, to);
            lemma_subst_size(*snd, from, to);
        },
        TermV::Dup { val, nxt, .. } => {
            lemma_subst_size(*val, from, to);
            lemma_subst_size(*nxt, from, to);
        },
        TermV::Sup { fst, snd } => {
            lemma_subst_size(*fst, from, to);
            lemma_subst_size(*snd, from, to);
        },
        TermV::Opx { fst, snd, .. } => {
            lemma_subst_size(*fst, from, to);
            lemma_subst_size(*snd, from, to);
        },
        TermV::Match { cond, zero, succ } => {
            lemma_subst_size(*cond, from, to);
            lemma_subst_size(*zero, from, to);
            lemma_subst_size(*succ, from, to);
        },
        _ => {},
    }
}

pub fn clone_name(n: &Option<Name>) -> (r: Option<Name>)
    ensures
        r == *n,
{
    match n {
        Some(s) => Some(s.clone()),
        None => None,
    }
}

/// Does the optional binder bind `x`?
fn binds_name(n: &Option<Name>, x: &Name) -> (r: bool)
    ensures
        r == binds(name_view(*n), x@),
{
    match n {
        Some(s) => *s == *x,
        None => false,
    }
}

impl Term {
    /// A deep copy of the term.
    pub fn deep_clone(&self) -> (r: Term)
        ensures
            r@ == self@,
        decreases self,
    {
        match self {
            Term::Lam { nam, bod } => Term::Lam { nam: clone_name(nam), bod: Box::new(bod.deep_clone()) },
            Term::Var { nam } => Term::Var { nam: nam.clone() },
            Term::Chn { nam, bod } => Term::Chn { nam: nam.clone(), bod: Box::new(bod.deep_clone()) },
            Term::Lnk { nam } => Term::Lnk { nam: nam.clone() },
            Term::Let { pat, val, nxt } => match pat {
                LetPat::Tup(a, b) => Term::Let {
                    pat: LetPat::Tup(clone_name(a), clone_name(b)),
                    val: Box::new(val.deep_clone()),
                    nxt: Box::new(nxt.deep_clone()),
                },
            },
            Term::Ref { def_id } => Term::Ref { def_id: *def_id },
            Term::App { fun, arg } => Term::App {
                fun: Box::new(fun.deep_clone()),
                arg: Box::new(arg.deep_clone()),
            },
            Term::Tup { fst, snd } => Term::Tup {
                fst: Box::new(fst.deep_clone()),
                snd: Box::new(snd.deep_clone()),
            },
            Term::Dup { tag, fst, snd, val, nxt } => Term::Dup {
                tag: clone_name(tag),
                fst: clone_name(fst),
                snd: clone_name(snd),
                val: Box::new(val.deep_clone()),
                nxt: Box::new(nxt.deep_clone()),
            },
            Term::Sup { fst, snd } => Term::Sup {
                fst: Box::new(fst.deep_clone()),
                snd: Box::new(snd.deep_clone()),
            },
            Term::Num { val } => Term::Num { val: *val },
            Term::Opx { op, fst, snd } => Term::Opx {
                op: *op,
                fst: Box::new(fst.deep_clone()),
                snd: Box::new(snd.deep_clone()),
            },
            Term::Match { cond, zero, succ } => Term::Match {
                cond: Box::new(cond.deep_clone()),
                zero: Box::new(zero.deep_clone()),
                succ: Box::new(succ.deep_clone()),
            },
            Term::Era => Term::Era,
        }
    }

    /// Replaces the free occurrences of variable `from` by variable `to`.
    pub fn subst(self, from: &Name, to: &Name) -> (r: Term)
        ensures
            r@ == subst(self@, from@, to@),
        decreases self,
    {
        match self {
            Term::Lam { nam, bod } => {
                if binds_name(&nam, from) {
                    Term::Lam { nam, bod }
                } else {
                    Term::Lam { nam, bod: Box::new(bod.subst(from, to)) }
                }
            },
            Term::Var { nam } => {
                if nam == *from {
                    Term::Var { nam: to.clone() }
                } else {
                    Term::Var { nam }
                }
            },
            Term::Chn { nam, bod } => Term::Chn { nam, bod: Box::new(bod.subst(from, to)) },
            Term::Let { pat, val, nxt } => match pat {
                LetPat::Tup(a, b) => {
                    let shadowed = binds_name(&a, from) || binds_name(&b, from);
                    let val = Box::new(val.subst(from, to));
                    let nxt = if shadowed {
                        nxt
                    } else {
                        Box::new(nxt.subst(from, to))
                    };
                    Term::Let { pat: LetPat::Tup(a, b), val, nxt }
                },
            },
            Term::App { fun, arg } => Term::App {
                fun: Box::new(fun.subst(from, to)),
                arg: Box::new(arg.subst(from, to)),
            },
            Term::Tup { fst, snd } => Term::Tup {
                fst: Box::new(fst.subst(from, to)),
                snd: Box::new(snd.subst(from, to)),
            },
            Term::Dup { tag, fst, snd, val, nxt } => {
                let shadowed = binds_name(&fst, from) || binds_name(&snd, from);
                let val = Box::new(val.subst(from, to));
                let nxt = if shadowed {
                    nxt
                } else {
                    Box::new(nxt.subst(from, to))
                };
                Term::Dup { tag, fst, snd, val, nxt }
            },
            Term::Sup { fst, snd } => Term::Sup {
                fst: Box::new(fst.subst(from, to)),
                snd: Box::new(snd.subst(from, to)),
            },
            Term::Opx { op, fst, snd } => Term::Opx {
                op,
                fst: Box::new(fst.subst(from, to)),
                snd: Box::new(snd.subst(from, to)),
            },
            Term::Match { cond, zero, succ } => Term::Match {
                cond: Box::new(cond.subst(from, to)),
                zero: Box::new(zero.subst(from, to)),
                succ: Box::new(succ.subst(from, to)),
            },
            other => other,
        }
    }
}

/// The letters that spell variable names.
pub open spec fn letters() -> Seq<char> {
    seq![
        'a', 'b', 'c', 'd', 'e', 'f', 'g', 'h', 'i', 'j', 'k', 'l', 'm',
        'n', 'o', 'p', 'q', 'r', 's', 't', 'u', 'v', 'w', 'x', 'y', 'z',
    ]
}

/// The name of variable number `n`: its base-26 digits, least significant first.
pub open spec fn name_of(n: u64) -> Seq<char>
    decreases n,
{
    if n < 26 {
        seq![letters()[n as int]]
    } else {
        seq![letters()[(n % 26) as int]] + name_of(n / 26)
    }
}

fn letter(d: u64) -> (r: &'static str)
    requires
        d < 26,
    ensures
        r@ == seq![letters()[d as int]],
{
    if d == 0 {
        proof { reveal_strlit("a"); }
        "a"
    } else if d == 1 {
        proof { reveal_strlit("b"); }
        "b"
    } else if d == 2 {
        proof { reveal_strlit("c"); }
        "c"
    } else if d == 3 {
        proof { reveal_strlit("d"); }
        "d"
    } else if d == 4 {
        proof { reveal_strlit("e"); }
        "e"
    } else if d == 5 {
        proof { reveal_strlit("f"); }
        "f"
    } else if d == 6 {
        proof { reveal_strlit("g"); }
        "g"
    } else if d == 7 {
        proof { reveal_strlit("h"); }
        "h"
    } else if d == 8 {
        proof { reveal_strlit("i"); }
        "i"
    } else if d == 9 {
        proof { reveal_strlit("j"); }
        "j"
    } else if d == 10 {
        proof { reveal_strlit("k"); }
        "k"
    } else if d == 11 {
        proof { reveal_strlit("l"); }
        "l"
    } else if d == 12 {
        proof { reveal_strlit("m"); }
        "m"
    } else if d == 13 {
        proof { reveal_strlit("n"); }
        "n"
    } else if d == 14 {
        proof { reveal_strlit("o"); }
        "o"
    } else if d == 15 {
        proof { reveal_strlit("p"); }
        "p"
    } else if d == 16 {
        proof { reveal_strlit("q"); }
        "q"
    } else if d == 17 {
        proof { reveal_strlit("r"); }
        "r"
    } else if d == 18 {
        proof { reveal_strlit("s"); }
        "s"
    } else if d == 19 {
        proof { reveal_strlit("t"); }
        "t"
    } else if d == 20 {
        proof { reveal_strlit("u"); }
        "u"
    } else if d == 21 {
        proof { reveal_strlit("v"); }
        "v"
    } else if d == 22 {
        proof { reveal_strlit("w"); }
        "w"
    } else if d == 23 {
        proof { reveal_strlit("x"); }
        "x"
    } else if d == 24 {
        proof { reveal_strlit("y"); }
        "y"
    } else {
        proof { reveal_strlit("z"); }
        "z"
    }
}

/// The name of variable number `n`.
pub fn var_id_to_name(n: u64) -> (r: Name)
    ensures
        r@ == name_of(n),
{
    let mut s = String::new();
    let mut m: u64 = n;
    loop
        invariant
            s@ + name_of(m) == name_of(n),
        decreases m,
    {
        let l = letter(m % 26);
        let ghost before = s@;
        s.append(l);
        if m < 26 {
            assert(s@ =~= before + name_of(m));
            return s;
        }
        assert(before + name_of(m) =~= s@ + name_of(m / 26));
        m = m / 26;
    }
}

/// The placeholder name of a cut cycle.
pub fn cut_name() -> (r: Name)
    ensures
        r@ == seq!['.', '.', '.'],
{
    proof {
        reveal_strlit("...");
    }
    String::from_str("...")
}

} // verus!
