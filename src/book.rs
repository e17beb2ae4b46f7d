use vstd::prelude::*;
use vstd::string::*;
use crate::term::{name_of, name_view, size, subst, var_id_to_name, lemma_subst_size, Name, Term, TermV};

verus! {

/// One rewrite rule of a definition.
pub struct Rule {
    /// Whether some pattern of the rule matches on a constructor or a number.
    pub pattern_matching: bool,
    pub body: Term,
}

pub struct Definition {
    pub name: Name,
    pub rules: Vec<Rule>,
}

/// The definitions of a program, indexed by their ids.
pub struct Book {
    pub defs: Vec<Definition>,
}

/// Generated definitions are those whose name holds a `$`.
pub open spec fn generated_name(s: Seq<char>) -> bool {
    exists|i: int| 0 <= i < s.len() && s[i] == '$'
}

/// Source of fresh variable ids. `exhausted` records that the id space ran out.
#[derive(Clone, Copy)]
pub struct IdGen {
    pub next: u64,
    pub exhausted: bool,
}

/// The id handed out next, and the generator after it.
pub open spec fn fresh(g: IdGen) -> (u64, IdGen) {
    if g.next < u64::MAX {
        (g.next, IdGen { next: (g.next + 1) as u64, exhausted: g.exhausted })
    } else {
        (g.next, IdGen { next: g.next, exhausted: true })
    }
}

impl IdGen {
    pub fn new() -> (r: IdGen)
        ensures
            r.next == 0,
            !r.exhausted,
    {
        IdGen { next: 0, exhausted: false }
    }

    pub fn take(&mut self) -> (r: u64)
        ensures
            (r, *final(self)) == fresh(*old(self)),
    {
        let id = self.next;
        if self.next < u64::MAX {
            self.next = self.next + 1;
        } else {
            self.exhausted = true;
        }
        id
    }
}

impl Book {
    pub open spec fn spec_generated(&self, d: usize) -> bool {
        d < self.defs@.len() && generated_name(self.defs@[d as int].name@)
    }

    /// Every generated definition has exactly one rule, and it matches on nothing.
    pub open spec fn wf(&self) -> bool {
        forall|d: usize|
            #[trigger] self.spec_generated(d) ==> self.defs@[d as int].rules@.len() == 1
                && !self.defs@[d as int].rules@[0].pattern_matching
    }

    /// Body of the sole rule of definition `d`.
    pub open spec fn body(&self, d: usize) -> TermV {
        self.defs@[d as int].rules@[0].body@
    }

    pub fn is_generated_def(&self, def_id: usize) -> (r: bool)
        ensures
            r == self.spec_generated(def_id),
    {
        if def_id >= self.defs.len() {
            return false;
        }
        let name = self.defs[def_id].name.as_str();
        let n = name.unicode_len();
        let mut i: usize = 0;
        while i < n
            invariant
                def_id < self.defs@.len(),
                n == name@.len(),
                name@ == self.defs@[def_id as int].name@,
                i <= n,
                forall|j: int| 0 <= j < i ==> name@[j] != '$',
            decreases n - i,
        {
            if name.get_char(i) == '$' {
                assert(name@[i as int] == '$');
                return true;
            }
            i = i + 1;
        }
        false
    }
}

/// Gives a binder a fresh name and renames its occurrences in `body`.
pub open spec fn rename(nam: Option<Seq<char>>, body: TermV, g: IdGen) -> (
    Option<Seq<char>>,
    TermV,
    IdGen,
) {
    match nam {
        Some(n) => {
            let (id, g1) = fresh(g);
            (Some(name_of(id)), subst(body, n, name_of(id)), g1)
        },
        None => (None, body, g),
    }
}

pub proof fn lemma_rename_size(nam: Option<Seq<char>>, body: TermV, g: IdGen)
    ensures
        size(rename(nam, body, g).1) == size(body),
{
    if let Some(n) = nam {
        lemma_subst_size(body, n, name_of(fresh(g).0));
    }
}

/// Re-stamps every binder of `t` with a fresh name and inlines generated
/// definitions, each one up to `budget` levels deep.
pub open spec fn fix(t: TermV, g: IdGen, book: Book, budget: nat) -> (TermV, IdGen)
    decreases budget, size(t),
    via fix_decreases
{
    match t {
        TermV::Lam { nam, bod } => {
            let (nam1, bod1, g1) = rename(nam, *bod, g);
            let (bod2, g2) = fix(bod1, g1, book, budget);
            (TermV::Lam { nam: nam1, bod: Box::new(bod2) }, g2)
        },
        TermV::Ref { def_id } => if book.spec_generated(def_id) && budget > 0 {
            fix(book.body(def_id), g, book, (budget - 1) as nat)
        } else {
            (t, g)
        },
        TermV::Dup { tag, fst, snd, val, nxt } => {
            let (val1, g1) = fix(*val, g, book, budget);
            let (fst1, nxt1, g2) = rename(fst, *nxt, g1);
            let (snd1, nxt2, g3) = rename(snd, nxt1, g2);
            let (nxt3, g4) = fix(nxt2, g3, book, budget);
            (
                TermV::Dup {
                    tag,
                    fst: fst1,
                    snd: snd1,
                    val: Box::new(val1),
                    nxt: Box::new(nxt3),
                },
                g4,
            )
        },
        TermV::Chn { nam, bod } => {
            let (bod1, g1) = fix(*bod, g, book, budget);
            (TermV::Chn { nam, bod: Box::new(bod1) }, g1)
        },
        TermV::Let { fst, snd, val, nxt } => {
            let (val1, g1) = fix(*val, g, book, budget);
            let (nxt1, g2) = fix(*nxt, g1, book, budget);
            (TermV::Let { fst, snd, val: Box::new(val1), nxt: Box::new(nxt1) }, g2)
        },
        TermV::App { fun, arg } => {
            let (a, g1) = fix(*fun, g, book, budget);
            let (b, g2) = fix(*arg, g1, book, budget);
            (TermV::App { fun: Box::new(a), arg: Box::new(b) }, g2)
        },
        TermV::Sup { fst, snd } => {
            let (a, g1) = fix(*fst, g, book, budget);
            let (b, g2) = fix(*snd, g1, book, budget);
            (TermV::Sup { fst: Box::new(a), snd: Box::new(b) }, g2)
        },
        TermV::Tup { fst, snd } => {
            let (a, g1) = fix(*fst, g, book, budget);
            let (b, g2) = fix(*snd, g1, book, budget);
            (TermV::Tup { fst: Box::new(a), snd: Box::new(b) }, g2)
        },
        TermV::Opx { op, fst, snd } => {
            let (a, g1) = fix(*fst, g, book, budget);
            let (b, g2) = fix(*snd, g1, book, budget);
            (TermV::Opx { op, fst: Box::new(a), snd: Box::new(b) }, g2)
        },
        TermV::Match { cond, zero, succ } => {
            let (a, g1) = fix(*cond, g, book, budget);
            let (b, g2) = fix(*zero, g1, book, budget);
            let (c, g3) = fix(*succ, g2, book, budget);
            (TermV::Match { cond: Box::new(a), zero: Box::new(b), succ: Box::new(c) }, g3)
        },
        _ => (t, g),
    }
}

#[via_fn]
proof fn fix_decreases(t: TermV, g: IdGen, book: Book, budget: nat) {
    match t {
        TermV::Lam { nam, bod } => {
            lemma_rename_size(nam, *bod, g);
        },
        TermV::Dup { tag, fst, snd, val, nxt } => {
            assert forall|g1: IdGen, g2: IdGen|
                #[trigger] size(rename(snd, rename(fst, *nxt, g1).1, g2).1) == size(*nxt) by {
                lemma_rename_size(fst, *nxt, g1);
                lemma_rename_size(snd, rename(fst, *nxt, g1).1, g2);
            }
        },
        _ => {},
    }
}

/// Exec counterpart of `rename`.
fn rename_binder(nam: Option<Name>, body: Term, ids: &mut IdGen) -> (r: (Option<Name>, Term))
    ensures
        (name_view(r.0), r.1@, *final(ids)) == rename(name_view(nam), body@, *old(ids)),
        final(ids).next >= old(ids).next,
        old(ids).exhausted ==> final(ids).exhausted,
{
    match nam {
        Some(n) => {
            let id = ids.take();
            let fresh_name = var_id_to_name(id);
            let body = body.subst(&n, &fresh_name);
            (Some(fresh_name), body)
        },
        None => (None, body),
    }
}

impl Term {
    /// Re-stamps the binders of the term with fresh names from `ids` and
    /// inlines the generated definitions of `book`, each up to `budget` levels deep.
    pub fn fix_names(self, ids: &mut IdGen, book: &Book, budget: usize) -> (r: Term)
        requires
            book.wf(),
        ensures
            (r@, *final(ids)) == fix(self@, *old(ids), *book, budget as nat),
            final(ids).next >= old(ids).next,
            old(ids).exhausted ==> final(ids).exhausted,
        decreases budget, size(self@),
    {
        match self {
            Term::Lam { nam, bod } => {
                let ghost g = *ids;
                let ghost b = (*bod)@;
                proof {
                    lemma_rename_size(name_view(nam), b, g);
                }
                let (nam1, bod1) = rename_binder(nam, *bod, ids);
                let bod2 = bod1.fix_names(ids, book, budget);
                Term::Lam { nam: nam1, bod: Box::new(bod2) }
            },
            Term::Ref { def_id } => {
                if book.is_generated_def(def_id) && budget > 0 {
                    let body = book.defs[def_id].rules[0].body.deep_clone();
                    body.fix_names(ids, book, budget - 1)
                } else {
                    Term::Ref { def_id }
                }
            },
            Term::Dup { tag, fst, snd, val, nxt } => {
                let val1 = val.fix_names(ids, book, budget);
                let ghost g1 = *ids;
                let ghost n0 = (*nxt)@;
                proof {
                    lemma_rename_size(name_view(fst), n0, g1);
                }
                let (fst1, nxt1) = rename_binder(fst, *nxt, ids);
                let ghost g2 = *ids;
                proof {
                    lemma_rename_size(name_view(snd), nxt1@, g2);
                }
                let (snd1, nxt2) = rename_binder(snd, nxt1, ids);
                let nxt3 = nxt2.fix_names(ids, book, budget);
                Term::Dup { tag, fst: fst1, snd: snd1, val: Box::new(val1), nxt: Box::new(nxt3) }
            },
            Term::Chn { nam, bod } => {
                let bod1 = bod.fix_names(ids, book, budget);
                Term::Chn { nam, bod: Box::new(bod1) }
            },
            Term::Let { pat, val, nxt } => {
                let val1 = val.fix_names(ids, book, budget);
                let nxt1 = nxt.fix_names(ids, book, budget);
                Term::Let { pat, val: Box::new(val1), nxt: Box::new(nxt1) }
            },
            Term::App { fun, arg } => {
                let a = fun.fix_names(ids, book, budget);
                let b = arg.fix_names(ids, book, budget);
                Term::App { fun: Box::new(a), arg: Box::new(b) }
            },
            Term::Sup { fst, snd } => {
                let a = fst.fix_names(ids, book, budget);
                let b = snd.fix_names(ids, book, budget);
                Term::Sup { fst: Box::new(a), snd: Box::new(b) }
            },
            Term::Tup { fst, snd } => {
                let a = fst.fix_names(ids, book, budget);
                let b = snd.fix_names(ids, book, budget);
                Term::Tup { fst: Box::new(a), snd: Box::new(b) }
            },
            Term::Opx { op, fst, snd } => {
                let a = fst.fix_names(ids, book, budget);
                let b = snd.fix_names(ids, book, budget);
                Term::Opx { op, fst: Box::new(a), snd: Box::new(b) }
            },
            Term::Match { cond, zero, succ } => {
                let a = cond.fix_names(ids, book, budget);
                let b = zero.fix_names(ids, book, budget);
                let c = succ.fix_names(ids, book, budget);
                Term::Match { cond: Box::new(a), zero: Box::new(b), succ: Box::new(c) }
            },
            other => other,
        }
    }
}

} // verus!
