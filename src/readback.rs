use vstd::prelude::*;
use crate::book::{fix, fresh, Book, IdGen};
use crate::net::{port_index, root, root_port, INet, NodeKind, Port, MAX_NODES};
use crate::scope::{Scope, ScopeV};
use crate::term::{cut_name, name_of, op_of_label, var_id_to_name, Name, Op, LetPat, Term, TermV};

verus! {

/// Names of binder ports: each declaring port gets a fresh id on first use.
pub struct NameGen {
    pub var_port_to_id: Vec<Option<u64>>,
    pub id_counter: IdGen,
}

pub struct NameGenV {
    /// `ids[port_index(p)]`: the id given to declaring port `p`, if any.
    pub ids: Seq<Option<u64>>,
    pub gen: IdGen,
}

impl View for NameGen {
    type V = NameGenV;

    open spec fn view(&self) -> NameGenV {
        NameGenV { ids: self.var_port_to_id@, gen: self.id_counter }
    }
}

impl NameGenV {
    /// The name of declaring port `p`, allocated on first use.
    pub open spec fn var_name(self, p: Port) -> (Seq<char>, NameGenV) {
        let i = port_index(p);
        match self.ids[i] {
            Some(id) => (name_of(id), self),
            None => {
                let (id, g) = fresh(self.gen);
                (name_of(id), NameGenV { ids: self.ids.update(i, Some(id)), gen: g })
            },
        }
    }

    /// No name when the port is linked to an eraser (the binder is unused).
    pub open spec fn decl_name(self, net: INet, p: Port) -> (Option<Seq<char>>, NameGenV) {
        if net.kind_of(net.enter(p).node) is Era {
            (None, self)
        } else {
            let (nam, g) = self.var_name(p);
            (Some(nam), g)
        }
    }
}

/// Distinct binder ports hold distinct ids, all below the next one, unless the
/// id space ran out.
#[verifier::opaque]
pub open spec fn distinct_ids(ng: NameGenV) -> bool {
    ng.gen.exhausted || {
        &&& forall|i: int| 0 <= i < ng.ids.len() && (#[trigger] ng.ids[i]) is Some ==> ng.ids[i]->0 < ng.gen.next
        &&& forall|i: int, j: int|
            #![trigger ng.ids[i], ng.ids[j]]
            0 <= i < ng.ids.len() && 0 <= j < ng.ids.len() && i != j && ng.ids[i] is Some
                && ng.ids[j] is Some ==> ng.ids[i] != ng.ids[j]
    }
}

impl NameGen {
    pub fn new(n: usize) -> (r: NameGen)
        requires
            n <= MAX_NODES,
        ensures
            r@.ids =~= Seq::new(3 * n as nat, |i: int| None),
            r@.gen == (IdGen { next: 0, exhausted: false }),
            distinct_ids(r@),
    {
        let mut ids: Vec<Option<u64>> = Vec::new();
        let mut i: usize = 0;
        while i < 3 * n
            invariant
                n <= MAX_NODES,
                i <= 3 * n,
                ids@ =~= Seq::new(i as nat, |j: int| None),
            decreases 3 * n - i,
        {
            ids.push(None);
            i = i + 1;
        }
        let r = NameGen { var_port_to_id: ids, id_counter: IdGen::new() };
        proof {
            reveal(distinct_ids);
        }
        r
    }

    pub fn var_name(&mut self, p: Port) -> (r: Name)
        requires
            p.node < MAX_NODES,
            p.slot < 3,
            port_index(p) < old(self)@.ids.len(),
            distinct_ids(old(self)@),
        ensures
            (r@, final(self)@) == old(self)@.var_name(p),
            distinct_ids(final(self)@),
    {
        let i = 3 * p.node + p.slot;
        match self.var_port_to_id[i] {
            Some(id) => var_id_to_name(id),
            None => {
                let id = self.id_counter.take();
                self.var_port_to_id.set(i, Some(id));
                proof {
                    assert(self@ == old(self)@.var_name(p).1);
                    reveal(distinct_ids);
                    let ng = self@;
                    let og = old(self)@;
                    if !ng.gen.exhausted {
                        assert(!og.gen.exhausted);
                        assert(ng.gen.next == og.gen.next + 1);
                        assert forall|k: int| 0 <= k < ng.ids.len() && (#[trigger] ng.ids[k]) is Some implies ng.ids[k]->0
                            < ng.gen.next by {
                            if k != i {
                                assert(og.ids[k] == ng.ids[k]);
                                assert(og.ids[k]->0 < og.gen.next);
                            }
                        }
                        assert forall|a: int, b: int|
                            #![trigger ng.ids[a], ng.ids[b]]
                            0 <= a < ng.ids.len() && 0 <= b < ng.ids.len() && a != b && ng.ids[a] is Some
                                && ng.ids[b] is Some implies ng.ids[a] != ng.ids[b] by {
                            if a != i && b != i {
                                assert(og.ids[a] == ng.ids[a]);
                                assert(og.ids[b] == ng.ids[b]);
                            } else if a == i {
                                assert(og.ids[b] is Some);
                                assert(og.ids[b]->0 < og.gen.next);
                            } else {
                                assert(og.ids[a] is Some);
                                assert(og.ids[a]->0 < og.gen.next);
                            }
                        }
                    }
                }
                var_id_to_name(id)
            },
        }
    }

    pub fn decl_name(&mut self, net: &INet, p: Port) -> (r: Option<Name>)
        requires
            net.wf(),
            net.valid_port(p),
            old(self)@.ids.len() == 3 * net.len(),
            distinct_ids(old(self)@),
        ensures
            (crate::term::name_view(r), final(self)@) == old(self)@.decl_name(*net, p),
            distinct_ids(final(self)@),
    {
        let q = net.enter_port(p);
        match net.kind(q.node) {
            NodeKind::Era => None,
            _ => Some(self.var_name(p)),
        }
    }
}

/// Everything one readback call mutates.
pub struct ReadState {
    pub names: NameGenV,
    pub dups: ScopeV,
    pub tups: ScopeV,
    /// Ports already entered (linear mode).
    pub seen: Seq<bool>,
}

impl ReadState {
    pub open spec fn wf(&self, n: nat) -> bool {
        &&& self.names.ids.len() == 3 * n
        &&& self.dups.wf(n)
        &&& self.tups.wf(n)
        &&& self.seen.len() == 3 * n
        &&& distinct_ids(self.names)
    }

    pub open spec fn see(self, p: Port) -> ReadState {
        ReadState { seen: self.seen.update(port_index(p), true), ..self }
    }

    pub open spec fn with_names(self, names: NameGenV) -> ReadState {
        ReadState { names, ..self }
    }

    pub open spec fn with_gen(self, gen: IdGen) -> ReadState {
        ReadState { names: NameGenV { ids: self.names.ids, gen }, ..self }
    }

    pub open spec fn var_name(self, p: Port) -> (Seq<char>, ReadState) {
        let (nam, g) = self.names.var_name(p);
        (nam, self.with_names(g))
    }

    pub open spec fn decl_name(self, net: INet, p: Port) -> (Option<Seq<char>>, ReadState) {
        let (nam, g) = self.names.decl_name(net, p);
        (nam, self.with_names(g))
    }
}

pub open spec fn initial_state(n: nat) -> ReadState {
    ReadState {
        names: NameGenV { ids: Seq::new(3 * n, |i: int| None), gen: IdGen { next: 0, exhausted: false } },
        dups: ScopeV { vec: Seq::empty(), set: Seq::new(n, |i: int| false) },
        tups: ScopeV { vec: Seq::empty(), set: Seq::new(n, |i: int| false) },
        seen: Seq::new(3 * n, |i: int| false),
    }
}

/// Longest walk either reader takes from one starting port: one more than the
/// number of ports, since a longer walk enters some port twice and is a cycle.
pub open spec fn fuel_of(net: INet) -> nat {
    3 * net.len() + 1
}

pub open spec fn cut() -> TermV {
    TermV::Var { nam: seq!['.', '.', '.'] }
}

pub open spec fn at(n: usize, slot: usize) -> Port {
    Port { node: n, slot }
}

/// Operator and first operand packed in one number: low 24 bits and high byte.
pub open spec fn split_num(v: u32) -> (u32, Option<Op>) {
    (v & 0xff_ffff, op_of_label(v >> 24))
}

/// Joins what port 0 of an `Op2` read (`op_term`) with what port 1 read (`arg`).
pub open spec fn combine(op_term: TermV, arg: TermV) -> (TermV, bool) {
    match op_term {
        TermV::Num { val } => {
            let (low, op) = split_num(val);
            match op {
                Some(op) => (TermV::Opx { op, fst: Box::new(TermV::Num { val: low }), snd: Box::new(arg) }, true),
                None => match op_of_label(low) {
                    Some(op) => (TermV::Opx { op, fst: Box::new(arg), snd: Box::new(TermV::Era) }, true),
                    None => (TermV::Era, false),
                },
            }
        },
        TermV::Opx { op, fst, snd } => (TermV::Opx { op, fst, snd: Box::new(arg) }, *snd is Era),
        _ => (TermV::Era, false),
    }
}

/// Shapes `combine` takes as operator: a number, or an operation lacking its second operand.
pub open spec fn shaped(t: TermV) -> bool {
    match t {
        TermV::Num { .. } => true,
        TermV::Opx { snd, .. } => *snd is Era,
        _ => false,
    }
}

/// Non-linear reassembly: the two reads swap roles when the first is no operator.
pub open spec fn reassoc(op_term: TermV, arg: TermV) -> (TermV, bool) {
    if shaped(op_term) {
        combine(op_term, arg)
    } else if shaped(arg) {
        combine(arg, op_term)
    } else {
        (TermV::Era, false)
    }
}

/// Linear readback of the term behind port `p`.
pub open spec fn read_linear(net: INet, book: Book, p: Port, s: ReadState, fuel: nat) -> (
    TermV,
    bool,
    ReadState,
)
    decreases fuel,
{
    if fuel == 0 || s.seen[port_index(p)] {
        (cut(), false, s)
    } else {
        let f = (fuel - 1) as nat;
        let s = s.see(p);
        let n = p.node;
        match net.kind_of(n) {
            NodeKind::Era => (TermV::Era, p.slot == 0, s),
            NodeKind::Con => if p.slot == 0 {
                let (nam, s1) = s.see(at(n, 2)).decl_name(net, at(n, 1));
                let (bod, v, s2) = read_linear(net, book, net.enter(at(n, 2)), s1, f);
                (TermV::Lam { nam, bod: Box::new(bod) }, v, s2)
            } else if p.slot == 1 {
                let (nam, s1) = s.var_name(p);
                (TermV::Var { nam }, true, s1)
            } else {
                let s0 = s.see(at(n, 0)).see(at(n, 1));
                let (fun, fv, s1) = read_linear(net, book, net.enter(at(n, 0)), s0, f);
                let (arg, av, s2) = read_linear(net, book, net.enter(at(n, 1)), s1, f);
                (TermV::App { fun: Box::new(fun), arg: Box::new(arg) }, fv && av, s2)
            },
            NodeKind::Mat => if p.slot == 2 {
                let s0 = s.see(at(n, 0)).see(at(n, 1));
                let (cond, cv, s1) = read_linear(net, book, net.enter(at(n, 0)), s0, f);
                let sel = net.enter(at(n, 1)).node;
                let s2 = s1.see(at(sel, 0)).see(at(sel, 1)).see(at(sel, 2));
                if net.kind_of(sel) is Con {
                    let (zero, zv, s3) = read_linear(net, book, net.enter(at(sel, 1)), s2, f);
                    let (succ, sv, s4) = read_linear(net, book, net.enter(at(sel, 2)), s3, f);
                    (
                        TermV::Match { cond: Box::new(cond), zero: Box::new(zero), succ: Box::new(succ) },
                        cv && zv && sv,
                        s4,
                    )
                } else {
                    (
                        TermV::Match {
                            cond: Box::new(cond),
                            zero: Box::new(TermV::Era),
                            succ: Box::new(TermV::Era),
                        },
                        false,
                        s2,
                    )
                }
            } else {
                (TermV::Era, false, s)
            },
            NodeKind::Ref { def_id } => {
                let (t, g) = fix(TermV::Ref { def_id }, s.names.gen, book, book.defs@.len());
                (t, true, s.with_gen(g))
            },
            NodeKind::Dup { .. } => if p.slot == 0 {
                let s0 = s.see(at(n, 1)).see(at(n, 2));
                let (fst, fv, s1) = read_linear(net, book, net.enter(at(n, 1)), s0, f);
                let (snd, sv, s2) = read_linear(net, book, net.enter(at(n, 2)), s1, f);
                (TermV::Sup { fst: Box::new(fst), snd: Box::new(snd) }, fv && sv, s2)
            } else {
                let s0 = ReadState { dups: s.dups.insert(n), ..s };
                let (nam, s1) = s0.var_name(p);
                (TermV::Var { nam }, true, s1)
            },
            NodeKind::Num { val } => (TermV::Num { val }, true, s),
            NodeKind::Op2 => if p.slot == 2 {
                let s0 = s.see(at(n, 0)).see(at(n, 1));
                let (op_term, ov, s1) = read_linear(net, book, net.enter(at(n, 0)), s0, f);
                let (arg, av, s2) = read_linear(net, book, net.enter(at(n, 1)), s1, f);
                let (t, ok) = combine(op_term, arg);
                (t, ov && av && ok, s2)
            } else {
                (TermV::Era, false, s)
            },
            NodeKind::Rot => (TermV::Era, false, s),
            NodeKind::Tup => if p.slot == 0 {
                let s0 = s.see(at(n, 1)).see(at(n, 2));
                let (fst, fv, s1) = read_linear(net, book, net.enter(at(n, 1)), s0, f);
                let (snd, sv, s2) = read_linear(net, book, net.enter(at(n, 2)), s1, f);
                (TermV::Tup { fst: Box::new(fst), snd: Box::new(snd) }, fv && sv, s2)
            } else {
                let s0 = ReadState { tups: s.tups.insert(n), ..s };
                let (nam, s1) = s0.var_name(p);
                (TermV::Var { nam }, true, s1)
            },
        }
    }
}

/// Index of the most recent context entry with label `lab`.
pub open spec fn last_with(ctx: Seq<(u8, usize)>, lab: u8) -> Option<int>
    decreases ctx.len(),
{
    if ctx.len() == 0 {
        None
    } else if ctx.last().0 == lab {
        Some(ctx.len() - 1)
    } else {
        last_with(ctx.drop_last(), lab)
    }
}

pub proof fn lemma_last_with(ctx: Seq<(u8, usize)>, lab: u8)
    ensures
        last_with(ctx, lab) matches Some(j) ==> 0 <= j < ctx.len() && ctx[j].0 == lab,
    decreases ctx.len(),
{
    if ctx.len() > 0 && ctx.last().0 != lab {
        lemma_last_with(ctx.drop_last(), lab);
    }
}

/// Every entry of a duplication context records an auxiliary slot.
pub open spec fn ctx_ok(ctx: Seq<(u8, usize)>) -> bool {
    forall|k: int| 0 <= k < ctx.len() ==> #[trigger] ctx[k].1 < 3
}

/// Non-linear readback of the term behind port `p`. `ctx` holds, for each
/// duplicator crossed through an auxiliary port on the way here, its label and
/// that port's slot.
pub open spec fn read_nonlinear(
    net: INet,
    book: Book,
    p: Port,
    ctx: Seq<(u8, usize)>,
    s: ReadState,
    fuel: nat,
) -> (TermV, bool, ReadState)
    decreases fuel,
{
    if fuel == 0 {
        (cut(), false, s)
    } else {
        let f = (fuel - 1) as nat;
        let n = p.node;
        match net.kind_of(n) {
            NodeKind::Era => (TermV::Era, p.slot == 0, s),
            NodeKind::Con => if p.slot == 0 {
                let (nam, s1) = s.decl_name(net, at(n, 1));
                let (bod, v, s2) = read_nonlinear(net, book, net.enter(at(n, 2)), ctx, s1, f);
                (TermV::Lam { nam, bod: Box::new(bod) }, v, s2)
            } else if p.slot == 1 {
                let (nam, s1) = s.var_name(p);
                (TermV::Var { nam }, true, s1)
            } else {
                let (fun, fv, s1) = read_nonlinear(net, book, net.enter(at(n, 0)), ctx, s, f);
                let (arg, av, s2) = read_nonlinear(net, book, net.enter(at(n, 1)), ctx, s1, f);
                (TermV::App { fun: Box::new(fun), arg: Box::new(arg) }, fv && av, s2)
            },
            NodeKind::Mat => if p.slot == 2 {
                let (cond, cv, s1) = read_nonlinear(net, book, net.enter(at(n, 0)), ctx, s, f);
                let sel = net.enter(at(n, 1)).node;
                if net.kind_of(sel) is Con {
                    let (zero, zv, s2) = read_nonlinear(net, book, net.enter(at(sel, 1)), ctx, s1, f);
                    let (succ, sv, s3) = read_nonlinear(net, book, net.enter(at(sel, 2)), ctx, s2, f);
                    (
                        TermV::Match { cond: Box::new(cond), zero: Box::new(zero), succ: Box::new(succ) },
                        cv && zv && sv,
                        s3,
                    )
                } else {
                    (
                        TermV::Match {
                            cond: Box::new(cond),
                            zero: Box::new(TermV::Era),
                            succ: Box::new(TermV::Era),
                        },
                        false,
                        s1,
                    )
                }
            } else {
                (TermV::Era, false, s)
            },
            NodeKind::Ref { def_id } => {
                let (t, g) = fix(TermV::Ref { def_id }, s.names.gen, book, book.defs@.len());
                (t, true, s.with_gen(g))
            },
            NodeKind::Dup { lab } => if p.slot == 0 {
                match last_with(ctx, lab) {
                    Some(j) => read_nonlinear(net, book, net.enter(at(n, ctx[j].1)), ctx.remove(j), s, f),
                    None => {
                        let (fst, fv, s1) = read_nonlinear(net, book, net.enter(at(n, 1)), ctx, s, f);
                        let (snd, sv, s2) = read_nonlinear(net, book, net.enter(at(n, 2)), ctx, s1, f);
                        (TermV::Sup { fst: Box::new(fst), snd: Box::new(snd) }, fv && sv, s2)
                    },
                }
            } else {
                read_nonlinear(net, book, net.enter(at(n, 0)), ctx.push((lab, p.slot)), s, f)
            },
            NodeKind::Num { val } => (TermV::Num { val }, true, s),
            NodeKind::Op2 => if p.slot == 2 {
                let (op_term, ov, s1) = read_nonlinear(net, book, net.enter(at(n, 0)), ctx, s, f);
                let (arg, av, s2) = read_nonlinear(net, book, net.enter(at(n, 1)), ctx, s1, f);
                let (t, ok) = reassoc(op_term, arg);
                (t, ov && av && ok, s2)
            } else {
                (TermV::Era, false, s)
            },
            NodeKind::Rot => (TermV::Era, false, s),
            NodeKind::Tup => if p.slot == 0 {
                let (fst, fv, s1) = read_nonlinear(net, book, net.enter(at(n, 1)), ctx, s, f);
                let (snd, sv, s2) = read_nonlinear(net, book, net.enter(at(n, 2)), ctx, s1, f);
                (TermV::Tup { fst: Box::new(fst), snd: Box::new(snd) }, fv && sv, s2)
            } else {
                let s0 = ReadState { tups: s.tups.insert(n), ..s };
                let (nam, s1) = s0.var_name(p);
                (TermV::Var { nam }, true, s1)
            },
        }
    }
}

/// Wraps `main` in an explicit duplication for each deferred duplicator, most
/// recent first; at most `k` of them.
pub open spec fn drain_dups(net: INet, book: Book, main: TermV, valid: bool, s: ReadState, k: nat) -> (
    TermV,
    bool,
    ReadState,
)
    decreases k,
{
    if k == 0 || s.dups.vec.len() == 0 {
        (main, valid, s)
    } else {
        let d = s.dups.vec.last();
        let s0 = ReadState { dups: s.dups.pop(), ..s }.see(at(d, 0));
        let (val, vv, s1) = read_linear(net, book, net.enter(at(d, 0)), s0, fuel_of(net));
        let (fst, s2) = s1.decl_name(net, at(d, 1));
        let (snd, s3) = s2.decl_name(net, at(d, 2));
        let main1 = TermV::Dup { tag: None, fst, snd, val: Box::new(val), nxt: Box::new(main) };
        drain_dups(net, book, main1, valid && vv, s3, (k - 1) as nat)
    }
}

/// Wraps `main` in a `Let` for each deferred tuple, most recent first; at most `k` of them.
pub open spec fn drain_tups(
    net: INet,
    book: Book,
    linear: bool,
    main: TermV,
    valid: bool,
    s: ReadState,
    k: nat,
) -> (TermV, bool, ReadState)
    decreases k,
{
    if k == 0 || s.tups.vec.len() == 0 {
        (main, valid, s)
    } else {
        let t = s.tups.vec.last();
        let s0 = ReadState { tups: s.tups.pop(), ..s };
        let (val, vv, s1) = if linear {
            read_linear(net, book, net.enter(at(t, 0)), s0.see(at(t, 0)), fuel_of(net))
        } else {
            read_nonlinear(net, book, net.enter(at(t, 0)), Seq::empty(), s0, fuel_of(net))
        };
        let (fst, s2) = s1.decl_name(net, at(t, 1));
        let (snd, s3) = s2.decl_name(net, at(t, 2));
        let main1 = TermV::Let { fst, snd, val: Box::new(val), nxt: Box::new(main) };
        drain_tups(net, book, linear, main1, valid && vv, s3, (k - 1) as nat)
    }
}

/// Slot `slot` of `node` was entered, or leads to an eraser.
pub open spec fn slot_read(net: INet, s: ReadState, node: usize, slot: usize) -> bool {
    s.seen[port_index(at(node, slot))] || net.kind_of(net.enter(at(node, slot)).node) is Era
}

/// If port `i` was named, every slot of its node was read or is erased.
pub open spec fn binder_read(net: INet, s: ReadState, i: int) -> bool {
    s.names.ids[i] is Some ==> {
        let node = (i / 3) as usize;
        slot_read(net, s, node, 0) && slot_read(net, s, node, 1) && slot_read(net, s, node, 2)
    }
}

/// No fragment hanging from a named binder was left unread.
pub open spec fn all_read(net: INet, s: ReadState) -> bool {
    forall|i: int| 0 <= i < 3 * net.len() ==> #[trigger] binder_read(net, s, i)
}

/// Linear readback: the term, its validity and the final state.
pub open spec fn linear_run(net: INet, book: Book) -> (TermV, bool, ReadState) {
    let n = net.len();
    let (main, v, s1) = read_linear(net, book, net.enter(root()), initial_state(n), fuel_of(net));
    let (main2, v2, s2) = drain_dups(net, book, main, v, s1, n);
    let (main3, v3, s3) = drain_tups(net, book, true, main2, v2, s2, n);
    (main3, v3 && all_read(net, s3) && !s3.names.gen.exhausted, s3)
}

/// Non-linear readback: the term, its validity and the final state.
pub open spec fn nonlinear_run(net: INet, book: Book) -> (TermV, bool, ReadState) {
    let n = net.len();
    let (main, v, s1) = read_nonlinear(
        net,
        book,
        net.enter(root()),
        Seq::empty(),
        initial_state(n),
        fuel_of(net),
    );
    let (main2, v2, s2) = drain_tups(net, book, false, main, v, s1, n);
    (main2, v2 && !s2.names.gen.exhausted, s2)
}

/// The state of one readback call.
pub struct Reader {
    pub namegen: NameGen,
    pub dups: Scope,
    pub tups: Scope,
    pub seen: Vec<bool>,
}

impl View for Reader {
    type V = ReadState;

    open spec fn view(&self) -> ReadState {
        ReadState { names: self.namegen@, dups: self.dups@, tups: self.tups@, seen: self.seen@ }
    }
}

fn port(node: usize, slot: usize) -> (r: Port)
    ensures
        r == at(node, slot),
{
    Port { node, slot }
}

impl Reader {
    pub fn new(n: usize) -> (r: Reader)
        requires
            n <= MAX_NODES,
        ensures
            r@ == initial_state(n as nat),
            r@.wf(n as nat),
    {
        let namegen = NameGen::new(n);
        let dups = Scope::new(n);
        let tups = Scope::new(n);
        let mut seen: Vec<bool> = Vec::new();
        let mut i: usize = 0;
        while i < 3 * n
            invariant
                n <= MAX_NODES,
                i <= 3 * n,
                seen@ =~= Seq::new(i as nat, |j: int| false),
            decreases 3 * n - i,
        {
            seen.push(false);
            i = i + 1;
        }
        let r = Reader { namegen, dups, tups, seen };
        proof {
            assert(r@.dups.vec =~= initial_state(n as nat).dups.vec);
            assert(r@.tups.vec =~= initial_state(n as nat).tups.vec);
            assert(r@.names.ids =~= initial_state(n as nat).names.ids);
        }
        r
    }

    fn see(&mut self, net: &INet, p: Port)
        requires
            net.wf(),
            net.valid_port(p),
            old(self)@.wf(net.len()),
        ensures
            final(self)@ == old(self)@.see(p),
            final(self)@.wf(net.len()),
    {
        self.seen.set(3 * p.node + p.slot, true);
        proof {
            assert(self@.seen =~= old(self)@.see(p).seen);
        }
    }

    fn var_name(&mut self, net: &INet, p: Port) -> (r: Name)
        requires
            net.wf(),
            net.valid_port(p),
            old(self)@.wf(net.len()),
        ensures
            (r@, final(self)@) == old(self)@.var_name(p),
            final(self)@.wf(net.len()),
    {
        self.namegen.var_name(p)
    }

    fn decl_name(&mut self, net: &INet, p: Port) -> (r: Option<Name>)
        requires
            net.wf(),
            net.valid_port(p),
            old(self)@.wf(net.len()),
        ensures
            (crate::term::name_view(r), final(self)@) == old(self)@.decl_name(*net, p),
            final(self)@.wf(net.len()),
    {
        self.namegen.decl_name(net, p)
    }

    /// Inlines a reference to a generated definition, or keeps it as a reference.
    fn read_ref(&mut self, net: &INet, book: &Book, def_id: usize) -> (r: Term)
        requires
            book.wf(),
            old(self)@.wf(net.len()),
        ensures
            (r@, final(self)@.names.gen) == fix(
                TermV::Ref { def_id },
                old(self)@.names.gen,
                *book,
                book.defs@.len(),
            ),
            final(self)@ == old(self)@.with_gen(final(self)@.names.gen),
            final(self)@.wf(net.len()),
    {
        let mut ids = self.namegen.id_counter;
        let t = Term::Ref { def_id }.fix_names(&mut ids, book, book.defs.len());
        self.namegen.id_counter = ids;
        proof {
            reveal(distinct_ids);
            let ng = self@.names;
            let og = old(self)@.names;
            if !ng.gen.exhausted {
                assert(!og.gen.exhausted);
                assert forall|k: int| 0 <= k < ng.ids.len() && (#[trigger] ng.ids[k]) is Some implies ng.ids[k]->0
                    < ng.gen.next by {
                    assert(og.ids[k]->0 < og.gen.next);
                }
            }
        }
        t
    }

    fn read_linear(&mut self, net: &INet, book: &Book, p: Port, fuel: usize) -> (r: (Term, bool))
        requires
            net.wf(),
            book.wf(),
            net.valid_port(p),
            old(self)@.wf(net.len()),
        ensures
            (r.0@, r.1, final(self)@) == read_linear(*net, *book, p, old(self)@, fuel as nat),
            final(self)@.wf(net.len()),
        decreases fuel,
    {
        proof {
            reveal_with_fuel(crate::term::term_view, 2);
        }
        if fuel == 0 || self.seen[3 * p.node + p.slot] {
            return (Term::Var { nam: cut_name() }, false);
        }
        let f = fuel - 1;
        self.see(net, p);
        let n = p.node;
        match net.kind(n) {
            NodeKind::Era => (Term::Era, p.slot == 0),
            NodeKind::Con => {
                if p.slot == 0 {
                    self.see(net, port(n, 2));
                    let nam = self.decl_name(net, port(n, 1));
                    let (bod, v) = self.read_linear(net, book, net.enter_port(port(n, 2)), f);
                    (Term::Lam { nam, bod: Box::new(bod) }, v)
                } else if p.slot == 1 {
                    let nam = self.var_name(net, p);
                    (Term::Var { nam }, true)
                } else {
                    self.see(net, port(n, 0));
                    self.see(net, port(n, 1));
                    let (fun, fv) = self.read_linear(net, book, net.enter_port(port(n, 0)), f);
                    let (arg, av) = self.read_linear(net, book, net.enter_port(port(n, 1)), f);
                    (Term::App { fun: Box::new(fun), arg: Box::new(arg) }, fv && av)
                }
            },
            NodeKind::Mat => {
                if p.slot == 2 {
                    self.see(net, port(n, 0));
                    self.see(net, port(n, 1));
                    let (cond, cv) = self.read_linear(net, book, net.enter_port(port(n, 0)), f);
                    let sel = net.enter_port(port(n, 1)).node;
                    self.see(net, port(sel, 0));
                    self.see(net, port(sel, 1));
                    self.see(net, port(sel, 2));
                    match net.kind(sel) {
                        NodeKind::Con => {
                            let (zero, zv) = self.read_linear(net, book, net.enter_port(port(sel, 1)), f);
                            let (succ, sv) = self.read_linear(net, book, net.enter_port(port(sel, 2)), f);
                            (
                                Term::Match { cond: Box::new(cond), zero: Box::new(zero), succ: Box::new(succ) },
                                cv && zv && sv,
                            )
                        },
                        _ => (
                            Term::Match {
                                cond: Box::new(cond),
                                zero: Box::new(Term::Era),
                                succ: Box::new(Term::Era),
                            },
                            false,
                        ),
                    }
                } else {
                    (Term::Era, false)
                }
            },
            NodeKind::Ref { def_id } => (self.read_ref(net, book, def_id), true),
            NodeKind::Dup { .. } => {
                if p.slot == 0 {
                    self.see(net, port(n, 1));
                    self.see(net, port(n, 2));
                    let (fst, fv) = self.read_linear(net, book, net.enter_port(port(n, 1)), f);
                    let (snd, sv) = self.read_linear(net, book, net.enter_port(port(n, 2)), f);
                    (Term::Sup { fst: Box::new(fst), snd: Box::new(snd) }, fv && sv)
                } else {
                    self.dups.insert(n);
                    let nam = self.var_name(net, p);
                    (Term::Var { nam }, true)
                }
            },
            NodeKind::Num { val } => (Term::Num { val }, true),
            NodeKind::Op2 => {
                if p.slot == 2 {
                    self.see(net, port(n, 0));
                    self.see(net, port(n, 1));
                    let (op_term, ov) = self.read_linear(net, book, net.enter_port(port(n, 0)), f);
                    let (arg, av) = self.read_linear(net, book, net.enter_port(port(n, 1)), f);
                    let (t, ok) = combine_terms(op_term, arg);
                    (t, ov && av && ok)
                } else {
                    (Term::Era, false)
                }
            },
            NodeKind::Rot => (Term::Era, false),
            NodeKind::Tup => {
                if p.slot == 0 {
                    self.see(net, port(n, 1));
                    self.see(net, port(n, 2));
                    let (fst, fv) = self.read_linear(net, book, net.enter_port(port(n, 1)), f);
                    let (snd, sv) = self.read_linear(net, book, net.enter_port(port(n, 2)), f);
                    (Term::Tup { fst: Box::new(fst), snd: Box::new(snd) }, fv && sv)
                } else {
                    self.tups.insert(n);
                    let nam = self.var_name(net, p);
                    (Term::Var { nam }, true)
                }
            },
        }
    }
}

fn is_era(t: &Term) -> (r: bool)
    ensures
        r == (t@ is Era),
{
    match t {
        Term::Era => true,
        _ => false,
    }
}

/// Splits a number into its low 24 bits and the operator in its high byte.
fn split_num_with_op(num: u32) -> (r: (u32, Option<Op>))
    ensures
        r == split_num(num),
{
    let op = Op::from_hvmc_label(num >> 24);
    let num = num & 0xff_ffff;
    (num, op)
}

fn combine_terms(op_term: Term, arg: Term) -> (r: (Term, bool))
    ensures
        (r.0@, r.1) == combine(op_term@, arg@),
{
    proof {
        reveal_with_fuel(crate::term::term_view, 2);
    }
    match op_term {
        Term::Num { val } => {
            let (low, op) = split_num_with_op(val);
            match op {
                Some(op) => (Term::Opx { op, fst: Box::new(Term::Num { val: low }), snd: Box::new(arg) }, true),
                None => match Op::from_hvmc_label(low) {
                    Some(op) => (Term::Opx { op, fst: Box::new(arg), snd: Box::new(Term::Era) }, true),
                    None => (Term::Era, false),
                },
            }
        },
        Term::Opx { op, fst, snd } => {
            let ok = is_era(&snd);
            (Term::Opx { op, fst, snd: Box::new(arg) }, ok)
        },
        _ => (Term::Era, false),
    }
}

fn find_last(ctx: &Vec<(u8, usize)>, lab: u8) -> (r: Option<usize>)
    ensures
        r matches Some(j) ==> last_with(ctx@, lab) == Some(j as int),
        r is None ==> last_with(ctx@, lab) is None,
{
    let mut i: usize = ctx.len();
    proof {
        assert(ctx@.subrange(0, i as int) =~= ctx@);
    }
    while i > 0
        invariant
            i <= ctx@.len(),
            last_with(ctx@, lab) == last_with(ctx@.subrange(0, i as int), lab),
        decreases i,
    {
        if ctx[i - 1].0 == lab {
            return Some(i - 1);
        }
        proof {
            assert(ctx@.subrange(0, i as int).drop_last() =~= ctx@.subrange(0, i - 1));
        }
        i = i - 1;
    }
    None
}

impl Reader {
    fn read_nonlinear(
        &mut self,
        net: &INet,
        book: &Book,
        p: Port,
        ctx: &mut Vec<(u8, usize)>,
        fuel: usize,
    ) -> (r: (Term, bool))
        requires
            net.wf(),
            book.wf(),
            net.valid_port(p),
            old(self)@.wf(net.len()),
            ctx_ok(old(ctx)@),
        ensures
            (r.0@, r.1, final(self)@) == read_nonlinear(
                *net,
                *book,
                p,
                old(ctx)@,
                old(self)@,
                fuel as nat,
            ),
            final(self)@.wf(net.len()),
            final(ctx)@ == old(ctx)@,
        decreases fuel, 0usize,
    {
        proof {
            reveal_with_fuel(crate::term::term_view, 2);
        }
        if fuel == 0 {
            return (Term::Var { nam: cut_name() }, false);
        }
        let f = fuel - 1;
        let n = p.node;
        match net.kind(n) {
            NodeKind::Era => (Term::Era, p.slot == 0),
            NodeKind::Con => {
                if p.slot == 0 {
                    let nam = self.decl_name(net, port(n, 1));
                    let (bod, v) = self.read_nonlinear(net, book, net.enter_port(port(n, 2)), ctx, f);
                    (Term::Lam { nam, bod: Box::new(bod) }, v)
                } else if p.slot == 1 {
                    let nam = self.var_name(net, p);
                    (Term::Var { nam }, true)
                } else {
                    let (fun, fv) = self.read_nonlinear(net, book, net.enter_port(port(n, 0)), ctx, f);
                    let (arg, av) = self.read_nonlinear(net, book, net.enter_port(port(n, 1)), ctx, f);
                    (Term::App { fun: Box::new(fun), arg: Box::new(arg) }, fv && av)
                }
            },
            NodeKind::Mat => self.read_mat_nonlinear(net, book, p, ctx, f),
            NodeKind::Ref { def_id } => (self.read_ref(net, book, def_id), true),
            NodeKind::Dup { lab } => self.read_dup_nonlinear(net, book, p, lab, ctx, f),
            NodeKind::Num { val } => (Term::Num { val }, true),
            NodeKind::Op2 => {
                if p.slot == 2 {
                    let (op_term, ov) = self.read_nonlinear(net, book, net.enter_port(port(n, 0)), ctx, f);
                    let (arg, av) = self.read_nonlinear(net, book, net.enter_port(port(n, 1)), ctx, f);
                    let (t, ok) = reassoc_terms(op_term, arg);
                    (t, ov && av && ok)
                } else {
                    (Term::Era, false)
                }
            },
            NodeKind::Rot => (Term::Era, false),
            NodeKind::Tup => {
                if p.slot == 0 {
                    let (fst, fv) = self.read_nonlinear(net, book, net.enter_port(port(n, 1)), ctx, f);
                    let (snd, sv) = self.read_nonlinear(net, book, net.enter_port(port(n, 2)), ctx, f);
                    (Term::Tup { fst: Box::new(fst), snd: Box::new(snd) }, fv && sv)
                } else {
                    self.tups.insert(n);
                    let nam = self.var_name(net, p);
                    (Term::Var { nam }, true)
                }
            },
        }
    }

    fn read_mat_nonlinear(
        &mut self,
        net: &INet,
        book: &Book,
        p: Port,
        ctx: &mut Vec<(u8, usize)>,
        f: usize,
    ) -> (r: (Term, bool))
        requires
            net.wf(),
            book.wf(),
            net.valid_port(p),
            net.kind_of(p.node) is Mat,
            old(self)@.wf(net.len()),
            ctx_ok(old(ctx)@),
        ensures
            (r.0@, r.1, final(self)@) == read_nonlinear(
                *net,
                *book,
                p,
                old(ctx)@,
                old(self)@,
                (f + 1) as nat,
            ),
            final(self)@.wf(net.len()),
            final(ctx)@ == old(ctx)@,
        decreases f, 1usize,
    {
        proof {
            reveal_with_fuel(crate::term::term_view, 2);
        }
        let n = p.node;
        if p.slot == 2 {
            let (cond, cv) = self.read_nonlinear(net, book, net.enter_port(port(n, 0)), ctx, f);
            let sel = net.enter_port(port(n, 1)).node;
            match net.kind(sel) {
                NodeKind::Con => {
                    let (zero, zv) = self.read_nonlinear(
                        net,
                        book,
                        net.enter_port(port(sel, 1)),
                        ctx,
                        f,
                    );
                    let (succ, sv) = self.read_nonlinear(
                        net,
                        book,
                        net.enter_port(port(sel, 2)),
                        ctx,
                        f,
                    );
                    (
                        Term::Match { cond: Box::new(cond), zero: Box::new(zero), succ: Box::new(succ) },
                        cv && zv && sv,
                    )
                },
                _ => (
                    Term::Match {
                        cond: Box::new(cond),
                        zero: Box::new(Term::Era),
                        succ: Box::new(Term::Era),
                    },
                    false,
                ),
            }
        } else {
            (Term::Era, false)
        }
        }

    fn read_dup_nonlinear(
        &mut self,
        net: &INet,
        book: &Book,
        p: Port,
        lab: u8,
        ctx: &mut Vec<(u8, usize)>,
        f: usize,
    ) -> (r: (Term, bool))
        requires
            net.wf(),
            book.wf(),
            net.valid_port(p),
            net.kind_of(p.node) == (NodeKind::Dup { lab }),
            old(self)@.wf(net.len()),
            ctx_ok(old(ctx)@),
        ensures
            (r.0@, r.1, final(self)@) == read_nonlinear(
        *net,
        *book,
        p,
        old(ctx)@,
        old(self)@,
        (f + 1) as nat,
            ),
            final(self)@.wf(net.len()),
            final(ctx)@ == old(ctx)@,
        decreases f, 1usize,
    {
        proof {
            reveal_with_fuel(crate::term::term_view, 2);
        }
        let n = p.node;
        if p.slot == 0 {
            match find_last(ctx, lab) {
                Some(j) => {
                    proof {
                        lemma_last_with(ctx@, lab);
                    }
                    let ghost before = ctx@;
                    let entry = ctx.remove(j);
                    let q = net.enter_port(port(n, entry.1));
                    let (t, v) = self.read_nonlinear(net, book, q, ctx, f);
                    ctx.insert(j, entry);
                    proof {
                        assert(ctx@ =~= before);
                    }
                    (t, v)
                },
                None => {
                    let (fst, fv) = self.read_nonlinear(net, book, net.enter_port(port(n, 1)), ctx, f);
                    let (snd, sv) = self.read_nonlinear(net, book, net.enter_port(port(n, 2)), ctx, f);
                    (Term::Sup { fst: Box::new(fst), snd: Box::new(snd) }, fv && sv)
                },
            }
        } else {
            let ghost before = ctx@;
            ctx.push((lab, p.slot));
            let r = self.read_nonlinear(net, book, net.enter_port(port(n, 0)), ctx, f);
            ctx.pop();
            proof {
                assert(ctx@ =~= before);
            }
            r
        }
        }

    fn drain_dups(&mut self, net: &INet, book: &Book, main: Term, valid: bool) -> (r: (Term, bool))
        requires
            net.wf(),
            book.wf(),
            old(self)@.wf(net.len()),
        ensures
            (r.0@, r.1, final(self)@) == drain_dups(*net, *book, main@, valid, old(self)@, net.len()),
            final(self)@.wf(net.len()),
    {
        proof {
            reveal_with_fuel(crate::term::term_view, 2);
        }
        let fuel = 3 * net.nodes.len() + 1;
        let mut main = main;
        let mut valid = valid;
        let mut k: usize = net.nodes.len();
        let ghost target = drain_dups(*net, *book, main@, valid, self@, net.len());
        while k > 0 && self.dups.vec.len() > 0
            invariant
        net.wf(),
        book.wf(),
        self@.wf(net.len()),
        fuel == fuel_of(*net),
        drain_dups(*net, *book, main@, valid, self@, k as nat) == target,
            decreases k,
        {
            let d = self.dups.pop().unwrap();
            self.see(net, port(d, 0));
            let (val, vv) = self.read_linear(net, book, net.enter_port(port(d, 0)), fuel);
            let fst = self.decl_name(net, port(d, 1));
            let snd = self.decl_name(net, port(d, 2));
            main = Term::Dup { tag: None, fst, snd, val: Box::new(val), nxt: Box::new(main) };
            valid = valid && vv;
            k = k - 1;
        }
        (main, valid)
    }

    fn drain_tups(&mut self, net: &INet, book: &Book, linear: bool, main: Term, valid: bool) -> (r: (
        Term,
        bool,
    ))
        requires
            net.wf(),
            book.wf(),
            old(self)@.wf(net.len()),
        ensures
            (r.0@, r.1, final(self)@) == drain_tups(
                *net,
                *book,
                linear,
                main@,
                valid,
                old(self)@,
                net.len(),
            ),
            final(self)@.wf(net.len()),
    {
        proof {
            reveal_with_fuel(crate::term::term_view, 2);
        }
        let fuel = 3 * net.nodes.len() + 1;
        let mut main = main;
        let mut valid = valid;
        let mut k: usize = net.nodes.len();
        let ghost target = drain_tups(*net, *book, linear, main@, valid, self@, net.len());
        while k > 0 && self.tups.vec.len() > 0
            invariant
                net.wf(),
                book.wf(),
                self@.wf(net.len()),
                fuel == fuel_of(*net),
                drain_tups(*net, *book, linear, main@, valid, self@, k as nat) == target,
            decreases k,
        {
            let t = self.tups.pop().unwrap();
            let (val, vv) = if linear {
                self.see(net, port(t, 0));
                self.read_linear(net, book, net.enter_port(port(t, 0)), fuel)
            } else {
                let mut ctx: Vec<(u8, usize)> = Vec::new();
                self.read_nonlinear(net, book, net.enter_port(port(t, 0)), &mut ctx, fuel)
            };
            let fst = self.decl_name(net, port(t, 1));
            let snd = self.decl_name(net, port(t, 2));
            main = Term::Let { pat: LetPat::Tup(fst, snd), val: Box::new(val), nxt: Box::new(main) };
            valid = valid && vv;
            k = k - 1;
        }
        (main, valid)
    }

    fn slot_was_read(&self, net: &INet, node: usize, slot: usize) -> (r: bool)
        requires
            net.wf(),
            node < net.len(),
            slot < 3,
            self@.wf(net.len()),
        ensures
            r == slot_read(*net, self@, node, slot),
    {
        let q = net.enter_port(port(node, slot));
        let erased = match net.kind(q.node) {
            NodeKind::Era => true,
            _ => false,
        };
        self.seen[3 * node + slot] || erased
    }

    /// Checks that every node with a named binder port had all its non-erased slots read.
    fn check_all_read(&self, net: &INet) -> (r: bool)
        requires
            net.wf(),
            self@.wf(net.len()),
        ensures
            r == all_read(*net, self@),
    {
        let total = 3 * net.nodes.len();
        let mut ok = true;
        let mut i: usize = 0;
        while i < total
            invariant
                net.wf(),
                self@.wf(net.len()),
                total == 3 * net.len(),
                i <= total,
                ok == (forall|j: int| 0 <= j < i ==> #[trigger] binder_read(*net, self@, j)),
            decreases total - i,
        {
            let b = match self.namegen.var_port_to_id[i] {
                Some(_) => {
                    let node = i / 3;
                    self.slot_was_read(net, node, 0) && self.slot_was_read(net, node, 1)
                        && self.slot_was_read(net, node, 2)
                },
                None => true,
            };
            proof {
                assert(b == binder_read(*net, self@, i as int));
                assert((forall|j: int| 0 <= j < i + 1 ==> #[trigger] binder_read(*net, self@, j)) == (
                (forall|j: int| 0 <= j < i ==> #[trigger] binder_read(*net, self@, j)) && b));
            }
            ok = ok && b;
            i = i + 1;
        }
        ok
    }
}

fn is_shaped(t: &Term) -> (r: bool)
    ensures
        r == shaped(t@),
{
    match t {
        Term::Num { .. } => true,
        Term::Opx { snd, .. } => is_era(snd),
        _ => false,
    }
}

fn reassoc_terms(op_term: Term, arg: Term) -> (r: (Term, bool))
    ensures
        (r.0@, r.1) == reassoc(op_term@, arg@),
{
    if is_shaped(&op_term) {
        combine_terms(op_term, arg)
    } else if is_shaped(&arg) {
        combine_terms(arg, op_term)
    } else {
        (Term::Era, false)
    }
}

/// Converts a net to a term, resolving duplicators against superpositions with
/// the same label met on the way. The result is the term and whether the
/// readback was valid; distinct binder ports were named with distinct ids.
pub fn net_to_term_non_linear(net: &INet, book: &Book) -> (r: (Term, bool))
    requires
        net.wf(),
        book.wf(),
    ensures
        (r.0@, r.1) == ({
            let (t, v, s) = nonlinear_run(*net, *book);
            (t, v)
        }),
        distinct_ids(nonlinear_run(*net, *book).2.names),
{
    let n = net.nodes.len();
    let mut reader = Reader::new(n);
    let mut ctx: Vec<(u8, usize)> = Vec::new();
    let fuel = 3 * n + 1;
    let (main, valid) = reader.read_nonlinear(net, book, net.enter_port(root_port()), &mut ctx, fuel);
    let (main, valid) = reader.drain_tups(net, book, false, main, valid);
    (main, valid && !reader.namegen.id_counter.exhausted)
}

/// Converts a net to a term in which every duplicator is an explicit binder,
/// reading each edge at most once. The result is the term and whether the
/// readback was valid; distinct binder ports were named with distinct ids.
pub fn net_to_term_linear(net: &INet, book: &Book) -> (r: (Term, bool))
    requires
        net.wf(),
        book.wf(),
    ensures
        (r.0@, r.1) == ({
            let (t, v, s) = linear_run(*net, *book);
            (t, v)
        }),
        distinct_ids(linear_run(*net, *book).2.names),
{
    let n = net.nodes.len();
    let mut reader = Reader::new(n);
    let fuel = 3 * n + 1;
    let (main, valid) = reader.read_linear(net, book, net.enter_port(root_port()), fuel);
    let (main, valid) = reader.drain_dups(net, book, main, valid);
    let (main, valid) = reader.drain_tups(net, book, true, main, valid);
    let all = reader.check_all_read(net);
    (main, valid && all && !reader.namegen.id_counter.exhausted)
}

} // verus!
