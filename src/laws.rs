use vstd::prelude::*;
use crate::book::{fix, Book, IdGen};
use crate::net::{root, INet};
use crate::readback::{
    all_read, drain_dups, drain_tups, fuel_of, initial_state, linear_run, nonlinear_run,
    read_linear, read_nonlinear, ReadState,
};
use crate::term::{letters, name_of, TermV};

verus! {

/// A linear readback reported valid left no fragment unread: for every port that
/// received a name, each slot of its node was entered or is linked to an eraser.
pub proof fn lemma_linear_valid_all_read(net: INet, book: Book)
    ensures
        linear_run(net, book).1 ==> all_read(net, linear_run(net, book).2),
{
}

/// Draining deferred duplicators never turns an invalid readback into a valid one.
pub proof fn lemma_drain_dups_keeps_invalid(
    net: INet,
    book: Book,
    main: TermV,
    valid: bool,
    s: ReadState,
    k: nat,
)
    ensures
        drain_dups(net, book, main, valid, s, k).1 ==> valid,
    decreases k,
{
    if k > 0 && s.dups.vec.len() > 0 {
        let d = s.dups.vec.last();
        let s0 = ReadState { dups: s.dups.pop(), ..s }.see(crate::readback::at(d, 0));
        let (val, vv, s1) = read_linear(net, book, net.enter(crate::readback::at(d, 0)), s0, fuel_of(net));
        let (fst, s2) = s1.decl_name(net, crate::readback::at(d, 1));
        let (snd, s3) = s2.decl_name(net, crate::readback::at(d, 2));
        let main1 = TermV::Dup { tag: None, fst, snd, val: Box::new(val), nxt: Box::new(main) };
        lemma_drain_dups_keeps_invalid(net, book, main1, valid && vv, s3, (k - 1) as nat);
    }
}

/// Draining deferred tuples never turns an invalid readback into a valid one.
pub proof fn lemma_drain_tups_keeps_invalid(
    net: INet,
    book: Book,
    linear: bool,
    main: TermV,
    valid: bool,
    s: ReadState,
    k: nat,
)
    ensures
        drain_tups(net, book, linear, main, valid, s, k).1 ==> valid,
    decreases k,
{
    if k > 0 && s.tups.vec.len() > 0 {
        let t = s.tups.vec.last();
        let s0 = ReadState { tups: s.tups.pop(), ..s };
        let (val, vv, s1) = if linear {
            read_linear(net, book, net.enter(crate::readback::at(t, 0)), s0.see(crate::readback::at(t, 0)), fuel_of(net))
        } else {
            read_nonlinear(net, book, net.enter(crate::readback::at(t, 0)), Seq::empty(), s0, fuel_of(net))
        };
        let (fst, s2) = s1.decl_name(net, crate::readback::at(t, 1));
        let (snd, s3) = s2.decl_name(net, crate::readback::at(t, 2));
        let main1 = TermV::Let { fst, snd, val: Box::new(val), nxt: Box::new(main) };
        lemma_drain_tups_keeps_invalid(net, book, linear, main1, valid && vv, s3, (k - 1) as nat);
    }
}

/// A readback is valid only if the read of the main term from the root was valid:
/// validity found invalid below is never lost on the way up.
pub proof fn lemma_validity_kept(net: INet, book: Book)
    ensures
        linear_run(net, book).1 ==> read_linear(
            net,
            book,
            net.enter(root()),
            initial_state(net.len()),
            fuel_of(net),
        ).1,
        nonlinear_run(net, book).1 ==> read_nonlinear(
            net,
            book,
            net.enter(root()),
            Seq::empty(),
            initial_state(net.len()),
            fuel_of(net),
        ).1,
{
    let n = net.len();
    let (main, v, s1) = read_linear(net, book, net.enter(root()), initial_state(n), fuel_of(net));
    lemma_drain_dups_keeps_invalid(net, book, main, v, s1, n);
    let (main2, v2, s2) = drain_dups(net, book, main, v, s1, n);
    lemma_drain_tups_keeps_invalid(net, book, true, main2, v2, s2, n);
    let (m, w, t1) = read_nonlinear(net, book, net.enter(root()), Seq::empty(), initial_state(n), fuel_of(net));
    lemma_drain_tups_keeps_invalid(net, book, false, m, w, t1, n);
}

/// Reading a reference to a generated definition gives the same term, and uses
/// the same ids, as fixing up that definition's body in its place.
pub proof fn lemma_inlining_in_place(book: Book, d: usize, g: IdGen, budget: nat)
    requires
        book.spec_generated(d),
        budget > 0,
    ensures
        fix(TermV::Ref { def_id: d }, g, book, budget) == fix(book.body(d), g, book, (budget - 1) as nat),
{
}

/// Every name has at least one letter; ids from 26 on have at least two.
pub proof fn lemma_name_of_len(n: u64)
    ensures
        name_of(n).len() >= 1,
        n >= 26 ==> name_of(n).len() >= 2,
        n < 26 ==> name_of(n).len() == 1,
    decreases n,
{
    if n >= 26 {
        lemma_name_of_len(n / 26);
    }
}

/// Distinct variable ids have distinct names.
pub proof fn lemma_name_of_injective(a: u64, b: u64)
    ensures
        name_of(a) == name_of(b) ==> a == b,
    decreases a,
{
    if name_of(a) == name_of(b) {
        assert(name_of(a)[0] == letters()[(a % 26) as int]);
        assert(name_of(b)[0] == letters()[(b % 26) as int]);
        assert(a % 26 == b % 26);
        if a >= 26 && b >= 26 {
            assert(name_of(a / 26) =~= name_of(a).subrange(1, name_of(a).len() as int));
            assert(name_of(b / 26) =~= name_of(b).subrange(1, name_of(b).len() as int));
            lemma_name_of_injective(a / 26, b / 26);
        } else {
            lemma_name_of_len(a);
            lemma_name_of_len(b);
        }
    }
}

} // verus!
