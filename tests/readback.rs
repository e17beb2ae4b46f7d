use readback::book::{Book, Definition, IdGen, Rule};
use readback::net::{INet, Node, NodeKind, Port};
use readback::readback::{net_to_term_linear, net_to_term_non_linear};
use readback::term::{var_id_to_name, LetPat, Op, Term};

fn p(node: usize, slot: usize) -> Port {
    Port { node, slot }
}

fn node(kind: NodeKind, main: Port, aux1: Port, aux2: Port) -> Node {
    Node { main, aux1, aux2, kind }
}

/// A leaf node whose auxiliary ports loop back to themselves.
fn leaf(id: usize, kind: NodeKind, main: Port) -> Node {
    node(kind, main, p(id, 1), p(id, 2))
}

fn root_to(target: Port) -> Node {
    node(NodeKind::Rot, p(0, 0), target, p(0, 2))
}

fn var(s: &str) -> Term {
    Term::Var { nam: s.to_string() }
}

fn lam(s: Option<&str>, bod: Term) -> Term {
    Term::Lam { nam: s.map(|x| x.to_string()), bod: Box::new(bod) }
}

fn num(v: u32) -> Term {
    Term::Num { val: v }
}

fn empty_book() -> Book {
    Book { defs: Vec::new() }
}

fn identity_net() -> INet {
    INet { nodes: vec![root_to(p(1, 0)), node(NodeKind::Con, p(0, 1), p(1, 2), p(1, 1))] }
}

fn contains_cut(t: &Term) -> bool {
    match t {
        Term::Var { nam } => nam == "...",
        Term::Lam { bod, .. } => contains_cut(bod),
        Term::App { fun, arg } => contains_cut(fun) || contains_cut(arg),
        _ => false,
    }
}

#[test]
fn identity_reads_back_in_both_modes() {
    let net = identity_net();
    let book = empty_book();
    let expected = lam(Some("a"), var("a"));
    assert_eq!(net_to_term_non_linear(&net, &book), (lam(Some("a"), var("a")), true));
    assert_eq!(net_to_term_linear(&net, &book), (expected, true));
}

fn apply_net() -> INet {
    INet {
        nodes: vec![
            root_to(p(2, 2)),
            node(NodeKind::Con, p(2, 0), p(1, 2), p(1, 1)),
            node(NodeKind::Con, p(1, 0), p(3, 0), p(0, 1)),
            leaf(3, NodeKind::Num { val: 7 }, p(2, 1)),
        ],
    }
}

#[test]
fn apply_of_identity_to_seven() {
    let expected = Term::App { fun: Box::new(lam(Some("a"), var("a"))), arg: Box::new(num(7)) };
    assert_eq!(net_to_term_non_linear(&apply_net(), &empty_book()), (expected, true));
    let expected = Term::App { fun: Box::new(lam(Some("a"), var("a"))), arg: Box::new(num(7)) };
    assert_eq!(net_to_term_linear(&apply_net(), &empty_book()), (expected, true));
}

fn match_net(selector: NodeKind) -> INet {
    INet {
        nodes: vec![
            root_to(p(1, 2)),
            node(NodeKind::Mat, p(2, 0), p(3, 0), p(0, 1)),
            leaf(2, NodeKind::Num { val: 0 }, p(1, 0)),
            node(selector, p(1, 1), p(4, 0), p(5, 0)),
            leaf(4, NodeKind::Num { val: 1 }, p(3, 1)),
            node(NodeKind::Con, p(3, 2), p(5, 2), p(5, 1)),
        ],
    }
}

fn expected_match() -> Term {
    Term::Match {
        cond: Box::new(num(0)),
        zero: Box::new(num(1)),
        succ: Box::new(lam(Some("a"), var("a"))),
    }
}

#[test]
fn match_zero_succ() {
    let net = match_net(NodeKind::Con);
    assert_eq!(net_to_term_non_linear(&net, &empty_book()), (expected_match(), true));
    assert_eq!(net_to_term_linear(&net, &empty_book()), (expected_match(), true));
}

#[test]
fn match_with_non_con_selector_is_invalid() {
    let net = match_net(NodeKind::Tup);
    let expected = Term::Match { cond: Box::new(num(0)), zero: Box::new(Term::Era), succ: Box::new(Term::Era) };
    let (t, valid) = net_to_term_non_linear(&net, &empty_book());
    assert_eq!(t, expected);
    assert!(!valid);
    let (_, valid) = net_to_term_linear(&net, &empty_book());
    assert!(!valid);
}

/// Two chained `Op2` nodes: the first takes `op` on port 0 and `Num{3}` on port 1,
/// the second takes the first's result on port 0 and `Num{4}` on port 1.
fn op_chain_net(op: u32) -> INet {
    INet {
        nodes: vec![
            root_to(p(2, 2)),
            node(NodeKind::Op2, p(3, 0), p(4, 0), p(2, 0)),
            node(NodeKind::Op2, p(1, 2), p(5, 0), p(0, 1)),
            leaf(3, NodeKind::Num { val: op }, p(1, 0)),
            leaf(4, NodeKind::Num { val: 3 }, p(1, 1)),
            leaf(5, NodeKind::Num { val: 4 }, p(2, 1)),
        ],
    }
}

#[test]
fn op_reassembly_of_a_chain() {
    let expected = Term::Opx { op: Op::ADD, fst: Box::new(num(3)), snd: Box::new(num(4)) };
    assert_eq!(net_to_term_non_linear(&op_chain_net(0x1), &empty_book()), (expected, true));
    let expected = Term::Opx { op: Op::ADD, fst: Box::new(num(3)), snd: Box::new(num(4)) };
    assert_eq!(net_to_term_linear(&op_chain_net(0x1), &empty_book()), (expected, true));
}

#[test]
fn op_packed_with_its_first_operand() {
    // A single Op2: port 0 holds SUB in the high byte and 9 in the low 24 bits.
    let net = INet {
        nodes: vec![
            root_to(p(1, 2)),
            node(NodeKind::Op2, p(2, 0), p(3, 0), p(0, 1)),
            leaf(2, NodeKind::Num { val: 0x0200_0009 }, p(1, 0)),
            leaf(3, NodeKind::Num { val: 5 }, p(1, 1)),
        ],
    };
    let expected = Term::Opx { op: Op::SUB, fst: Box::new(num(9)), snd: Box::new(num(5)) };
    assert_eq!(net_to_term_linear(&net, &empty_book()), (expected, true));
}

#[test]
fn linear_op_with_complete_operand_is_invalid() {
    // The first Op2 already holds both operands, so the second finds no gap to fill.
    let expected = Term::Opx { op: Op::ADD, fst: Box::new(num(0)), snd: Box::new(num(4)) };
    assert_eq!(net_to_term_linear(&op_chain_net(0x0100_0000), &empty_book()), (expected, false));
}

#[test]
fn op_with_unknown_label_is_invalid() {
    let single = INet {
        nodes: vec![
            root_to(p(1, 2)),
            node(NodeKind::Op2, p(2, 0), p(3, 0), p(0, 1)),
            leaf(2, NodeKind::Num { val: 0 }, p(1, 0)),
            leaf(3, NodeKind::Num { val: 0 }, p(1, 1)),
        ],
    };
    assert_eq!(net_to_term_non_linear(&single, &empty_book()), (Term::Era, false));
    assert_eq!(net_to_term_linear(&single, &empty_book()), (Term::Era, false));
    let (_, valid) = net_to_term_non_linear(&op_chain_net(0x0), &empty_book());
    assert!(!valid);
    let (_, valid) = net_to_term_linear(&op_chain_net(0x0), &empty_book());
    assert!(!valid);
}

fn sup_net(lab_outer: u8, lab_inner: u8, entry: usize) -> INet {
    // Root enters duplicator 1 through `entry`; its principal port meets the
    // principal port of duplicator 2, whose auxiliaries hold 1 and 2.
    let mut outer = node(NodeKind::Dup { lab: lab_outer }, p(2, 0), p(1, 1), p(1, 2));
    if entry == 1 {
        outer.aux1 = p(0, 1);
    } else {
        outer.aux2 = p(0, 1);
    }
    INet {
        nodes: vec![
            root_to(p(1, entry)),
            outer,
            node(NodeKind::Dup { lab: lab_inner }, p(1, 0), p(3, 0), p(4, 0)),
            leaf(3, NodeKind::Num { val: 1 }, p(2, 1)),
            leaf(4, NodeKind::Num { val: 2 }, p(2, 2)),
        ],
    }
}

#[test]
fn unresolvable_sup_is_kept() {
    let net = INet {
        nodes: vec![
            root_to(p(1, 0)),
            node(NodeKind::Dup { lab: 5 }, p(0, 1), p(2, 0), p(3, 0)),
            leaf(2, NodeKind::Num { val: 1 }, p(1, 1)),
            leaf(3, NodeKind::Num { val: 2 }, p(1, 2)),
        ],
    };
    let expected = Term::Sup { fst: Box::new(num(1)), snd: Box::new(num(2)) };
    assert_eq!(net_to_term_non_linear(&net, &empty_book()), (expected, true));
    let expected = Term::Sup { fst: Box::new(num(1)), snd: Box::new(num(2)) };
    assert_eq!(net_to_term_linear(&net, &empty_book()), (expected, true));
}

#[test]
fn matching_dup_and_sup_annihilate() {
    assert_eq!(net_to_term_non_linear(&sup_net(7, 7, 1), &empty_book()), (num(1), true));
    assert_eq!(net_to_term_non_linear(&sup_net(7, 7, 2), &empty_book()), (num(2), true));
    let expected = Term::Sup { fst: Box::new(num(1)), snd: Box::new(num(2)) };
    assert_eq!(net_to_term_non_linear(&sup_net(7, 8, 1), &empty_book()), (expected, true));
}

fn cyclic_net() -> INet {
    INet {
        nodes: vec![
            root_to(p(1, 0)),
            node(NodeKind::Con, p(0, 1), p(2, 0), p(1, 0)),
            leaf(2, NodeKind::Era, p(1, 1)),
        ],
    }
}

#[test]
fn cyclic_net_terminates_in_linear_mode() {
    let (t, valid) = net_to_term_linear(&cyclic_net(), &empty_book());
    assert!(!valid);
    assert!(contains_cut(&t));
    assert_eq!(t, lam(None, var("...")));
}

#[test]
fn cyclic_net_terminates_in_non_linear_mode() {
    let (t, valid) = net_to_term_non_linear(&cyclic_net(), &empty_book());
    assert!(!valid);
    assert!(contains_cut(&t));
}

fn dup_net() -> INet {
    // λx. let a b = dup x; a b
    INet {
        nodes: vec![
            root_to(p(1, 0)),
            node(NodeKind::Con, p(0, 1), p(3, 0), p(2, 2)),
            node(NodeKind::Con, p(3, 1), p(3, 2), p(1, 2)),
            node(NodeKind::Dup { lab: 0 }, p(1, 1), p(2, 0), p(2, 1)),
        ],
    }
}

#[test]
fn linear_mode_emits_explicit_dup() {
    let (t, valid) = net_to_term_linear(&dup_net(), &empty_book());
    let expected = Term::Dup {
        tag: None,
        fst: Some("b".to_string()),
        snd: Some("c".to_string()),
        val: Box::new(var("a")),
        nxt: Box::new(lam(Some("a"), Term::App { fun: Box::new(var("b")), arg: Box::new(var("c")) })),
    };
    assert_eq!(t, expected);
    assert!(valid);
}

#[test]
fn non_linear_mode_reads_through_dup() {
    let (t, valid) = net_to_term_non_linear(&dup_net(), &empty_book());
    let expected = lam(Some("a"), Term::App { fun: Box::new(var("a")), arg: Box::new(var("a")) });
    assert_eq!(t, expected);
    assert!(valid);
}

#[test]
fn tuple_and_let() {
    let tup = INet {
        nodes: vec![
            root_to(p(1, 0)),
            node(NodeKind::Tup, p(0, 1), p(2, 0), p(3, 0)),
            leaf(2, NodeKind::Num { val: 1 }, p(1, 1)),
            leaf(3, NodeKind::Num { val: 2 }, p(1, 2)),
        ],
    };
    let expected = Term::Tup { fst: Box::new(num(1)), snd: Box::new(num(2)) };
    assert_eq!(net_to_term_non_linear(&tup, &empty_book()), (expected, true));

    // let (a, *) = (1, 2); a
    let elim = INet {
        nodes: vec![
            root_to(p(1, 1)),
            node(NodeKind::Tup, p(2, 0), p(0, 1), p(5, 0)),
            node(NodeKind::Tup, p(1, 0), p(3, 0), p(4, 0)),
            leaf(3, NodeKind::Num { val: 1 }, p(2, 1)),
            leaf(4, NodeKind::Num { val: 2 }, p(2, 2)),
            leaf(5, NodeKind::Era, p(1, 2)),
        ],
    };
    let expected = Term::Let {
        pat: LetPat::Tup(Some("a".to_string()), None),
        val: Box::new(Term::Tup { fst: Box::new(num(1)), snd: Box::new(num(2)) }),
        nxt: Box::new(var("a")),
    };
    assert_eq!(net_to_term_non_linear(&elim, &empty_book()), (expected, true));
    let (t, valid) = net_to_term_linear(&elim, &empty_book());
    assert!(valid);
    assert!(matches!(t, Term::Let { .. }));
}

#[test]
fn eraser_entered_by_auxiliary_is_invalid() {
    let net = INet { nodes: vec![root_to(p(1, 1)), leaf(1, NodeKind::Era, p(1, 0))] };
    assert_eq!(net_to_term_non_linear(&net, &empty_book()), (Term::Era, false));
    assert_eq!(net_to_term_linear(&net, &empty_book()), (Term::Era, false));
}

#[test]
fn eraser_entered_by_principal_is_valid() {
    let net = INet { nodes: vec![root_to(p(1, 0)), leaf(1, NodeKind::Era, p(0, 1))] };
    assert_eq!(net_to_term_non_linear(&net, &empty_book()), (Term::Era, true));
    assert_eq!(net_to_term_linear(&net, &empty_book()), (Term::Era, true));
}

#[test]
fn reentering_root_is_invalid() {
    let net = INet { nodes: vec![node(NodeKind::Rot, p(0, 0), p(0, 0), p(0, 2))] };
    assert_eq!(net_to_term_non_linear(&net, &empty_book()), (Term::Era, false));
    assert_eq!(net_to_term_linear(&net, &empty_book()), (Term::Era, false));
}

#[test]
fn unread_binder_fragment_is_invalid_in_linear_mode() {
    // The root reads a variable of a λ whose own principal port is never reached.
    let net = INet {
        nodes: vec![
            root_to(p(1, 1)),
            node(NodeKind::Con, p(2, 0), p(0, 1), p(3, 0)),
            leaf(2, NodeKind::Num { val: 1 }, p(1, 0)),
            leaf(3, NodeKind::Num { val: 2 }, p(1, 2)),
        ],
    };
    let (t, valid) = net_to_term_linear(&net, &empty_book());
    assert_eq!(t, var("a"));
    assert!(!valid);
    let (t, valid) = net_to_term_non_linear(&net, &empty_book());
    assert_eq!(t, var("a"));
    assert!(valid);
}

fn book_with(name: &str, body: Term) -> Book {
    Book {
        defs: vec![Definition { name: name.to_string(), rules: vec![Rule { pattern_matching: false, body }] }],
    }
}

fn ref_net() -> INet {
    INet { nodes: vec![root_to(p(1, 0)), leaf(1, NodeKind::Ref { def_id: 0 }, p(0, 1))] }
}

#[test]
fn generated_reference_is_inlined_with_fresh_names() {
    let book = book_with("main$S0", lam(Some("x"), var("x")));
    assert_eq!(net_to_term_non_linear(&ref_net(), &book), (lam(Some("a"), var("a")), true));
    assert_eq!(net_to_term_linear(&ref_net(), &book), (lam(Some("a"), var("a")), true));
}

#[test]
fn plain_reference_is_kept() {
    let book = book_with("main", lam(Some("x"), var("x")));
    assert_eq!(net_to_term_non_linear(&ref_net(), &book), (Term::Ref { def_id: 0 }, true));
    assert_eq!(net_to_term_linear(&ref_net(), &book), (Term::Ref { def_id: 0 }, true));
}

#[test]
fn generated_definitions_are_recognised_by_dollar() {
    let book = Book {
        defs: vec![
            Definition { name: "main".to_string(), rules: Vec::new() },
            Definition {
                name: "foo$C0".to_string(),
                rules: vec![Rule { pattern_matching: false, body: Term::Era }],
            },
        ],
    };
    assert!(!book.is_generated_def(0));
    assert!(book.is_generated_def(1));
    assert!(!book.is_generated_def(2));
}

#[test]
fn operator_labels() {
    assert_eq!(Op::from_hvmc_label(0x0), None);
    assert_eq!(Op::from_hvmc_label(0x1), Some(Op::ADD));
    assert_eq!(Op::from_hvmc_label(0x6), Some(Op::EQ));
    assert_eq!(Op::from_hvmc_label(0xf), Some(Op::RSH));
    assert_eq!(Op::from_hvmc_label(0x10), None);
}

#[test]
fn variable_names() {
    assert_eq!(var_id_to_name(0), "a");
    assert_eq!(var_id_to_name(25), "z");
    assert_eq!(var_id_to_name(26), "ab");
    assert_eq!(var_id_to_name(27), "bb");
    assert_ne!(var_id_to_name(1), var_id_to_name(26));
}

#[test]
fn fix_names_restamps_binders() {
    let t = lam(Some("x"), lam(Some("y"), Term::App { fun: Box::new(var("x")), arg: Box::new(var("y")) }));
    let mut ids = IdGen::new();
    let r = t.fix_names(&mut ids, &empty_book(), 0);
    let expected = lam(Some("a"), lam(Some("b"), Term::App { fun: Box::new(var("a")), arg: Box::new(var("b")) }));
    assert_eq!(r, expected);
    assert_eq!(ids.next, 2);
    assert!(!ids.exhausted);
}

#[test]
fn fix_names_respects_shadowing() {
    let t = lam(Some("x"), lam(Some("x"), var("x")));
    let mut ids = IdGen::new();
    let r = t.fix_names(&mut ids, &empty_book(), 0);
    assert_eq!(r, lam(Some("a"), lam(Some("b"), var("b"))));
}

#[test]
fn fix_names_inlines_nested_generated_refs() {
    let book = Book {
        defs: vec![
            Definition {
                name: "f$0".to_string(),
                rules: vec![Rule { pattern_matching: false, body: lam(Some("x"), Term::Ref { def_id: 1 }) }],
            },
            Definition {
                name: "f$1".to_string(),
                rules: vec![Rule { pattern_matching: false, body: lam(Some("y"), var("y")) }],
            },
        ],
    };
    let mut ids = IdGen::new();
    let r = Term::Ref { def_id: 0 }.fix_names(&mut ids, &book, 2);
    assert_eq!(r, lam(Some("a"), lam(Some("b"), var("b"))));
}

#[test]
fn exhausted_ids_are_reported() {
    let mut ids = IdGen { next: u64::MAX, exhausted: false };
    let r = lam(Some("x"), var("x")).fix_names(&mut ids, &empty_book(), 0);
    assert!(ids.exhausted);
    assert!(matches!(r, Term::Lam { .. }));
}

#[test]
fn non_linear_readback_is_deterministic() {
    let book = empty_book();
    assert_eq!(net_to_term_non_linear(&dup_net(), &book), net_to_term_non_linear(&dup_net(), &book));
    assert_eq!(net_to_term_non_linear(&match_net(NodeKind::Con), &book), net_to_term_non_linear(&match_net(NodeKind::Con), &book));
}

#[test]
fn linear_binder_names_are_distinct() {
    let (t, _) = net_to_term_linear(&dup_net(), &empty_book());
    match t {
        Term::Dup { fst: Some(a), snd: Some(b), nxt, .. } => {
            assert_ne!(a, b);
            match *nxt {
                Term::Lam { nam: Some(c), .. } => {
                    assert_ne!(a, c);
                    assert_ne!(b, c);
                }
                other => panic!("expected a lambda, got {:?}", other),
            }
        }
        other => panic!("expected a dup, got {:?}", other),
    }
}
