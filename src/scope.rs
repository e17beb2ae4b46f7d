use vstd::prelude::*;

verus! {

/// An ordered queue of node ids in which each id is inserted at most once.
pub struct Scope {
    pub vec: Vec<usize>,
    pub set: Vec<bool>,
}

pub struct ScopeV {
    /// Queued ids, oldest first.
    pub vec: Seq<usize>,
    /// `set[n]`: `n` was inserted at some point.
    pub set: Seq<bool>,
}

impl ScopeV {
    pub open spec fn wf(&self, n: nat) -> bool {
        &&& self.set.len() == n
        &&& forall|i: int| 0 <= i < self.vec.len() ==> #[trigger] self.vec[i] < n
    }

    /// Appends `node` unless it was inserted before.
    pub open spec fn insert(self, node: usize) -> ScopeV {
        if self.set[node as int] {
            self
        } else {
            ScopeV { vec: self.vec.push(node), set: self.set.update(node as int, true) }
        }
    }

    /// Removes the most recent entry.
    pub open spec fn pop(self) -> ScopeV {
        ScopeV { vec: self.vec.drop_last(), set: self.set }
    }
}

impl View for Scope {
    type V = ScopeV;

    open spec fn view(&self) -> ScopeV {
        ScopeV { vec: self.vec@, set: self.set@ }
    }
}

impl Scope {
    /// An empty scope over the node ids below `n`.
    pub fn new(n: usize) -> (r: Scope)
        ensures
            r@.vec.len() == 0,
            r@.set =~= Seq::new(n as nat, |i: int| false),
    {
        let mut set: Vec<bool> = Vec::new();
        let mut i: usize = 0;
        while i < n
            invariant
                i <= n,
                set@ =~= Seq::new(i as nat, |j: int| false),
            decreases n - i,
        {
            set.push(false);
            i = i + 1;
        }
        Scope { vec: Vec::new(), set }
    }

    pub fn insert(&mut self, node: usize)
        requires
            node < old(self)@.set.len(),
            old(self)@.wf(old(self)@.set.len()),
        ensures
            final(self)@ == old(self)@.insert(node),
            final(self)@.wf(old(self)@.set.len()),
    {
        if !self.set[node] {
            self.set.set(node, true);
            self.vec.push(node);
        }
        proof {
            assert(self@ =~= old(self)@.insert(node));
        }
    }

    pub fn pop(&mut self) -> (r: Option<usize>)
        requires
            old(self)@.wf(old(self)@.set.len()),
        ensures
            old(self)@.vec.len() == 0 ==> r is None && final(self)@ == old(self)@,
            old(self)@.vec.len() > 0 ==> r == Some(old(self)@.vec.last()) && final(self)@
                == old(self)@.pop(),
            final(self)@.wf(old(self)@.set.len()),
    {
        let r = self.vec.pop();
        proof {
            if old(self)@.vec.len() > 0 {
                assert(self@ =~= old(self)@.pop());
            } else {
                assert(self@ =~= old(self)@);
            }
        }
        r
    }
}

} // verus!
