//! The scope and storage manager.
//!
//! A [`Scope`] maps variable names to storage slots. `declare` binds a name
//! to a fresh slot, shadowing any earlier binding of the same name for the
//! rest of the current scope; `resolve` finds the nearest enclosing binding.
//! Entering a nested block takes a [`Scope::snapshot`], an independent copy
//! that is simply dropped when the block's lowering finishes — bindings
//! introduced inside the block never leak out, while writes through slots
//! that existed before the block remain visible because the slot, not the
//! binding, carries the value.

use vstd::prelude::*;

verus! {

/// One name-to-slot binding.
#[derive(Debug)]
pub struct Binding {
    pub name: String,
    pub slot: usize,
}

/// The bindings visible at one point of the lowering, latest last; the view
/// is the finite map a later binding of a name wins in.
#[derive(Debug)]
pub struct Scope {
    bindings: Vec<Binding>,
}

/// The map that a row of bindings denotes: later bindings shadow earlier
/// ones.
pub open spec fn bindings_map(s: Seq<Binding>) -> Map<Seq<char>, nat>
    decreases s,
{
    if s.len() == 0 {
        Map::empty()
    } else {
        bindings_map(s.drop_last()).insert(s.last().name@, s.last().slot as nat)
    }
}

/// Appending a binding inserts it into the denoted map.
pub proof fn lemma_bindings_map_push(s: Seq<Binding>, b: Binding)
    ensures
        bindings_map(s.push(b)) == bindings_map(s).insert(b.name@, b.slot as nat),
{
    assert(s.push(b).drop_last() =~= s);
    assert(s.push(b).last() == b);
}

impl View for Scope {
    type V = Map<Seq<char>, nat>;

    closed spec fn view(&self) -> Map<Seq<char>, nat> {
        bindings_map(self.bindings@)
    }
}

impl Scope {
    /// The empty scope, with no binding at all.
    pub fn new() -> (s: Scope)
        ensures
            s@ == Map::<Seq<char>, nat>::empty(),
    {
        Scope { bindings: Vec::new() }
    }

    /// Binds `name` to `slot`, shadowing any earlier binding of `name` for
    /// the remainder of this scope.
    pub fn declare(&mut self, name: &String, slot: usize)
        ensures
            final(self)@ == old(self)@.insert(name@, slot as nat),
    {
        let b = Binding { name: name.clone(), slot };
        proof {
            lemma_bindings_map_push(self.bindings@, b);
        }
        self.bindings.push(b);
    }

    /// Looks up the nearest enclosing binding of `name`: its slot, or `None`
    /// if no binding exists.
    pub fn resolve(&self, name: &String) -> (r: Option<usize>)
        ensures
            match r {
                Some(slot) => self@.contains_key(name@) && self@[name@] == slot as nat,
                None => !self@.contains_key(name@),
            },
    {
        let ghost full = self.bindings@;
        let mut i = self.bindings.len();
        proof {
            assert(full.subrange(0, i as int) =~= full);
        }
        while i > 0
            invariant
                i <= self.bindings.len(),
                full == self.bindings@,
                bindings_map(full).contains_key(name@) == bindings_map(
                    full.subrange(0, i as int),
                ).contains_key(name@),
                bindings_map(full).contains_key(name@) ==> bindings_map(full)[name@]
                    == bindings_map(full.subrange(0, i as int))[name@],
            decreases i,
        {
            i = i - 1;
            let b = &self.bindings[i];
            proof {
                assert(full.subrange(0, i + 1).drop_last() =~= full.subrange(0, i as int));
                assert(full.subrange(0, i + 1).last() == full[i as int]);
            }
            if b.name == *name {
                return Some(b.slot);
            }
        }
        proof {
            assert(full.subrange(0, 0) =~= Seq::<Binding>::empty());
        }
        None
    }

    /// An independent copy of this scope, taken when entering a nested
    /// block; dropping the copy is what keeps the block's own bindings from
    /// leaking out.
    pub fn snapshot(&self) -> (r: Scope)
        ensures
            r@ == self@,
    {
        let mut bindings: Vec<Binding> = Vec::new();
        let n = self.bindings.len();
        for i in 0..n
            invariant
                n == self.bindings.len(),
                bindings@.len() == i,
                forall|j: int| 0 <= j < i ==> bindings@[j] == self.bindings@[j],
        {
            let b = &self.bindings[i];
            bindings.push(Binding { name: b.name.clone(), slot: b.slot });
        }
        let r = Scope { bindings };
        proof {
            assert(r.bindings@ =~= self.bindings@);
        }
        r
    }
}

} // verus!
