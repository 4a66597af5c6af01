//! The operations that a dialect knows by name.

use crate::text::same_text;
use vstd::prelude::*;

verus! {

/// The names of the operations that are registered.
#[derive(Debug)]
pub struct Dialect {
    ops: Vec<&'static str>,
}

/// `name` is one of the names.
pub open spec fn named(names: Seq<&'static str>, name: Seq<char>) -> bool {
    exists|i: int| 0 <= i < names.len() && #[trigger] names[i]@ == name
}

impl Dialect {
    /// The registered names.
    pub closed spec fn view(&self) -> Set<Seq<char>> {
        Set::new(|name: Seq<char>| named(self.ops@, name))
    }

    /// A dialect without operations.
    pub fn new() -> (dialect: Dialect)
        ensures
            dialect@ == Set::<Seq<char>>::empty(),
    {
        let dialect = Dialect { ops: Vec::new() };
        proof {
            assert(dialect@ =~= Set::<Seq<char>>::empty());
        }
        dialect
    }

    /// Whether an operation is registered.
    pub fn knows(&self, name: &str) -> (known: bool)
        ensures
            known == self@.contains(name@),
    {
        let mut i: usize = 0;
        while i < self.ops.len()
            invariant
                i <= self.ops.len(),
                forall|k: int| 0 <= k < i ==> #[trigger] self.ops@[k]@ != name@,
            decreases self.ops.len() - i,
        {
            if same_text(self.ops[i], name) {
                assert(named(self.ops@, name@));
                return true;
            }
            i += 1;
        }
        false
    }

    /// Registers an operation. One that is registered stays registered.
    pub fn add_op(&mut self, name: &'static str)
        ensures
            final(self)@ == old(self)@.insert(name@),
    {
        let ghost before = self.ops@;
        if !self.knows(name) {
            self.ops.push(name);
            proof {
                assert forall|other: Seq<char>| #[trigger]
                    named(self.ops@, other) <==> named(before, other) || other == name@ by {
                    if named(before, other) {
                        let i = choose|i: int|
                            0 <= i < before.len() && #[trigger] before[i]@ == other;
                        assert(self.ops@[i]@ == other);
                    }
                    if other == name@ {
                        assert(self.ops@[before.len() as int]@ == other);
                    }
                    if named(self.ops@, other) && other != name@ {
                        let i = choose|i: int|
                            0 <= i < self.ops@.len() && #[trigger] self.ops@[i]@ == other;
                        assert(before[i]@ == other);
                    }
                }
            }
        }
        proof {
            assert(self@ =~= old(self)@.insert(name@));
        }
    }
}

} // verus!
