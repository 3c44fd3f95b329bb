use vstd::prelude::*;
use crate::error::ErrorCode;
use crate::key::Pubkey;

verus! {

/// The record slots already taken at keys derived from a parent record and a
/// member identity (a vote per voter, a verdict per judge). Taking a slot is
/// the ledger's create-if-absent: a second claim of the same pair fails.
pub struct SlotRegistry {
    taken: Vec<(Pubkey, Pubkey)>,
}

impl View for SlotRegistry {
    type V = Set<(Seq<u8>, Seq<u8>)>;

    closed spec fn view(&self) -> Set<(Seq<u8>, Seq<u8>)> {
        Set::new(
            |k: (Seq<u8>, Seq<u8>)|
                exists|i: int|
                    0 <= i < self.taken@.len() && k == (self.taken@[i].0@, self.taken@[i].1@),
        )
    }
}

impl SlotRegistry {
    pub fn new() -> (r: SlotRegistry)
        ensures
            r@ == Set::<(Seq<u8>, Seq<u8>)>::empty(),
    {
        let r = SlotRegistry { taken: Vec::new() };
        assert(r@ =~= Set::<(Seq<u8>, Seq<u8>)>::empty());
        r
    }

    /// Whether the slot of `(parent, member)` is taken.
    pub fn contains(&self, parent: &Pubkey, member: &Pubkey) -> (r: bool)
        ensures
            r == self@.contains((parent@, member@)),
    {
        let mut i: usize = 0;
        while i < self.taken.len()
            invariant
                0 <= i <= self.taken@.len(),
                forall|j: int|
                    0 <= j < i ==> (self.taken@[j].0@, self.taken@[j].1@) != (parent@, member@),
            decreases self.taken@.len() - i,
        {
            if self.taken[i].0.same_as(parent) && self.taken[i].1.same_as(member) {
                assert(self@.contains((parent@, member@)));
                return true;
            }
            i = i + 1;
        }
        false
    }

    /// Takes the slot of `(parent, member)`, failing if it is already taken.
    pub fn claim(&mut self, parent: Pubkey, member: Pubkey) -> (r: Result<(), ErrorCode>)
        ensures
            old(self)@.contains((parent@, member@)) ==> r == Err::<(), ErrorCode>(
                ErrorCode::AccountAlreadyInUse,
            ) && final(self)@ == old(self)@,
            !old(self)@.contains((parent@, member@)) ==> r is Ok && final(self)@ == old(
                self,
            )@.insert((parent@, member@)),
    {
        if self.contains(&parent, &member) {
            return Err(ErrorCode::AccountAlreadyInUse);
        }
        let ghost before = self@;
        let ghost old_taken = self.taken@;
        self.taken.push((parent, member));
        assert forall|k: (Seq<u8>, Seq<u8>)| self@.contains(k) == before.insert(
            (parent@, member@),
        ).contains(k) by {
            if before.contains(k) {
                let i = choose|i: int|
                    0 <= i < old_taken.len() && k == (old_taken[i].0@, old_taken[i].1@);
                assert(self.taken@[i] == old_taken[i]);
            }
            if k == (parent@, member@) {
                assert(self.taken@[old_taken.len() as int] == (parent, member));
            }
            if self@.contains(k) {
                let i = choose|i: int|
                    0 <= i < self.taken@.len() && k == (self.taken@[i].0@, self.taken@[i].1@);
                if i < old_taken.len() {
                    assert(self.taken@[i] == old_taken[i]);
                    assert(before.contains(k));
                }
            }
        }
        assert(self@ =~= before.insert((parent@, member@)));
        Ok(())
    }
}

} // verus!
