//! The registry: a global id counter and an owner-scoped map from
//! (owner, id) to kitty, with the two operations `create` and `breed`.
use std::collections::HashMap;
use vstd::prelude::*;

use crate::kitty::{crossover, crossover_of, gender_of, Kitty};
use crate::randomness::{blake2_128, encode_payload, random_payload_of, AccountId};

verus! {

broadcast use vstd::std_specs::hash::group_hash_axioms;

/// Why an operation was rejected. A rejected operation changes nothing.
#[derive(Clone, Copy, Debug, PartialEq, Eq, Structural)]
pub enum Error {
    /// The id counter has no successor.
    KittiesIdOverflow,
    /// A parent id names no kitty of the caller.
    InvalidKittyId,
    /// Both parents have the same gender.
    SameGender,
}

/// The notification of a committed operation: owner, new id, new kitty.
#[derive(Clone, Copy, Debug, PartialEq, Eq)]
pub enum Event {
    KittyCreated(AccountId, u32, Kitty),
    KittyBred(AccountId, u32, Kitty),
}

impl Event {
    pub open spec fn owner(self) -> AccountId {
        match self {
            Event::KittyCreated(o, _, _) => o,
            Event::KittyBred(o, _, _) => o,
        }
    }

    pub open spec fn id(self) -> u32 {
        match self {
            Event::KittyCreated(_, id, _) => id,
            Event::KittyBred(_, id, _) => id,
        }
    }

    pub open spec fn kitty(self) -> Kitty {
        match self {
            Event::KittyCreated(_, _, k) => k,
            Event::KittyBred(_, _, k) => k,
        }
    }
}

/// The abstract state of the registry.
pub struct ModuleView {
    /// The id that the next committed operation receives.
    pub next_kitty_id: u32,
    /// The DNA stored under each (owner, id).
    pub kitties: Map<(AccountId, u32), Seq<u8>>,
}

/// What an operation reports: the new id and DNA, or the error.
pub type Outcome = Result<(u32, Seq<u8>), Error>;

impl ModuleView {
    /// Every stored id was issued before the counter's value, and every DNA has 16 bytes.
    pub open spec fn wf(self) -> bool {
        forall|k: (AccountId, u32)| #[trigger] self.kitties.contains_key(k)
            ==> k.1 < self.next_kitty_id && self.kitties[k].len() == 16
    }

    /// Stores `dna` under (owner, current counter) and advances the counter.
    pub open spec fn commit(self, owner: AccountId, dna: Seq<u8>) -> ModuleView
        recommends
            self.next_kitty_id < u32::MAX,
    {
        ModuleView {
            next_kitty_id: (self.next_kitty_id + 1) as u32,
            kitties: self.kitties.insert((owner, self.next_kitty_id), dna),
        }
    }

    /// The state after, and the outcome of, creating a kitty of DNA `dna` for `sender`.
    pub open spec fn create_step(self, sender: AccountId, dna: Seq<u8>) -> (ModuleView, Outcome) {
        if self.next_kitty_id == u32::MAX {
            (self, Err(Error::KittiesIdOverflow))
        } else {
            (self.commit(sender, dna), Ok((self.next_kitty_id, dna)))
        }
    }

    /// The state after, and the outcome of, breeding `sender`'s kitties `id_1`
    /// and `id_2` under the random selector `selector`.
    pub open spec fn breed_step(self, sender: AccountId, id_1: u32, id_2: u32, selector: Seq<u8>) -> (
        ModuleView,
        Outcome,
    ) {
        if self.next_kitty_id == u32::MAX {
            (self, Err(Error::KittiesIdOverflow))
        } else if !self.kitties.contains_key((sender, id_1)) || !self.kitties.contains_key(
            (sender, id_2),
        ) {
            (self, Err(Error::InvalidKittyId))
        } else if gender_of(self.kitties[(sender, id_1)]) == gender_of(
            self.kitties[(sender, id_2)],
        ) {
            (self, Err(Error::SameGender))
        } else {
            let child = crossover_of(
                self.kitties[(sender, id_1)],
                self.kitties[(sender, id_2)],
                selector,
            );
            (self.commit(sender, child), Ok((self.next_kitty_id, child)))
        }
    }
}

/// Whether `r` reports `outcome`: the error, or a `KittyCreated` (`bred`
/// false) or `KittyBred` (`bred` true) event of `sender` with the new id and DNA.
pub open spec fn reports(r: Result<Event, Error>, outcome: Outcome, sender: AccountId, bred: bool) -> bool {
    match r {
        Ok(ev) => {
            &&& outcome == Ok::<(u32, Seq<u8>), Error>((ev.id(), ev.kitty()@))
            &&& ev.owner() == sender
            &&& if bred {
                ev is KittyBred
            } else {
                ev is KittyCreated
            }
        },
        Err(e) => outcome == Err::<(u32, Seq<u8>), Error>(e),
    }
}

/// The kitty registry.
pub struct Module {
    kitties: HashMap<AccountId, HashMap<u32, Kitty>>,
    next_kitty_id: u32,
}

impl View for Module {
    type V = ModuleView;

    closed spec fn view(&self) -> ModuleView {
        ModuleView {
            next_kitty_id: self.next_kitty_id,
            kitties: Map::new(
                |k: (AccountId, u32)|
                    self.kitties@.contains_key(k.0) && self.kitties@[k.0]@.contains_key(k.1),
                |k: (AccountId, u32)| self.kitties@[k.0]@[k.1]@,
            ),
        }
    }
}

impl Module {
    /// An empty registry whose counter stands at zero.
    pub fn new() -> (r: Module)
        ensures
            r@.next_kitty_id == 0,
            r@.kitties == Map::<(AccountId, u32), Seq<u8>>::empty(),
            r@.wf(),
    {
        Module::with_next_kitty_id(0)
    }

    /// An empty registry whose counter stands at `next_kitty_id`.
    pub fn with_next_kitty_id(next_kitty_id: u32) -> (r: Module)
        ensures
            r@.next_kitty_id == next_kitty_id,
            r@.kitties == Map::<(AccountId, u32), Seq<u8>>::empty(),
            r@.wf(),
    {
        let r = Module { kitties: HashMap::new(), next_kitty_id };
        assert(r@.kitties =~= Map::<(AccountId, u32), Seq<u8>>::empty());
        r
    }

    /// The id that the next committed operation receives.
    pub fn next_kitty_id(&self) -> (r: u32)
        ensures
            r == self@.next_kitty_id,
    {
        self.next_kitty_id
    }

    /// The kitty stored under (`owner`, `id`), if any.
    pub fn kitties(&self, owner: &AccountId, id: u32) -> (r: Option<Kitty>)
        ensures
            match r {
                Some(k) => self@.kitties.contains_key((*owner, id)) && self@.kitties[(*owner, id)]
                    == k@,
                None => !self@.kitties.contains_key((*owner, id)),
            },
    {
        match self.kitties.get(owner) {
            Some(owned) => match owned.get(&id) {
                Some(k) => Some(*k),
                None => None,
            },
            None => None,
        }
    }

    /// Stores `kitty` under (`owner`, `id`), replacing what was there.
    fn insert_kitty(&mut self, owner: AccountId, id: u32, kitty: Kitty)
        ensures
            final(self)@.next_kitty_id == old(self)@.next_kitty_id,
            final(self)@.kitties == old(self)@.kitties.insert((owner, id), kitty@),
    {
        let mut owned = match self.kitties.remove(&owner) {
            Some(m) => m,
            None => HashMap::new(),
        };
        owned.insert(id, kitty);
        self.kitties.insert(owner, owned);
        assert(self@.kitties =~= old(self)@.kitties.insert((owner, id), kitty@));
    }

    /// Takes the current counter value as a new id and advances the counter;
    /// fails, changing nothing, where the counter has no successor.
    fn reserve_next(&mut self) -> (r: Result<u32, Error>)
        ensures
            match r {
                Ok(id) => {
                    &&& old(self)@.next_kitty_id < u32::MAX
                    &&& id == old(self)@.next_kitty_id
                    &&& final(self)@.next_kitty_id == id + 1
                    &&& final(self)@.kitties == old(self)@.kitties
                },
                Err(e) => {
                    &&& old(self)@.next_kitty_id == u32::MAX
                    &&& e == Error::KittiesIdOverflow
                    &&& final(self)@ == old(self)@
                },
            },
    {
        let current_id = self.next_kitty_id;
        match current_id.checked_add(1) {
            Some(next_id) => {
                self.next_kitty_id = next_id;
                Ok(current_id)
            },
            None => Err(Error::KittiesIdOverflow),
        }
    }

    /// Puts the counter back to `id`, undoing a reservation.
    fn release(&mut self, id: u32)
        ensures
            final(self)@.next_kitty_id == id,
            final(self)@.kitties == old(self)@.kitties,
    {
        self.next_kitty_id = id;
    }
    /// The random payload of `sender` under the host's seed and extrinsic
    /// index: the Blake2b-128 digest of their SCALE encoding.
    pub fn random_payload(seed: &[u8; 32], sender: &AccountId, extrinsic_index: Option<u32>) -> (r: [u8; 16])
        ensures
            r@ == random_payload_of(seed@, *sender, extrinsic_index),
    {
        let payload = encode_payload(seed, sender, extrinsic_index);
        blake2_128(&payload)
    }

    /// Creates a kitty of DNA `dna` for `sender` under the next id.
    pub fn create_with_dna(&mut self, sender: AccountId, dna: [u8; 16]) -> (r: Result<Event, Error>)
        requires
            old(self)@.wf(),
        ensures
            final(self)@.wf(),
            final(self)@ == old(self)@.create_step(sender, dna@).0,
            reports(r, old(self)@.create_step(sender, dna@).1, sender, false),
    {
        let current_id = self.reserve_next()?;
        let kitty = Kitty(dna);
        self.insert_kitty(sender, current_id, kitty);
        Ok(Event::KittyCreated(sender, current_id, kitty))
    }

    /// Creates a kitty for `sender` whose DNA is the random payload of the
    /// host's `seed` and `extrinsic_index`.
    pub fn create(&mut self, sender: AccountId, seed: &[u8; 32], extrinsic_index: Option<u32>) -> (r:
        Result<Event, Error>)
        requires
            old(self)@.wf(),
        ensures
            final(self)@.wf(),
            final(self)@ == old(self)@.create_step(
                sender,
                random_payload_of(seed@, sender, extrinsic_index),
            ).0,
            reports(
                r,
                old(self)@.create_step(sender, random_payload_of(seed@, sender, extrinsic_index)).1,
                sender,
                false,
            ),
    {
        let dna = Module::random_payload(seed, &sender, extrinsic_index);
        self.create_with_dna(sender, dna)
    }

    /// Breeds `sender`'s kitties `id_1` and `id_2` into a child under the next
    /// id, each child byte taken from the first parent where the selector byte
    /// is zero and from the second otherwise.
    pub fn breed_with_selector(&mut self, sender: AccountId, id_1: u32, id_2: u32, selector: [u8; 16]) -> (r:
        Result<Event, Error>)
        requires
            old(self)@.wf(),
        ensures
            final(self)@.wf(),
            final(self)@ == old(self)@.breed_step(sender, id_1, id_2, selector@).0,
            reports(r, old(self)@.breed_step(sender, id_1, id_2, selector@).1, sender, true),
    {
        let snapshot = self.next_kitty_id;
        let current_id = self.reserve_next()?;
        let kitty_1 = match self.kitties(&sender, id_1) {
            Some(k) => k,
            None => {
                self.release(snapshot);
                return Err(Error::InvalidKittyId);
            },
        };
        let kitty_2 = match self.kitties(&sender, id_2) {
            Some(k) => k,
            None => {
                self.release(snapshot);
                return Err(Error::InvalidKittyId);
            },
        };
        if kitty_1.gender() == kitty_2.gender() {
            self.release(snapshot);
            return Err(Error::SameGender);
        }
        let kitty = Kitty(crossover(&kitty_1.0, &kitty_2.0, &selector));
        self.insert_kitty(sender, current_id, kitty);
        Ok(Event::KittyBred(sender, current_id, kitty))
    }

    /// Breeds `sender`'s kitties `id_1` and `id_2` under a selector that is the
    /// random payload of the host's `seed` and `extrinsic_index`.
    pub fn breed(
        &mut self,
        sender: AccountId,
        id_1: u32,
        id_2: u32,
        seed: &[u8; 32],
        extrinsic_index: Option<u32>,
    ) -> (r: Result<Event, Error>)
        requires
            old(self)@.wf(),
        ensures
            final(self)@.wf(),
            final(self)@ == old(self)@.breed_step(
                sender,
                id_1,
                id_2,
                random_payload_of(seed@, sender, extrinsic_index),
            ).0,
            reports(
                r,
                old(self)@.breed_step(
                    sender,
                    id_1,
                    id_2,
                    random_payload_of(seed@, sender, extrinsic_index),
                ).1,
                sender,
                true,
            ),
    {
        let selector = Module::random_payload(seed, &sender, extrinsic_index);
        self.breed_with_selector(sender, id_1, id_2, selector)
    }
}

} // verus!
