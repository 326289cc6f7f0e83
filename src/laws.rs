//! Laws of the registry, stated over its abstract state and proved.
use vstd::prelude::*;

use crate::kitty::gender_of;
use crate::randomness::AccountId;
use crate::registry::{Error, ModuleView};

verus! {

/// A creation commits exactly when the counter has a successor, and then the
/// caller's slot under the reported id holds exactly the reported DNA.
pub proof fn lemma_create_then_lookup(s: ModuleView, sender: AccountId, dna: Seq<u8>)
    ensures
        s.create_step(sender, dna).1 is Ok <==> s.next_kitty_id < u32::MAX,
        match s.create_step(sender, dna) {
            (after, Ok((id, k))) => {
                &&& id == s.next_kitty_id
                &&& k == dna
                &&& after.kitties.contains_key((sender, id))
                &&& after.kitties[(sender, id)] == k
            },
            (_, Err(_)) => true,
        },
{
}

/// Each committed operation advances the counter by exactly one; a rejected
/// one leaves the whole state, counter included, unchanged.
pub proof fn lemma_counter_advances_once(
    s: ModuleView,
    sender: AccountId,
    dna: Seq<u8>,
    id_1: u32,
    id_2: u32,
    selector: Seq<u8>,
)
    ensures
        match s.create_step(sender, dna) {
            (after, Ok(_)) => after.next_kitty_id == s.next_kitty_id + 1,
            (after, Err(_)) => after == s,
        },
        match s.breed_step(sender, id_1, id_2, selector) {
            (after, Ok(_)) => after.next_kitty_id == s.next_kitty_id + 1,
            (after, Err(_)) => after == s,
        },
{
}

/// Gender depends on the parity of the first DNA byte alone: two DNA values
/// have the same gender exactly when their first bytes have the same parity.
pub proof fn lemma_gender_by_parity(a: Seq<u8>, b: Seq<u8>)
    ensures
        gender_of(a) == gender_of(b) <==> a[0] % 2 == b[0] % 2,
{
}

/// Breeding two of the caller's kitties of differing gender succeeds when the
/// counter has a successor, and every byte of the child is the byte of one
/// parent at that position.
pub proof fn lemma_breed_differing_genders(
    s: ModuleView,
    sender: AccountId,
    id_1: u32,
    id_2: u32,
    selector: Seq<u8>,
)
    requires
        s.wf(),
        selector.len() == 16,
        s.next_kitty_id < u32::MAX,
        s.kitties.contains_key((sender, id_1)),
        s.kitties.contains_key((sender, id_2)),
        gender_of(s.kitties[(sender, id_1)]) != gender_of(s.kitties[(sender, id_2)]),
    ensures
        match s.breed_step(sender, id_1, id_2, selector) {
            (after, Ok((id, child))) => {
                &&& id == s.next_kitty_id
                &&& after.kitties.contains_key((sender, id))
                &&& after.kitties[(sender, id)] == child
                &&& child.len() == 16
                &&& forall|i: int|
                    0 <= i < 16 ==> #[trigger] child[i] == s.kitties[(sender, id_1)][i]
                        || child[i] == s.kitties[(sender, id_2)][i]
            },
            (_, Err(_)) => false,
        },
{
}

/// Breeding two of the caller's kitties of the same gender, with a counter
/// that has a successor, is rejected as `SameGender` and changes nothing.
pub proof fn lemma_breed_same_gender(
    s: ModuleView,
    sender: AccountId,
    id_1: u32,
    id_2: u32,
    selector: Seq<u8>,
)
    requires
        s.next_kitty_id < u32::MAX,
        s.kitties.contains_key((sender, id_1)),
        s.kitties.contains_key((sender, id_2)),
        gender_of(s.kitties[(sender, id_1)]) == gender_of(s.kitties[(sender, id_2)]),
    ensures
        s.breed_step(sender, id_1, id_2, selector) == (s, Err::<(u32, Seq<u8>), Error>(
            Error::SameGender,
        )),
{
}

/// Breeding with an id that names no kitty of the caller, with a counter
/// that has a successor, is rejected as `InvalidKittyId` and changes nothing.
pub proof fn lemma_breed_unowned_id(
    s: ModuleView,
    sender: AccountId,
    id_1: u32,
    id_2: u32,
    selector: Seq<u8>,
)
    requires
        s.next_kitty_id < u32::MAX,
        !s.kitties.contains_key((sender, id_1)) || !s.kitties.contains_key((sender, id_2)),
    ensures
        s.breed_step(sender, id_1, id_2, selector) == (s, Err::<(u32, Seq<u8>), Error>(
            Error::InvalidKittyId,
        )),
{
}

/// With the counter at its maximum, a creation is rejected as
/// `KittiesIdOverflow`, the counter stays there and nothing is stored.
pub proof fn lemma_create_at_max(s: ModuleView, sender: AccountId, dna: Seq<u8>)
    requires
        s.next_kitty_id == u32::MAX,
    ensures
        s.create_step(sender, dna) == (s, Err::<(u32, Seq<u8>), Error>(Error::KittiesIdOverflow)),
{
}

} // verus!
