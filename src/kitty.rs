//! The entity model: a kitty is 16 bytes of DNA; its gender is derived from them.
use vstd::prelude::*;

verus! {

/// Number of DNA bytes of a kitty.
pub const DNA_LEN: usize = 16;

/// The gender of a kitty, derived from the low bit of its first DNA byte.
#[derive(Clone, Copy, Debug, PartialEq, Eq, Structural)]
pub enum KittyGender {
    Male,
    Female,
}

/// A kitty: 16 bytes of DNA, any value of which is a legal kitty.
#[derive(Clone, Copy, Debug, PartialEq, Eq)]
pub struct Kitty(pub [u8; 16]);

impl View for Kitty {
    type V = Seq<u8>;

    open spec fn view(&self) -> Seq<u8> {
        self.0@
    }
}

/// The gender that a DNA sequence determines: even first byte is male, odd is female.
pub open spec fn gender_of(dna: Seq<u8>) -> KittyGender {
    if dna[0] % 2 == 0 {
        KittyGender::Male
    } else {
        KittyGender::Female
    }
}

/// The child DNA of a crossover: at each position the byte of `dna_1` where the
/// selector byte is zero, else the byte of `dna_2`.
pub open spec fn crossover_of(dna_1: Seq<u8>, dna_2: Seq<u8>, selector: Seq<u8>) -> Seq<u8> {
    Seq::new(dna_1.len(), |i: int| if selector[i] == 0 { dna_1[i] } else { dna_2[i] })
}

impl Kitty {
    /// The gender of this kitty.
    pub fn gender(&self) -> (r: KittyGender)
        ensures
            r == gender_of(self@),
    {
        if self.0[0] % 2 == 0 {
            KittyGender::Male
        } else {
            KittyGender::Female
        }
    }
}

/// Combines two DNA values byte by byte: position `i` takes `dna_1[i]` where
/// `selector[i]` is zero and `dna_2[i]` otherwise.
pub fn crossover(dna_1: &[u8; 16], dna_2: &[u8; 16], selector: &[u8; 16]) -> (r: [u8; 16])
    ensures
        r@ == crossover_of(dna_1@, dna_2@, selector@),
{
    let mut new_dna: [u8; 16] = [0u8; 16];
    let mut i: usize = 0;
    while i < DNA_LEN
        invariant
            i <= DNA_LEN,
            new_dna@.len() == DNA_LEN,
            forall|j: int|
                0 <= j < i ==> new_dna@[j] == (if selector@[j] == 0 {
                    dna_1@[j]
                } else {
                    dna_2@[j]
                }),
        decreases DNA_LEN - i,
    {
        new_dna[i] = if selector[i] == 0 { dna_1[i] } else { dna_2[i] };
        i = i + 1;
    }
    assert(new_dna@ =~= crossover_of(dna_1@, dna_2@, selector@));
    new_dna
}

} // verus!
