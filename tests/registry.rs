use kitties::kitty::crossover;
use kitties::{Error, Event, Kitty, KittyGender, Module};

const ALICE: u64 = 1;
const BOB: u64 = 2;

const MALE_DNA: [u8; 16] = [2, 10, 20, 30, 40, 50, 60, 70, 80, 90, 100, 110, 120, 130, 140, 150];
const FEMALE_DNA: [u8; 16] = [1, 11, 21, 31, 41, 51, 61, 71, 81, 91, 101, 111, 121, 131, 141, 151];

fn registry_with_pair(owner: u64) -> Module {
    let mut m = Module::new();
    m.create_with_dna(owner, MALE_DNA).unwrap();
    m.create_with_dna(owner, FEMALE_DNA).unwrap();
    m
}

#[test]
fn new_registry_is_empty() {
    let m = Module::new();
    assert_eq!(m.next_kitty_id(), 0);
    assert_eq!(m.kitties(&ALICE, 0), None);
}

#[test]
fn create_then_lookup_returns_emitted_kitty() {
    let mut m = Module::new();
    let seed = [7u8; 32];
    let ev = m.create(ALICE, &seed, Some(3)).unwrap();
    match ev {
        Event::KittyCreated(owner, id, kitty) => {
            assert_eq!(owner, ALICE);
            assert_eq!(id, 0);
            assert_eq!(m.kitties(&ALICE, id), Some(kitty));
            assert_eq!(kitty.0, Module::random_payload(&seed, &ALICE, Some(3)));
        }
        Event::KittyBred(..) => panic!("expected a creation event"),
    }
    assert_eq!(m.kitties(&BOB, 0), None);
}

#[test]
fn create_with_dna_stores_dna_verbatim() {
    let mut m = Module::new();
    let ev = m.create_with_dna(BOB, FEMALE_DNA).unwrap();
    assert_eq!(ev, Event::KittyCreated(BOB, 0, Kitty(FEMALE_DNA)));
    assert_eq!(m.kitties(&BOB, 0), Some(Kitty(FEMALE_DNA)));
}

#[test]
fn counter_advances_by_one_per_commit_and_not_on_abort() {
    let mut m = Module::new();
    for expected in 0u32..5 {
        assert_eq!(m.next_kitty_id(), expected);
        let ev = m.create(ALICE, &[expected as u8; 32], None).unwrap();
        assert_eq!(ev, Event::KittyCreated(ALICE, expected, m.kitties(&ALICE, expected).unwrap()));
        assert_eq!(m.next_kitty_id(), expected + 1);
    }
    assert_eq!(m.breed(ALICE, 0, 99, &[0u8; 32], None), Err(Error::InvalidKittyId));
    assert_eq!(m.next_kitty_id(), 5);
}

#[test]
fn ids_are_global_across_owners() {
    let mut m = Module::new();
    m.create_with_dna(ALICE, MALE_DNA).unwrap();
    let ev = m.create_with_dna(BOB, MALE_DNA).unwrap();
    assert_eq!(ev, Event::KittyCreated(BOB, 1, Kitty(MALE_DNA)));
    assert_eq!(m.kitties(&BOB, 0), None);
    assert_eq!(m.kitties(&ALICE, 1), None);
}

#[test]
fn breed_differing_genders_takes_each_byte_from_a_parent() {
    let mut m = registry_with_pair(ALICE);
    let selector: [u8; 16] = [0, 3, 0, 0, 9, 0, 0, 0, 1, 0, 0, 0, 0, 0, 0, 200];
    let ev = m.breed_with_selector(ALICE, 0, 1, selector).unwrap();
    let child: [u8; 16] = [2, 11, 20, 30, 41, 50, 60, 70, 81, 90, 100, 110, 120, 130, 140, 151];
    assert_eq!(ev, Event::KittyBred(ALICE, 2, Kitty(child)));
    assert_eq!(m.kitties(&ALICE, 2), Some(Kitty(child)));
    assert_eq!(m.next_kitty_id(), 3);
}

#[test]
fn breed_in_either_parent_order() {
    let mut m = registry_with_pair(ALICE);
    let ev = m.breed_with_selector(ALICE, 1, 0, [0u8; 16]).unwrap();
    assert_eq!(ev, Event::KittyBred(ALICE, 2, Kitty(FEMALE_DNA)));
}

#[test]
fn breed_same_gender_is_rejected_without_change() {
    let mut m = registry_with_pair(ALICE);
    m.create_with_dna(ALICE, [4u8; 16]).unwrap();
    assert_eq!(m.breed_with_selector(ALICE, 0, 2, [0u8; 16]), Err(Error::SameGender));
    assert_eq!(m.breed_with_selector(ALICE, 0, 0, [0u8; 16]), Err(Error::SameGender));
    assert_eq!(m.next_kitty_id(), 3);
    assert_eq!(m.kitties(&ALICE, 3), None);
}

#[test]
fn breed_unowned_id_is_rejected_without_change() {
    let mut m = registry_with_pair(ALICE);
    m.create_with_dna(BOB, FEMALE_DNA).unwrap();
    assert_eq!(m.breed_with_selector(BOB, 0, 2, [0u8; 16]), Err(Error::InvalidKittyId));
    assert_eq!(m.breed_with_selector(ALICE, 0, 2, [0u8; 16]), Err(Error::InvalidKittyId));
    assert_eq!(m.breed_with_selector(ALICE, 7, 1, [0u8; 16]), Err(Error::InvalidKittyId));
    assert_eq!(m.next_kitty_id(), 3);
    assert_eq!(m.kitties(&ALICE, 3), None);
    assert_eq!(m.kitties(&BOB, 3), None);
}

#[test]
fn create_create_breed_scenario() {
    let x = 42u64;
    let mut m = Module::new();
    assert_eq!(m.next_kitty_id(), 0);
    let e0 = Kitty(MALE_DNA);
    assert_eq!(m.create_with_dna(x, MALE_DNA), Ok(Event::KittyCreated(x, 0, e0)));
    assert_eq!(m.next_kitty_id(), 1);
    assert_eq!(m.kitties(&x, 0), Some(e0));
    let e1 = Kitty(FEMALE_DNA);
    assert_eq!(m.create_with_dna(x, FEMALE_DNA), Ok(Event::KittyCreated(x, 1, e1)));
    assert_eq!(m.next_kitty_id(), 2);
    assert_eq!(m.kitties(&x, 1), Some(e1));
    assert_ne!(e0.gender(), e1.gender());
    let ev = m.breed(x, 0, 1, &[5u8; 32], Some(0)).unwrap();
    assert_eq!(m.next_kitty_id(), 3);
    let child = m.kitties(&x, 2).unwrap();
    assert_eq!(ev, Event::KittyBred(x, 2, child));
    let selector = Module::random_payload(&[5u8; 32], &x, Some(0));
    assert_eq!(child.0, crossover(&MALE_DNA, &FEMALE_DNA, &selector));
    for i in 0..16 {
        assert!(child.0[i] == MALE_DNA[i] || child.0[i] == FEMALE_DNA[i]);
    }
}

#[test]
fn create_at_max_counter_overflows() {
    let mut m = Module::with_next_kitty_id(u32::MAX);
    assert_eq!(m.create(ALICE, &[1u8; 32], Some(1)), Err(Error::KittiesIdOverflow));
    assert_eq!(m.create_with_dna(ALICE, MALE_DNA), Err(Error::KittiesIdOverflow));
    assert_eq!(m.next_kitty_id(), u32::MAX);
    assert_eq!(m.kitties(&ALICE, u32::MAX), None);
    assert_eq!(m.kitties(&ALICE, 0), None);
}

#[test]
fn create_takes_the_last_id_before_max() {
    let mut m = Module::with_next_kitty_id(u32::MAX - 1);
    assert_eq!(
        m.create_with_dna(ALICE, MALE_DNA),
        Ok(Event::KittyCreated(ALICE, u32::MAX - 1, Kitty(MALE_DNA)))
    );
    assert_eq!(m.next_kitty_id(), u32::MAX);
    assert_eq!(m.create_with_dna(ALICE, FEMALE_DNA), Err(Error::KittiesIdOverflow));
}

#[test]
fn breed_at_max_counter_overflows_first() {
    let mut m = Module::with_next_kitty_id(u32::MAX);
    assert_eq!(m.breed_with_selector(ALICE, 0, 1, [0u8; 16]), Err(Error::KittiesIdOverflow));
    assert_eq!(m.breed(ALICE, 0, 1, &[0u8; 32], None), Err(Error::KittiesIdOverflow));
    assert_eq!(m.next_kitty_id(), u32::MAX);
}

#[test]
fn random_payload_hashes_the_scale_encoding() {
    let seed: [u8; 32] = core::array::from_fn(|i| i as u8);
    let sender: u64 = 0x0102_0304_0506_0708;
    let mut encoded: Vec<u8> = seed.to_vec();
    encoded.extend_from_slice(&[8, 7, 6, 5, 4, 3, 2, 1]);
    encoded.extend_from_slice(&[1, 0x44, 0x33, 0x22, 0x11]);
    let payload = Module::random_payload(&seed, &sender, Some(0x1122_3344));
    assert_eq!(payload, sp_crypto_hashing::blake2_128(&encoded));
    assert_ne!(&payload[..], &seed[..16]);

    let mut encoded_none: Vec<u8> = seed.to_vec();
    encoded_none.extend_from_slice(&[8, 7, 6, 5, 4, 3, 2, 1, 0]);
    assert_eq!(
        Module::random_payload(&seed, &sender, None),
        sp_crypto_hashing::blake2_128(&encoded_none)
    );
}

#[test]
fn random_payload_is_deterministic_and_decorrelated() {
    let seed = [9u8; 32];
    let a = Module::random_payload(&seed, &ALICE, Some(1));
    assert_eq!(a, Module::random_payload(&seed, &ALICE, Some(1)));
    assert_ne!(a, Module::random_payload(&seed, &ALICE, Some(2)));
    assert_ne!(a, Module::random_payload(&seed, &BOB, Some(1)));
    assert_ne!(a, Module::random_payload(&[8u8; 32], &ALICE, Some(1)));
}

#[test]
fn genders_of_created_kitties_follow_their_dna() {
    let mut m = registry_with_pair(BOB);
    assert_eq!(m.kitties(&BOB, 0).unwrap().gender(), KittyGender::Male);
    assert_eq!(m.kitties(&BOB, 1).unwrap().gender(), KittyGender::Female);
    assert!(m.create(BOB, &[0u8; 32], None).is_ok());
}
