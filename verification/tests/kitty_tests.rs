use kitty::combine;
use kitty::Error;
use kitty::Event;
use kitty::GetDefaultValue;
use kitty::Kitty;
use kitty::Pallet;

/// The byte string the randomness adapter hashes: seed, then the caller
/// identity in little-endian bytes, then the tagged call-sequence number.
fn payload(seed: &[u8], sender: u64, extrinsic_index: Option<u32>) -> Vec<u8> {
    let mut p = seed.to_vec();
    p.extend_from_slice(&sender.to_le_bytes());
    match extrinsic_index {
        None => p.push(0u8),
        Some(v) => {
            p.push(1u8);
            p.extend_from_slice(&v.to_le_bytes());
        }
    }
    p
}

fn expected_dna(seed: &[u8], sender: u64, extrinsic_index: Option<u32>) -> [u8; 16] {
    sp_io::hashing::blake2_128(&payload(seed, sender, extrinsic_index))
}

fn crossover(a: &[u8; 16], b: &[u8; 16], s: &[u8; 16]) -> [u8; 16] {
    let mut r = [0u8; 16];
    for i in 0..16 {
        r[i] = (a[i] & s[i]) | (b[i] & !s[i]);
    }
    r
}

const ALICE: u64 = 1;
const BOB: u64 = 2;
const CAROL: u64 = 3;

fn seed() -> Vec<u8> {
    vec![7u8; 32]
}

#[test]
fn default_counter_value_is_zero() {
    assert_eq!(GetDefaultValue(), 0);
    let p = Pallet::new();
    assert_eq!(p.next_kitty_id(), 0);
    assert_eq!(p.kittys(0), None);
    assert_eq!(p.kitty_owner(0), None);
}

#[test]
fn create_increments_counter_and_sets_owner() {
    let mut p = Pallet::new();
    let r = p.create(ALICE, &seed(), Some(0));
    assert_eq!(r, Ok(0));
    assert_eq!(p.next_kitty_id(), 1);
    assert_eq!(p.kitty_owner(0), Some(ALICE));
    assert!(p.kittys(0).is_some());
    let r2 = p.create(BOB, &seed(), Some(1));
    assert_eq!(r2, Ok(1));
    assert_eq!(p.next_kitty_id(), 2);
    assert_eq!(p.kitty_owner(1), Some(BOB));
}

#[test]
fn create_genome_is_the_host_digest_of_the_payload() {
    let mut p = Pallet::new();
    p.create(ALICE, &seed(), Some(4)).unwrap();
    let got = p.kittys(0).unwrap();
    assert_eq!(got.0, expected_dna(&seed(), ALICE, Some(4)));

    p.create(ALICE, &seed(), None).unwrap();
    let got_untagged = p.kittys(1).unwrap();
    assert_eq!(got_untagged.0, expected_dna(&seed(), ALICE, None));
    assert_ne!(got.0, got_untagged.0);
}

#[test]
fn create_records_one_creation_event() {
    let mut p = Pallet::new();
    p.create(ALICE, &seed(), Some(0)).unwrap();
    let k = p.kittys(0).unwrap();
    assert_eq!(p.events, vec![Event::KittyCreated(ALICE, 0, k)]);
}

#[test]
fn breed_with_equal_parents_fails_and_allocates_nothing() {
    let mut p = Pallet::new();
    p.create(ALICE, &seed(), Some(0)).unwrap();
    let before = p.next_kitty_id();
    let r = p.breed(ALICE, 0, 0, &seed(), Some(1));
    assert_eq!(r, Err(Error::SameKittyId));
    assert_eq!(p.next_kitty_id(), before);
    assert_eq!(p.events.len(), 1);

    // The check precedes existence: an absent id bred with itself still
    // reports the identical-parents error.
    let r2 = p.breed(ALICE, 9, 9, &seed(), Some(2));
    assert_eq!(r2, Err(Error::SameKittyId));
    assert_eq!(p.next_kitty_id(), before);
}

#[test]
fn breed_with_missing_parent_fails_and_allocates_nothing() {
    let mut p = Pallet::new();
    p.create(ALICE, &seed(), Some(0)).unwrap();
    let before = p.next_kitty_id();

    let r = p.breed(ALICE, 0, 5, &seed(), Some(1));
    assert_eq!(r, Err(Error::InvalidKittyId));
    assert_eq!(p.next_kitty_id(), before);

    let r2 = p.breed(ALICE, 5, 0, &seed(), Some(2));
    assert_eq!(r2, Err(Error::InvalidKittyId));
    assert_eq!(p.next_kitty_id(), before);

    let r3 = p.breed(ALICE, 5, 6, &seed(), Some(3));
    assert_eq!(r3, Err(Error::InvalidKittyId));
    assert_eq!(p.next_kitty_id(), before);
    assert_eq!(p.events.len(), 1);
}

#[test]
fn breed_combines_the_parent_genomes_under_the_derived_selector() {
    let mut p = Pallet::new();
    p.create(ALICE, &seed(), Some(0)).unwrap();
    p.create(BOB, &seed(), Some(1)).unwrap();
    let g0 = p.kittys(0).unwrap().0;
    let g1 = p.kittys(1).unwrap().0;

    let r = p.breed(CAROL, 0, 1, &seed(), Some(2));
    assert_eq!(r, Ok(2));
    assert_eq!(p.next_kitty_id(), 3);
    assert_eq!(p.kitty_owner(2), Some(CAROL));

    let selector = expected_dna(&seed(), CAROL, Some(2));
    let child = p.kittys(2).unwrap();
    assert_eq!(child.0, crossover(&g0, &g1, &selector));
    assert_eq!(p.events.last(), Some(&Event::KittyBred(CAROL, 2, child)));
}

#[test]
fn crossover_takes_each_bit_from_the_selected_parent() {
    let a = Kitty([0x00; 16]);
    let b = Kitty([0xFF; 16]);

    // Selector bit one draws from the first parent, zero from the second:
    // with parent bits 0 and 1 the result is the selector's complement.
    assert_eq!(combine(&a, &b, &[0xAA; 16]), Kitty([0x55; 16]));
    assert_eq!(combine(&a, &b, &[0x00; 16]), Kitty([0xFF; 16]));
    assert_eq!(combine(&a, &b, &[0xFF; 16]), Kitty([0x00; 16]));

    // (0xF0 & 0xAA) | (0x0F & 0x55) == 0xA5: bits inside one byte come from
    // different parents.
    let c = Kitty([0xF0; 16]);
    let d = Kitty([0x0F; 16]);
    assert_eq!(combine(&c, &d, &[0xAA; 16]), Kitty([0xA5; 16]));

    // A varied vector, checked against the byte formula.
    let e = Kitty([
        0x12, 0x34, 0x56, 0x78, 0x9A, 0xBC, 0xDE, 0xF0, 0x01, 0x23, 0x45, 0x67, 0x89, 0xAB,
        0xCD, 0xEF,
    ]);
    let f = Kitty([
        0xFE, 0xDC, 0xBA, 0x98, 0x76, 0x54, 0x32, 0x10, 0xEF, 0xCD, 0xAB, 0x89, 0x67, 0x45,
        0x23, 0x01,
    ]);
    let s = [
        0x00, 0xFF, 0x0F, 0xF0, 0x33, 0xCC, 0x55, 0xAA, 0x00, 0xFF, 0x0F, 0xF0, 0x33, 0xCC,
        0x55, 0xAA,
    ];
    assert_eq!(combine(&e, &f, &s), Kitty(crossover(&e.0, &f.0, &s)));
}

#[test]
fn transfer_by_non_owner_fails_and_keeps_the_registry() {
    let mut p = Pallet::new();
    p.create(ALICE, &seed(), Some(0)).unwrap();

    let r = p.transfer(BOB, 0, CAROL);
    assert_eq!(r, Err(Error::NotOwner));
    assert_eq!(p.kitty_owner(0), Some(ALICE));
    assert_eq!(p.events.len(), 1);

    let r2 = p.transfer(ALICE, 5, BOB);
    assert_eq!(r2, Err(Error::InvalidKittyId));
    assert_eq!(p.kitty_owner(0), Some(ALICE));
}

#[test]
fn transfer_by_owner_updates_the_registry_and_publishes_once() {
    let mut p = Pallet::new();
    p.create(ALICE, &seed(), Some(0)).unwrap();
    let events_before = p.events.len();

    let r = p.transfer(ALICE, 0, BOB);
    assert_eq!(r, Ok(()));
    assert_eq!(p.kitty_owner(0), Some(BOB));
    assert_eq!(p.events.len(), events_before + 1);
    assert_eq!(
        p.events.last(),
        Some(&Event::KittyTransferred(ALICE, BOB, 0))
    );
}

#[test]
fn marketplace_placeholders_accept_and_change_nothing() {
    let mut p = Pallet::new();
    p.create(ALICE, &seed(), Some(0)).unwrap();
    let owner_before = p.kitty_owner(0);
    let next_before = p.next_kitty_id();
    let events_before = p.events.clone();

    assert_eq!(p.buy_from(BOB, 0, 100u128, BOB), Ok(()));
    assert_eq!(p.sell_for(ALICE, 0, 100u128, BOB), Ok(()));
    assert_eq!(p.kitty_owner(0), owner_before);
    assert_eq!(p.next_kitty_id(), next_before);
    assert_eq!(p.events, events_before);
}

#[test]
fn allocator_reports_the_next_identifier() {
    let p = Pallet::new();
    assert_eq!(p.get_next_id(), Ok(0));
    assert_eq!(p.get_kitty(0), Err(()));
}

#[test]
fn end_to_end_scenario() {
    let mut p = Pallet::new();

    // Alice creates id 0, Bob creates id 1.
    assert_eq!(p.create(ALICE, &seed(), Some(0)), Ok(0));
    assert_eq!(p.kitty_owner(0), Some(ALICE));
    assert_eq!(p.create(BOB, &seed(), Some(1)), Ok(1));
    assert_eq!(p.kitty_owner(1), Some(BOB));

    let g0 = p.kittys(0).unwrap().0;
    let g1 = p.kittys(1).unwrap().0;

    // Alice breeds the two: no parent-ownership check, id 2 is hers, and the
    // child genome is the crossover under the derived selector.
    assert_eq!(p.breed(ALICE, 0, 1, &seed(), Some(2)), Ok(2));
    assert_eq!(p.kitty_owner(2), Some(ALICE));
    let selector = expected_dna(&seed(), ALICE, Some(2));
    assert_eq!(p.kittys(2).unwrap().0, crossover(&g0, &g1, &selector));

    // Alice hands id 0 to Bob; afterwards she may no longer transfer it.
    assert_eq!(p.transfer(ALICE, 0, BOB), Ok(()));
    assert_eq!(p.kitty_owner(0), Some(BOB));
    assert_eq!(p.transfer(ALICE, 0, CAROL), Err(Error::NotOwner));
    assert_eq!(p.kitty_owner(0), Some(BOB));

    // Asset immortality: nothing ever removed an asset, and the stored
    // genomes are unchanged.
    assert_eq!(p.kittys(0).unwrap().0, g0);
    assert_eq!(p.kittys(1).unwrap().0, g1);
    assert!(p.kittys(2).is_some());
    assert_eq!(p.next_kitty_id(), 3);
}

#[test]
fn random_value_is_the_digest_of_the_payload() {
    let r = kitty::random_value(ALICE, &seed(), Some(0));
    assert_eq!(r, expected_dna(&seed(), ALICE, Some(0)));
    let r2 = kitty::random_value(ALICE, &seed(), Some(1));
    assert_ne!(r, r2);
}

#[test]
fn exhausted_identifier_space_reports_and_changes_nothing() {
    let mut kittys = std::collections::HashMap::new();
    let mut owners = std::collections::HashMap::new();
    kittys.insert(0u32, Kitty([1; 16]));
    kittys.insert(1u32, Kitty([2; 16]));
    owners.insert(0u32, ALICE);
    owners.insert(1u32, BOB);
    let mut p = Pallet {
        next_kitty_id: u32::MAX,
        kittys,
        kitty_owner: owners,
        events: vec![],
    };

    assert_eq!(p.get_next_id(), Err(()));
    assert_eq!(p.create(ALICE, &seed(), Some(0)), Err(Error::IdSpaceExhausted));
    assert_eq!(p.next_kitty_id(), u32::MAX);
    assert_eq!(p.breed(ALICE, 0, 1, &seed(), Some(1)), Err(Error::IdSpaceExhausted));
    assert_eq!(p.next_kitty_id(), u32::MAX);
    assert_eq!(p.kittys(0), Some(Kitty([1; 16])));
    assert_eq!(p.events, vec![]);

    // Transfers need no fresh identifier, so they still work at the edge of
    // the identifier space.
    assert_eq!(p.transfer(ALICE, 0, BOB), Ok(()));
    assert_eq!(p.kitty_owner(0), Some(BOB));
}
