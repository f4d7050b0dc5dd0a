use kitties::{Error, Event, Module, Trait};

struct Host {
    balance: u128,
    reserved: u128,
    fee: u128,
    seed: [u8; 32],
    index: Option<u32>,
    events: Vec<Event>,
}

impl Host {
    fn with_balance(balance: u128) -> Host {
        Host { balance, reserved: 0, fee: 10, seed: [3u8; 32], index: Some(1), events: Vec::new() }
    }
}

impl Trait for Host {
    fn random_seed(&self) -> [u8; 32] {
        self.seed
    }

    fn extrinsic_index(&self) -> Option<u32> {
        self.index
    }

    fn new_kitty_reserve(&self) -> u128 {
        self.fee
    }

    fn reserve(&mut self, _who: u64, amount: u128) -> bool {
        if self.balance < amount {
            return false;
        }
        self.balance -= amount;
        self.reserved += amount;
        true
    }

    fn deposit_event(&mut self, event: Event) {
        self.events.push(event);
    }
}

const X: u64 = 1;
const Y: u64 = 2;

#[test]
fn combine_dna_picks_bits_by_selector() {
    assert_eq!(Module::combine_dna(0b1100_1010, 0b0101_0011, 0b1111_0000), 0b1100_0011);
    assert_eq!(Module::combine_dna(0xAB, 0xCD, 0xFF), 0xAB);
    assert_eq!(Module::combine_dna(0xAB, 0xCD, 0x00), 0xCD);
}

#[test]
fn combine_mixes_every_position() {
    let a = [0xFFu8; 16];
    let b = [0x00u8; 16];
    let mut sel = [0u8; 16];
    for i in 0..16 {
        sel[i] = i as u8;
    }
    let child = Module::combine(&a, &b, &sel);
    assert_eq!(child, sel);
    let swapped = Module::combine(&b, &a, &sel);
    for i in 0..16 {
        assert_eq!(swapped[i], !sel[i]);
    }
}

#[test]
fn random_value_is_blake2_of_encoded_payload() {
    let r = Module::random_value(&[0u8; 32], 1, Some(0));
    assert_eq!(r, [39, 140, 77, 194, 163, 1, 154, 220, 108, 18, 30, 32, 100, 223, 46, 1]);
    let r = Module::random_value(&[7u8; 32], 2, None);
    assert_eq!(r, [129, 125, 99, 210, 207, 62, 152, 203, 108, 149, 179, 189, 177, 68, 49, 140]);
}

#[test]
fn random_value_is_reproducible() {
    let a = Module::random_value(&[5u8; 32], 9, Some(4));
    let b = Module::random_value(&[5u8; 32], 9, Some(4));
    let c = Module::random_value(&[5u8; 32], 10, Some(4));
    assert_eq!(a, b);
    assert_ne!(a, c);
}

#[test]
fn create_issues_increasing_ids_to_caller() {
    let mut m = Module::new();
    let mut host = Host::with_balance(100);
    let k0 = m.create(&mut host, X).unwrap();
    let k1 = m.create(&mut host, Y).unwrap();
    assert_eq!(k0, 0);
    assert_eq!(k1, 1);
    assert_eq!(m.kitties_count(), 2);
    assert_eq!(m.kitties_owner(k0), Some(X));
    assert_eq!(m.kitties_owner(k1), Some(Y));
    assert_eq!(m.kitty_total(X), vec![k0]);
    assert_eq!(host.balance, 80);
    assert_eq!(host.reserved, 20);
    assert_eq!(host.events, vec![Event::Created(X, 0), Event::Created(Y, 1)]);
    let dna = Module::random_value(&[3u8; 32], X, Some(1));
    assert_eq!(m.kitty_db(k0).unwrap().0, dna);
    assert_eq!(m.kitty_parents(k0), None);
}

#[test]
fn create_without_balance_changes_nothing() {
    let mut m = Module::new();
    let mut host = Host::with_balance(5);
    assert_eq!(m.create(&mut host, X), Err(Error::NoEnoughBalance));
    assert_eq!(m.kitties_count(), 0);
    assert!(m.kitty_db(0).is_none());
    assert!(m.kitty_total(X).is_empty());
    assert!(host.events.is_empty());
}

#[test]
fn create_kitty_refuses_without_reservation() {
    let mut m = Module::new();
    assert_eq!(m.create_kitty(X, [1u8; 16], false), Err(Error::NoEnoughBalance));
    assert_eq!(m.create_kitty(X, [1u8; 16], true), Ok(0));
    assert_eq!(m.kitty_db(0).unwrap().0, [1u8; 16]);
}

#[test]
fn breed_same_parent_refused() {
    let mut m = Module::new();
    let mut host = Host::with_balance(100);
    let k0 = m.create(&mut host, X).unwrap();
    assert_eq!(m.breed(&mut host, X, k0, k0), Err(Error::SameParentNotAllowed));
    let mut poor = Host::with_balance(0);
    assert_eq!(m.breed(&mut poor, Y, k0, k0), Err(Error::SameParentNotAllowed));
    assert_eq!(m.do_breed(Y, 7, 7, false, [0u8; 16]), Err(Error::SameParentNotAllowed));
    assert_eq!(m.kitties_count(), 1);
}

#[test]
fn breed_errors_in_order() {
    let mut m = Module::new();
    m.create_kitty(X, [1u8; 16], true).unwrap();
    m.create_kitty(X, [2u8; 16], true).unwrap();
    m.create_kitty(Y, [3u8; 16], true).unwrap();
    let sel = [0x0Fu8; 16];
    assert_eq!(m.do_breed(X, 0, 1, false, sel), Err(Error::NoEnoughBalance));
    assert_eq!(m.do_breed(X, 0, 9, true, sel), Err(Error::KittyIdInvalid));
    assert_eq!(m.do_breed(X, 9, 0, true, sel), Err(Error::KittyIdInvalid));
    assert_eq!(m.do_breed(X, 0, 2, true, sel), Err(Error::NotKittyOwner));
    assert_eq!(m.do_breed(Y, 0, 1, true, sel), Err(Error::NotKittyOwner));
    assert_eq!(m.kitties_count(), 3);
    let mut poor = Host::with_balance(0);
    assert_eq!(m.breed(&mut poor, X, 0, 1), Err(Error::NoEnoughBalance));
    assert_eq!(m.kitties_count(), 3);
}

#[test]
fn breed_argument_order_decides_dna() {
    let mut m = Module::new();
    m.create_kitty(X, [0xF0u8; 16], true).unwrap();
    m.create_kitty(X, [0x3Cu8; 16], true).unwrap();
    let sel = [0xAAu8; 16];
    let c1 = m.do_breed(X, 0, 1, true, sel).unwrap();
    let c2 = m.do_breed(X, 1, 0, true, sel).unwrap();
    assert_eq!(m.kitty_db(c1).unwrap().0, [(0xAA & 0xF0) | (!0xAAu8 & 0x3C); 16]);
    assert_eq!(m.kitty_db(c1).unwrap().0, [0xB4u8; 16]);
    assert_eq!(m.kitty_db(c2).unwrap().0, [0x78u8; 16]);
    assert_eq!(m.kitty_children(0, 1), vec![c1]);
    assert_eq!(m.kitty_children(1, 0), vec![c2]);
}

#[test]
fn breed_records_genealogy() {
    let mut m = Module::new();
    m.create_kitty(X, [1u8; 16], true).unwrap();
    m.create_kitty(X, [2u8; 16], true).unwrap();
    let c1 = m.do_breed(X, 0, 1, true, [9u8; 16]).unwrap();
    assert_eq!(m.kitty_parents(c1), Some((0, 1)));
    assert_eq!(m.kitty_children(0, 1), vec![c1]);
    assert!(m.kitty_siblings(c1).is_empty());
    let c2 = m.do_breed(X, 0, 1, true, [9u8; 16]).unwrap();
    assert_eq!(m.kitty_children(0, 1), vec![c1, c2]);
    assert_eq!(m.kitty_siblings(c2), vec![c1]);
    assert!(m.kitty_siblings(c1).is_empty());
    assert_eq!(m.kitty_total(X), vec![0, 1, c1, c2]);
}

#[test]
fn breed_spouses_both_ways_without_duplicates() {
    let mut m = Module::new();
    m.create_kitty(X, [1u8; 16], true).unwrap();
    m.create_kitty(X, [2u8; 16], true).unwrap();
    m.create_kitty(X, [3u8; 16], true).unwrap();
    m.do_breed(X, 0, 1, true, [0u8; 16]).unwrap();
    m.do_breed(X, 0, 1, true, [0u8; 16]).unwrap();
    m.do_breed(X, 1, 0, true, [0u8; 16]).unwrap();
    m.do_breed(X, 0, 2, true, [0u8; 16]).unwrap();
    assert_eq!(m.kitty_spouse(0), vec![1, 2]);
    assert_eq!(m.kitty_spouse(1), vec![0]);
    assert_eq!(m.kitty_spouse(2), vec![0]);
    assert!(m.kitty_spouse(3).is_empty());
}

#[test]
fn transfer_moves_ownership() {
    let mut m = Module::new();
    let mut host = Host::with_balance(100);
    let k0 = m.create(&mut host, X).unwrap();
    let k1 = m.create(&mut host, X).unwrap();
    let k2 = m.create(&mut host, X).unwrap();
    assert_eq!(m.transfer(&mut host, X, Y, k1), Ok(()));
    assert_eq!(m.kitties_owner(k1), Some(Y));
    assert_eq!(m.kitty_total(X), vec![k0, k2]);
    assert_eq!(m.kitty_total(Y), vec![k1]);
    assert_eq!(host.events.last(), Some(&Event::Transferred(X, Y, k1)));
}

#[test]
fn transfer_errors() {
    let mut m = Module::new();
    let mut host = Host::with_balance(100);
    let k0 = m.create(&mut host, X).unwrap();
    assert_eq!(m.transfer(&mut host, X, X, k0), Err(Error::TransferToSelf));
    assert_eq!(m.transfer(&mut host, X, Y, 42), Err(Error::KittyNotExists));
    assert_eq!(m.transfer(&mut host, Y, X, k0), Err(Error::NotKittyOwner));
    assert_eq!(m.transfer_kitty(Y, Y, 42), Err(Error::TransferToSelf));
    assert_eq!(m.kitties_owner(k0), Some(X));
    assert_eq!(m.kitty_total(X), vec![k0]);
    assert!(m.kitty_total(Y).is_empty());
}

#[test]
fn create_breed_transfer_scenario() {
    let mut m = Module::new();
    let mut host = Host::with_balance(100);
    let k0 = m.create(&mut host, X).unwrap();
    assert_eq!(host.balance, 90);
    let k1 = m.create(&mut host, X).unwrap();
    let k2 = m.breed(&mut host, X, k0, k1).unwrap();
    let sel = Module::random_value(&host.seed, X, host.index);
    let d0 = m.kitty_db(k0).unwrap().0;
    let d1 = m.kitty_db(k1).unwrap().0;
    let d2 = m.kitty_db(k2).unwrap().0;
    for i in 0..16 {
        assert_eq!(d2[i], (sel[i] & d0[i]) | (!sel[i] & d1[i]));
    }
    assert_eq!(m.kitty_parents(k2), Some((k0, k1)));
    assert_eq!(host.events.last(), Some(&Event::Breed(X, k0, k1, k2)));
    assert_eq!(m.breed(&mut host, X, k0, k0), Err(Error::SameParentNotAllowed));
    assert_eq!(m.transfer(&mut host, X, Y, k2), Ok(()));
    assert_eq!(m.kitties_owner(k2), Some(Y));
    assert_eq!(host.balance, 70);
}
