use kitties::dna::{combine, combine_dna, complement, random_value, Kitty, KittyGender};
use kitties::randomness::{MockRandom, Randomness};
use kitties::registry::{last_event, Error, Event, KittiesModule};

const CODE_A: [u8; 16] = [59, 250, 138, 82, 209, 39, 141, 109, 163, 238, 183, 145, 235, 168, 18, 122];
const CODE_B: [u8; 16] = [196, 5, 117, 173, 46, 216, 114, 146, 92, 17, 72, 110, 20, 87, 237, 133];
const MASK: [u8; 16] = [127, 255, 158, 219, 253, 47, 159, 111, 231, 254, 247, 215, 251, 252, 62, 255];
const CHILD: [u8; 16] = [187, 250, 235, 118, 211, 247, 237, 253, 187, 239, 191, 185, 239, 171, 211, 122];

fn new_test_ext() -> KittiesModule {
    let mut m = KittiesModule::new();
    m.set_balance(200, 500);
    m
}

#[test]
fn can_create() {
    let mut m = new_test_ext();
    let rng = MockRandom::new([0; 32]);
    assert_eq!(m.create(100, &rng), 0);

    let kitty = Kitty([59, 250, 138, 82, 209, 39, 141, 109, 163, 238, 183, 145, 235, 168, 18, 122]);

    assert_eq!(m.kitties(100, 0), Some(kitty));
    assert_eq!(m.owner_of(0), Some(100));

    assert_eq!(last_event(&m), Event::KittyCreated(100, 0, kitty));
}

#[test]
fn random_value_hashes_draw_account_and_index() {
    assert_eq!(random_value(&[0; 32], 100, Some(0)), CODE_A);
    assert_ne!(random_value(&[0; 32], 100, None), CODE_A);
    assert_ne!(random_value(&[0; 32], 101, Some(0)), CODE_A);
    assert_ne!(random_value(&[0; 32], 100, Some(1)), CODE_A);
}

#[test]
fn complement_flips_every_bit() {
    assert_eq!(complement(&[0; 16]), [255; 16]);
    let mut x = CODE_A;
    x = complement(&complement(&x));
    assert_eq!(x, CODE_A);
    assert_eq!(complement(&CODE_A)[0], 196);
}

#[test]
fn extrinsic_index_changes_derived_code() {
    let mut m = new_test_ext();
    assert_eq!(m.extrinsic_index(), Some(0));
    m.set_extrinsic_index(Some(3));
    let rng = MockRandom::new([0; 32]);
    m.create(100, &rng);
    assert_eq!(m.kitties(100, 0), Some(Kitty(random_value(&[0; 32], 100, Some(3)))));
    assert_ne!(m.kitties(100, 0), Some(Kitty(CODE_A)));
}

#[test]
fn gender() {
    assert_eq!(Kitty([0; 16]).gender(), KittyGender::Male);
    assert_eq!(Kitty([1, 0, 0, 0, 0, 0, 0, 0, 0, 0, 0, 0, 0, 0, 0, 0]).gender(), KittyGender::Female);
}

#[test]
fn gender_reads_only_lowest_bit_of_first_byte() {
    assert_eq!(Kitty([254; 16]).gender(), KittyGender::Male);
    assert_eq!(Kitty([255, 0, 0, 0, 0, 0, 0, 0, 0, 0, 0, 0, 0, 0, 0, 0]).gender(), KittyGender::Female);
    assert_eq!(Kitty(CODE_A).gender(), KittyGender::Female);
    assert_eq!(Kitty(CODE_B).gender(), KittyGender::Male);
}

#[test]
fn can_breed() {
    let mut m = new_test_ext();
    let mut rng = MockRandom::new([0; 32]);
    assert_eq!(m.create(100, &rng), 0);

    rng.set_random([2; 32]);

    assert_eq!(m.create(100, &rng), 1);

    assert_eq!(m.breed(100, 0, 11, &rng), Err(Error::InvalidKittyId));
    assert_eq!(m.breed(100, 0, 0, &rng), Err(Error::SameGender));
    assert_eq!(m.breed(101, 0, 1, &rng), Err(Error::InvalidKittyId));
    assert_eq!(m.kitties_count(), 2);

    assert_eq!(m.breed(100, 0, 1, &rng), Ok(2));

    let kitty = Kitty([187, 250, 235, 118, 211, 247, 237, 253, 187, 239, 191, 185, 239, 171, 211, 122]);

    assert_eq!(m.kitties(100, 2), Some(kitty));
    assert_eq!(m.owner_of(2), Some(100));

    assert_eq!(last_event(&m), Event::KittyBred(100, 2, kitty));
}

#[test]
fn breed_same_gender_distinct_kitties() {
    let mut m = new_test_ext();
    let rng = MockRandom::new([0; 32]);
    m.create_with_dna(100, CODE_A);
    m.create_with_dna(100, CODE_A);
    assert_eq!(m.breed(100, 0, 1, &rng), Err(Error::SameGender));
    assert_eq!(m.kitties_count(), 2);
}

#[test]
fn combine_is_bit_exact() {
    let child = combine(&Kitty(CODE_A), &Kitty(CODE_B), &MASK);
    assert_eq!(child, Kitty(CHILD));
    assert_eq!(combine_dna(0b1100_1010, 0b0011_0101, 0b1111_0000), 0b1100_0101);
    assert_eq!(combine_dna(59, 197, 0xF0), 53);
    assert_eq!(combine_dna(7, 9, 0), 9);
    assert_eq!(combine_dna(7, 9, 0xFF), 7);
}

#[test]
fn mock_random_ignores_subject() {
    let mut rng = MockRandom::new([3; 32]);
    assert_eq!(rng.random(&[1, 2, 3]), [3; 32]);
    rng.set_random([2; 32]);
    assert_eq!(rng.random(&[]), [2; 32]);
}

#[test]
fn can_transfer() {
    let mut m = new_test_ext();
    let rng = MockRandom::new([0; 32]);
    m.create(100, &rng);

    assert_eq!(m.transfer(101, 200, 0), Err(Error::NoPermission));

    assert_eq!(m.transfer(100, 200, 0), Ok(()));
    assert_eq!(m.owner_of(0), Some(200));
    assert_eq!(last_event(&m), Event::KittyTransferred(100, 200, 0));
}

#[test]
fn transfer_clears_price() {
    let mut m = new_test_ext();
    let rng = MockRandom::new([0; 32]);
    m.create(100, &rng);
    assert_eq!(m.set_price(100, 0, Some(30)), Ok(()));
    assert_eq!(m.transfer(100, 200, 0), Ok(()));
    assert_eq!(m.kitty_prices(0), None);
    assert_eq!(m.kitties(200, 0), Some(Kitty(CODE_A)));
    assert_eq!(m.kitties(100, 0), None);
}

#[test]
fn handle_self_transfer() {
    let mut m = new_test_ext();
    let rng = MockRandom::new([0; 32]);
    m.create(100, &rng);

    m.reset_events();

    assert_eq!(m.transfer(100, 100, 1), Err(Error::NoPermission));

    assert_eq!(m.transfer(100, 100, 0), Ok(()));
    assert_eq!(m.owner_of(0), Some(100));

    assert_eq!(m.events().len(), 0);
}

#[test]
fn self_transfer_keeps_price() {
    let mut m = new_test_ext();
    let rng = MockRandom::new([0; 32]);
    m.create(100, &rng);
    m.set_price(100, 0, Some(7)).unwrap();
    m.reset_events();
    assert_eq!(m.transfer(100, 100, 0), Ok(()));
    assert_eq!(m.kitty_prices(0), Some(7));
    assert_eq!(m.events().len(), 0);
}

#[test]
fn can_set_price() {
    let mut m = new_test_ext();
    let rng = MockRandom::new([0; 32]);
    m.create(100, &rng);

    assert_eq!(m.set_price(101, 0, Some(10)), Err(Error::NotOwner));
    assert_eq!(m.set_price(100, 5, Some(10)), Err(Error::NotOwner));
    assert_eq!(m.kitty_prices(0), None);

    assert_eq!(m.set_price(100, 0, Some(10)), Ok(()));
    assert_eq!(m.kitty_prices(0), Some(10));
    assert_eq!(last_event(&m), Event::KittyPriceUpdated(100, 0, Some(10)));

    assert_eq!(m.set_price(100, 0, Some(0)), Ok(()));
    assert_eq!(m.kitty_prices(0), Some(0));

    assert_eq!(m.set_price(100, 0, None), Ok(()));
    assert_eq!(m.kitty_prices(0), None);
    assert_eq!(last_event(&m), Event::KittyPriceUpdated(100, 0, None));
}

#[test]
fn can_buy() {
    let mut m = new_test_ext();
    let rng = MockRandom::new([0; 32]);
    m.create(100, &rng);
    assert_eq!(m.set_price(100, 0, Some(100)), Ok(()));

    assert_eq!(m.buy(100, 100, 0, 100), Err(Error::BuyFromSelf));

    m.create(100, &rng);
    assert_eq!(m.buy(200, 100, 1, 100), Err(Error::NotForSale));

    assert_eq!(m.buy(200, 100, 0, 50), Err(Error::PriceTooLow));

    assert_eq!(m.buy(200, 100, 0, 100), Ok(()));
    assert_eq!(last_event(&m), Event::KittySold(100, 200, 0, 100));
    assert_eq!(m.kitty_prices(0), None);
    assert_eq!(m.owner_of(0), Some(200));
    assert_eq!(m.free_balance(200), 400);
    assert_eq!(m.free_balance(100), 100);
}

#[test]
fn buy_without_funds_changes_nothing() {
    let mut m = new_test_ext();
    let rng = MockRandom::new([0; 32]);
    m.create(100, &rng);
    m.set_price(100, 0, Some(600)).unwrap();
    assert_eq!(m.buy(200, 100, 0, 1000), Err(Error::InsufficientBalance));
    assert_eq!(m.owner_of(0), Some(100));
    assert_eq!(m.kitty_prices(0), Some(600));
    assert_eq!(m.free_balance(200), 500);
}

#[test]
fn buy_overflow_and_wrong_owner() {
    let mut m = new_test_ext();
    let rng = MockRandom::new([0; 32]);
    m.create(100, &rng);
    m.set_price(100, 0, Some(10)).unwrap();
    m.set_balance(100, u64::MAX - 5);
    assert_eq!(m.buy(200, 100, 0, 10), Err(Error::BalanceOverflow));
    assert_eq!(m.buy(200, 300, 0, 10), Err(Error::NoPermission));
    assert_eq!(m.buy(200, 300, 9, 10), Err(Error::NotForSale));
}

#[test]
fn buy_at_zero_price() {
    let mut m = new_test_ext();
    let rng = MockRandom::new([0; 32]);
    m.create(100, &rng);
    m.set_price(100, 0, Some(0)).unwrap();
    assert_eq!(m.buy(300, 100, 0, 0), Ok(()));
    assert_eq!(m.owner_of(0), Some(300));
    assert_eq!(m.kitty_prices(0), None);
    assert_eq!(m.free_balance(300), 0);
}

#[test]
fn owned_count_counts_per_owner() {
    let mut m = new_test_ext();
    let rng = MockRandom::new([0; 32]);
    m.create(100, &rng);
    m.create(100, &rng);
    m.create(7, &rng);
    assert_eq!(m.owned_count(100), 2);
    assert_eq!(m.owned_count(7), 1);
    assert_eq!(m.owned_count(8), 0);
    m.transfer(100, 7, 1).unwrap();
    assert_eq!(m.owned_count(7), 2);
}

#[test]
fn create_with_dna_and_breed_with_mask() {
    let mut m = new_test_ext();
    assert_eq!(m.create_with_dna(5, CODE_A), 0);
    assert_eq!(m.create_with_dna(5, CODE_B), 1);
    assert_eq!(m.check_breed(5, 0, 1), None);
    assert_eq!(m.check_breed(6, 0, 1), Some(Error::InvalidKittyId));
    assert_eq!(m.breed_with_mask(5, 1, 0, MASK), Ok(2));
    let expected = combine(&Kitty(CODE_B), &Kitty(CODE_A), &MASK);
    assert_eq!(m.kitties(5, 2), Some(expected));
    assert_eq!(m.breed_with_mask(5, 0, 1, MASK), Ok(3));
    assert_eq!(m.kitties(5, 3), Some(Kitty(CHILD)));
    assert_eq!(m.check_buy(6, 5, 0, 10), Some(Error::NotForSale));
}
