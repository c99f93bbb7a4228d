use domain_service::priceoracle::{
    Error, Priceoracle, INITIAL_PRICE_PER_LETTER, INITIAL_PRICE_PER_YEAR, SECONDS_PER_YEAR,
};

const ALICE: [u8; 20] = [0x1; 20];
const BOB: [u8; 20] = [0x2; 20];

#[test]
fn test_initial_state() {
    let contract = Priceoracle::new(ALICE);

    assert_eq!(contract.read_owner(), ALICE);

    assert_eq!(
        contract.get_price_per_letter(),
        1u128.saturating_mul(10u128.pow(18))
    );
    assert_eq!(
        contract.get_price_per_year(),
        20u128.saturating_mul(10u128.pow(18))
    );

    assert_eq!(contract.get_premium_names().len(), 0);
}

#[test]
fn test_owner_only_restriction() {
    let mut contract = Priceoracle::new(ALICE);

    assert_eq!(
        contract.set_price_per_letter(ALICE, 2u128.saturating_mul(10u128.pow(18))),
        Ok(())
    );
    assert_eq!(
        contract.get_price_per_letter(),
        2u128.saturating_mul(10u128.pow(18))
    );
}

#[test]
fn test_add_remove_premium_name() {
    let mut contract = Priceoracle::new(ALICE);

    assert_eq!(
        contract.add_premium_name(ALICE, "premium_name".to_string()),
        Ok(())
    );

    let premium_names = contract.get_premium_names();
    assert_eq!(premium_names.len(), 1);
    assert_eq!(premium_names[0], "premium_name");

    let result = contract
        .remove_premium_name(ALICE, "premium_name".to_string())
        .unwrap();
    assert!(result);

    let premium_names = contract.get_premium_names();
    assert_eq!(premium_names.len(), 0);
}

#[test]
fn test_calculate_price_without_premium() {
    let contract = Priceoracle::new(ALICE);

    let name = "test".to_string();
    let duration = 365 * 24 * 60 * 60;

    let calculated_price = contract.calculate_price(name, duration);
    let expected_price = (4u128 * contract.get_price_per_letter()) + contract.get_price_per_year();
    assert_eq!(calculated_price, Some(expected_price));
}

#[test]
fn test_calculate_price_with_premium() {
    let mut contract = Priceoracle::new(ALICE);

    assert_eq!(contract.add_premium_name(ALICE, "premium".to_string()), Ok(()));

    let name = "premium".to_string();
    let duration = 365 * 24 * 60 * 60;

    let calculated_price = contract.calculate_price(name, duration);

    let expected_price = (7u128 * contract.get_price_per_letter()) + contract.get_price_per_year();

    let expected_price_with_premium = expected_price * 10;

    assert_eq!(calculated_price, Some(expected_price_with_premium));
}

#[test]
fn test_remove_non_existing_premium_name() {
    let mut contract = Priceoracle::new(ALICE);

    let result = contract
        .remove_premium_name(ALICE, "non_existing_name".to_string())
        .unwrap();

    assert_eq!(result, false);
}

#[test]
fn initial_prices_are_as_published() {
    assert_eq!(INITIAL_PRICE_PER_LETTER, 1_000_000_000_000_000_000);
    assert_eq!(INITIAL_PRICE_PER_YEAR, 20_000_000_000_000_000_000);
    assert_eq!(SECONDS_PER_YEAR, 31_536_000);
}

#[test]
fn price_of_four_letters_for_a_year() {
    let contract = Priceoracle::new(ALICE);
    assert_eq!(
        contract.calculate_price("test".to_string(), 31_536_000),
        Some(24_000_000_000_000_000_000)
    );
    assert_eq!(
        Priceoracle::fee_of(
            4,
            31_536_000,
            1_000_000_000_000_000_000,
            20_000_000_000_000_000_000,
            false
        ),
        Some(24 * 10u128.pow(18))
    );
    assert_eq!(
        Priceoracle::fee_of(
            4,
            31_536_000,
            1_000_000_000_000_000_000,
            20_000_000_000_000_000_000,
            true
        ),
        Some(240 * 10u128.pow(18))
    );
}

#[test]
fn price_divides_after_it_multiplies() {
    // One second at 20e18 a year: 20e18 / 31_536_000, rounded down.
    assert_eq!(
        Priceoracle::fee_of(0, 1, 0, 20_000_000_000_000_000_000, false),
        Some(634_195_839_675)
    );
    // Half a year and one letter.
    assert_eq!(Priceoracle::fee_of(1, 15_768_000, 3, 10, false), Some(8));
    // The product is divided, not the price per year: 7 * 31_535_999 / 31_536_000 = 6.
    assert_eq!(Priceoracle::fee_of(0, 31_535_999, 0, 7, false), Some(6));
    assert_eq!(Priceoracle::fee_of(0, 31_536_000, 0, 7, false), Some(7));
}

#[test]
fn price_counts_the_bytes_of_the_name() {
    let contract = Priceoracle::new(ALICE);
    // Two letters of two bytes each, and four plain ones.
    assert_eq!(
        contract.calculate_price("éé.vne".to_string(), 31_536_000),
        Some(28_000_000_000_000_000_000)
    );
    // The empty name costs its years alone.
    assert_eq!(
        contract.calculate_price("".to_string(), 2 * 31_536_000),
        Some(40_000_000_000_000_000_000)
    );
}

#[test]
fn price_that_does_not_fit_cannot_be_had() {
    assert_eq!(Priceoracle::fee_of(2, 1, u128::MAX, 0, false), None);
    assert_eq!(Priceoracle::fee_of(1, 1, u128::MAX, 0, false), Some(u128::MAX));
    assert_eq!(Priceoracle::fee_of(0, 2, 0, u128::MAX, false), None);
    assert_eq!(
        Priceoracle::fee_of(0, 1, 0, u128::MAX, false),
        Some(u128::MAX / 31_536_000)
    );
    assert_eq!(
        Priceoracle::fee_of(1, 31_536_000, u128::MAX, 1, false),
        None
    );
    assert_eq!(Priceoracle::fee_of(1, 1, u128::MAX / 10, 0, true), Some(u128::MAX / 10 * 10));
    assert_eq!(Priceoracle::fee_of(1, 1, u128::MAX / 10 + 1, 0, true), None);
    assert_eq!(
        Priceoracle::fee_of(1, 1, u128::MAX / 10 + 1, 0, false),
        Some(u128::MAX / 10 + 1)
    );

    let mut contract = Priceoracle::new(ALICE);
    assert_eq!(contract.set_price_per_letter(ALICE, u128::MAX), Ok(()));
    assert_eq!(contract.calculate_price("ab".to_string(), 1), None);
}

#[test]
fn only_the_owner_changes_the_oracle() {
    let mut contract = Priceoracle::new(ALICE);
    assert_eq!(
        contract.set_price_per_letter(BOB, 1),
        Err(Error::PermissionDenied)
    );
    assert_eq!(
        contract.set_price_per_year(BOB, 1),
        Err(Error::PermissionDenied)
    );
    assert_eq!(
        contract.add_premium_name(BOB, "gold".to_string()),
        Err(Error::PermissionDenied)
    );
    assert_eq!(
        contract.remove_premium_name(BOB, "gold".to_string()),
        Err(Error::PermissionDenied)
    );
    assert_eq!(contract.get_price_per_letter(), INITIAL_PRICE_PER_LETTER);
    assert_eq!(contract.get_price_per_year(), INITIAL_PRICE_PER_YEAR);
    assert_eq!(contract.get_premium_names().len(), 0);
    assert_eq!(contract.set_price_per_year(ALICE, 5), Ok(()));
    assert_eq!(contract.get_price_per_year(), 5);
}

#[test]
fn removing_moves_the_last_name_into_the_gap() {
    let mut contract = Priceoracle::new(ALICE);
    for name in ["a", "b", "c", "b", "d"] {
        assert_eq!(contract.add_premium_name(ALICE, name.to_string()), Ok(()));
    }
    assert_eq!(contract.remove_premium_name(ALICE, "b".to_string()), Ok(true));
    assert_eq!(contract.get_premium_names(), vec!["a", "d", "c", "b"]);
    assert_eq!(contract.remove_premium_name(ALICE, "b".to_string()), Ok(true));
    assert_eq!(contract.get_premium_names(), vec!["a", "d", "c"]);
    assert_eq!(contract.remove_premium_name(ALICE, "b".to_string()), Ok(false));
    assert_eq!(contract.remove_premium_name(ALICE, "c".to_string()), Ok(true));
    assert_eq!(contract.get_premium_names(), vec!["a", "d"]);
}
