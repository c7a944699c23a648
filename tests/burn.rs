use recipient_typescript_lib::burn::{
    verify_burn, verify_burn_token, Adapter, BurnError, RecipientDataView, Source,
};

struct Totals {
    input: u128,
    output: u128,
}

impl Adapter for Totals {
    fn sudt_amount(&self, source: Source, _type_hash: Option<[u8; 32]>) -> u128 {
        match source {
            Source::Input => self.input,
            Source::Output => self.output,
        }
    }

    fn get_sudt_amount_from_source(&self, source: Source, type_hash: Option<[u8; 32]>) -> u128 {
        self.sudt_amount(source, type_hash)
    }
}

#[test]
fn burn_matching_amount_succeeds() {
    assert_eq!(verify_burn(100, 500, 400), Ok(()));
}

#[test]
fn burn_zero_amount_is_invalid() {
    assert_eq!(verify_burn(0, 500, 400), Err(BurnError::InvalidAmount));
}

#[test]
fn burn_zero_amount_is_invalid_whatever_the_totals() {
    assert_eq!(verify_burn(0, 0, 0), Err(BurnError::InvalidAmount));
    assert_eq!(verify_burn(0, 400, 500), Err(BurnError::InvalidAmount));
    assert_eq!(verify_burn(0, u128::MAX, 0), Err(BurnError::InvalidAmount));
}

#[test]
fn burn_more_output_than_input_is_inconsistent() {
    assert_eq!(
        verify_burn(100, 400, 500),
        Err(BurnError::InconsistentTotals { input_total: 400, output_total: 500 })
    );
}

#[test]
fn burn_wrong_amount_is_a_mismatch() {
    assert_eq!(
        verify_burn(150, 500, 400),
        Err(BurnError::AmountMismatch { input_total: 500, output_total: 400, amount: 150 })
    );
}

#[test]
fn burn_nothing_destroyed_is_a_mismatch() {
    assert_eq!(
        verify_burn(1, 400, 400),
        Err(BurnError::AmountMismatch { input_total: 400, output_total: 400, amount: 1 })
    );
}

#[test]
fn burn_largest_totals() {
    assert_eq!(verify_burn(u128::MAX, u128::MAX, 0), Ok(()));
    assert_eq!(verify_burn(1, u128::MAX, u128::MAX - 1), Ok(()));
    assert_eq!(
        verify_burn(1, u128::MAX - 1, u128::MAX),
        Err(BurnError::InconsistentTotals { input_total: u128::MAX - 1, output_total: u128::MAX })
    );
}

#[test]
fn burn_token_reads_the_adapter() {
    let loader = Totals { input: 500, output: 400 };
    assert_eq!(verify_burn_token(loader, RecipientDataView { amount: 100 }), Ok(()));
    let loader = Totals { input: 500, output: 400 };
    assert_eq!(
        verify_burn_token(loader, RecipientDataView { amount: 150 }),
        Err(BurnError::AmountMismatch { input_total: 500, output_total: 400, amount: 150 })
    );
    let loader = Totals { input: 400, output: 500 };
    assert_eq!(
        verify_burn_token(loader, RecipientDataView { amount: 100 }),
        Err(BurnError::InconsistentTotals { input_total: 400, output_total: 500 })
    );
}

#[test]
fn burn_token_zero_amount_is_invalid() {
    let loader = Totals { input: 500, output: 400 };
    assert_eq!(
        verify_burn_token(loader, RecipientDataView { amount: 0 }),
        Err(BurnError::InvalidAmount)
    );
}
