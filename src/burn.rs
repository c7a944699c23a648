use vstd::prelude::*;

verus! {

/// Why a claimed burn was refused.
#[derive(Debug, Clone, Copy, PartialEq, Eq, Structural)]
pub enum BurnError {
    /// The claimed amount is zero.
    InvalidAmount,
    /// More tokens leave the transaction than enter it.
    InconsistentTotals { input_total: u128, output_total: u128 },
    /// The tokens removed from circulation differ from the claimed amount.
    AmountMismatch { input_total: u128, output_total: u128, amount: u128 },
}

/// The outcome of checking a claimed burn of `amount` against the token
/// totals on the two sides of a transaction.
pub open spec fn burn_outcome(amount: u128, input_total: u128, output_total: u128) -> Result<(), BurnError> {
    if amount == 0 {
        Err(BurnError::InvalidAmount)
    } else if input_total < output_total {
        Err(BurnError::InconsistentTotals { input_total, output_total })
    } else if input_total - output_total != amount {
        Err(BurnError::AmountMismatch { input_total, output_total, amount })
    } else {
        Ok(())
    }
}

/// Checks that exactly `amount` tokens were destroyed by a transaction whose
/// inputs hold `input_total` tokens and whose outputs hold `output_total`.
pub fn verify_burn(amount: u128, input_total: u128, output_total: u128) -> (r: Result<(), BurnError>)
    ensures
        r == burn_outcome(amount, input_total, output_total),
        amount == 0 ==> r == Err::<(), BurnError>(BurnError::InvalidAmount),
        amount > 0 && input_total >= output_total && input_total - output_total == amount ==> r is Ok,
        amount > 0 && output_total > input_total ==> r == Err::<(), BurnError>(
            BurnError::InconsistentTotals { input_total, output_total },
        ),
        amount > 0 && input_total >= output_total && input_total - output_total != amount ==> r
            == Err::<(), BurnError>(BurnError::AmountMismatch { input_total, output_total, amount }),
{
    if amount == 0 {
        return Err(BurnError::InvalidAmount);
    }
    if input_total < output_total {
        return Err(BurnError::InconsistentTotals { input_total, output_total });
    }
    match input_total.checked_sub(output_total) {
        Some(burned) => {
            if burned != amount {
                Err(BurnError::AmountMismatch { input_total, output_total, amount })
            } else {
                Ok(())
            }
        },
        None => Err(BurnError::InconsistentTotals { input_total, output_total }),
    }
}

/// A side of a transaction: the cells it consumes or the cells it creates.
#[derive(Debug, Clone, Copy, PartialEq, Eq, Structural)]
pub enum Source {
    Input,
    Output,
}

/// Access to the token cells of the transaction being checked.
pub trait Adapter {
    /// Total amount of fungible tokens on `source`, restricted to the tokens
    /// whose type script has hash `type_hash` when one is given.
    spec fn sudt_amount(&self, source: Source, type_hash: Option<[u8; 32]>) -> u128;

    /// Reads the total that `sudt_amount` describes.
    fn get_sudt_amount_from_source(&self, source: Source, type_hash: Option<[u8; 32]>) -> (r: u128)
        ensures
            r == self.sudt_amount(source, type_hash),
    ;
}

/// What the check reads of the recipient cell's data: the claimed burn.
#[derive(Debug, Clone, Copy, PartialEq, Eq, Structural)]
pub struct RecipientDataView {
    pub amount: u128,
}

/// Checks the burn claimed in `data` against the token totals that
/// `data_loader` reports for the inputs and the outputs of the transaction.
/// The totals are only read for a non-zero claim.
pub fn verify_burn_token<T: Adapter>(data_loader: T, data: RecipientDataView) -> (r: Result<
    (),
    BurnError,
>)
    ensures
        r == burn_outcome(
            data.amount,
            data_loader.sudt_amount(Source::Input, None),
            data_loader.sudt_amount(Source::Output, None),
        ),
        data.amount == 0 ==> r == Err::<(), BurnError>(BurnError::InvalidAmount),
        data.amount > 0 && data_loader.sudt_amount(Source::Input, None) >= data_loader.sudt_amount(
            Source::Output,
            None,
        ) && data_loader.sudt_amount(Source::Input, None) - data_loader.sudt_amount(
            Source::Output,
            None,
        ) == data.amount ==> r is Ok,
        data.amount > 0 && data_loader.sudt_amount(Source::Output, None) > data_loader.sudt_amount(
            Source::Input,
            None,
        ) ==> r matches Err(BurnError::InconsistentTotals { .. }),
        data.amount > 0 && data_loader.sudt_amount(Source::Input, None) >= data_loader.sudt_amount(
            Source::Output,
            None,
        ) && data_loader.sudt_amount(Source::Input, None) - data_loader.sudt_amount(
            Source::Output,
            None,
        ) != data.amount ==> r matches Err(BurnError::AmountMismatch { .. }),
{
    if data.amount == 0 {
        return Err(BurnError::InvalidAmount);
    }
    let input_total = data_loader.get_sudt_amount_from_source(Source::Input, None);
    let output_total = data_loader.get_sudt_amount_from_source(Source::Output, None);
    verify_burn(data.amount, input_total, output_total)
}

} // verus!
