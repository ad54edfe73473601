//! Tax buckets: how a distribution to a holder divides into return of capital
//! and capital gains, and what is accumulated per fiscal year.
use vstd::prelude::*;
use crate::calendar::{day_of, fiscal_year, fiscal_year_from_ts, month_start, MAX_TIMESTAMP};
use crate::events::{event_about, EventData, EventView, TaxEvent};
use crate::keys::{Address, OfferingId, OfferingView};
use crate::ledger::{LedgerState, TaxLedger, TaxYearSummary};

verus! {

/// The two buckets of one distribution.
#[derive(Clone, Copy, Debug, PartialEq, Eq, Structural)]
pub struct TaxBucketResult {
    pub return_of_capital: i128,
    pub capital_gains: i128,
}

// ---------------------------------------------------------------------------
// Model
// ---------------------------------------------------------------------------

/// The integer in the range of `i128` that is nearest to `x`.
pub open spec fn saturated(x: int) -> i128 {
    if x > i128::MAX {
        i128::MAX
    } else if x < i128::MIN {
        i128::MIN
    } else {
        x as i128
    }
}

/// What a distribution returns of the holder's capital: all of it as far as
/// the remaining basis covers it, and nothing where no basis is left.
pub open spec fn returned_capital(basis: i128, amount: i128) -> i128 {
    if basis <= 0 {
        0
    } else if amount <= basis {
        amount
    } else {
        basis
    }
}

/// The buckets of a distribution: what is no return of capital is a gain.
pub open spec fn buckets(basis: i128, amount: i128) -> TaxBucketResult {
    TaxBucketResult {
        return_of_capital: returned_capital(basis, amount),
        capital_gains: (amount - returned_capital(basis, amount)) as i128,
    }
}

/// The basis that a distribution leaves. One that is not positive is left
/// alone. A negative amount adds to the basis, which falls to 0 where the sum
/// is out of range.
pub open spec fn basis_after(basis: i128, amount: i128) -> i128 {
    if basis <= 0 {
        basis
    } else if basis - amount > i128::MAX {
        0
    } else {
        (basis - returned_capital(basis, amount)) as i128
    }
}

/// Whether a distribution runs into the cap: part of the amount, or all of it,
/// is no return of capital. Where no basis is left, the cap is 0.
pub open spec fn hits_cap(basis: i128, amount: i128) -> bool {
    returned_capital(basis, amount) < amount
}

/// The record of the amount's split at the cap in the reclassification event.
pub open spec fn reclassify_data(basis: i128, amount: i128) -> EventData {
    EventData::Reclassify {
        capped_amount: buckets(basis, amount).return_of_capital,
        reclassified_amount: buckets(basis, amount).capital_gains,
    }
}

/// The record of a distribution in the lot event.
pub open spec fn lot_data(basis: i128, amount: i128, period_id: u64, timestamp: u64) -> EventData {
    EventData::Lot {
        return_of_capital: buckets(basis, amount).return_of_capital,
        capital_gains: buckets(basis, amount).capital_gains,
        amount,
        period_id,
        timestamp,
    }
}

/// The data of the events of a distribution, in order. Beyond the cap, the
/// excess is announced first, and then that the basis, if any was left, is used
/// up.
pub open spec fn distribution_data(
    basis: i128,
    amount: i128,
    period_id: u64,
    timestamp: u64,
) -> Seq<EventData> {
    let lot = lot_data(basis, amount, period_id, timestamp);
    if !hits_cap(basis, amount) {
        seq![lot]
    } else if basis > 0 {
        seq![
            reclassify_data(basis, amount),
            EventData::Rollover { previous_basis: basis, new_basis: 0 },
            lot,
        ]
    } else {
        seq![reclassify_data(basis, amount), lot]
    }
}

/// The events that announce `data` for a holder of an offering.
pub open spec fn events_about(
    offering: OfferingView,
    holder: Seq<char>,
    data: Seq<EventData>,
) -> Seq<EventView> {
    data.map_values(|d: EventData| event_about(offering, holder, d))
}

/// The ledger after a distribution.
pub open spec fn after_distribution(
    state: LedgerState,
    offering: OfferingView,
    holder: Seq<char>,
    amount: i128,
    period_id: u64,
    timestamp: u64,
) -> LedgerState {
    let basis = state.basis_of(offering, holder);
    let charged = if basis > 0 {
        state.with_basis(offering, holder, basis_after(basis, amount))
    } else {
        state
    };
    charged.with_events(
        events_about(offering, holder, distribution_data(basis, amount, period_id, timestamp)),
    )
}

/// A tax summary with further amounts added to it.
pub open spec fn summary_plus(
    summary: TaxYearSummary,
    ordinary_income: int,
    capital_gains: int,
    return_of_capital: int,
) -> TaxYearSummary {
    TaxYearSummary {
        ordinary_income: saturated(summary.ordinary_income + ordinary_income),
        capital_gains: saturated(summary.capital_gains + capital_gains),
        return_of_capital: saturated(summary.return_of_capital + return_of_capital),
    }
}

/// The ledger after amounts were added to a holder's summary of a fiscal year.
pub open spec fn after_accumulation(
    state: LedgerState,
    offering: OfferingView,
    holder: Seq<char>,
    year: u64,
    ordinary_income: i128,
    capital_gains: i128,
    return_of_capital: i128,
) -> LedgerState {
    state.with_summary(
        offering,
        holder,
        year,
        summary_plus(
            state.summary_of(offering, holder, year),
            ordinary_income as int,
            capital_gains as int,
            return_of_capital as int,
        ),
    )
}

/// The fiscal year of an offering to which a timestamp belongs.
pub open spec fn active_year(state: LedgerState, offering: OfferingView, timestamp: u64) -> u64 {
    fiscal_year(day_of(timestamp), state.start_month_of(offering) as int) as u64
}

/// The ledger after a distribution that counts toward its fiscal year.
pub open spec fn after_rollover(
    state: LedgerState,
    offering: OfferingView,
    holder: Seq<char>,
    amount: i128,
    period_id: u64,
    timestamp: u64,
) -> LedgerState {
    let result = buckets(state.basis_of(offering, holder), amount);
    after_accumulation(
        after_distribution(state, offering, holder, amount, period_id, timestamp),
        offering,
        holder,
        active_year(state, offering, timestamp),
        0,
        result.capital_gains,
        result.return_of_capital,
    )
}

// ---------------------------------------------------------------------------
// Functions
// ---------------------------------------------------------------------------

/// `a + b`, held at the bounds of `i128`.
fn saturating_sum(a: i128, b: i128) -> (sum: i128)
    ensures
        sum == saturated(a + b),
{
    match a.checked_add(b) {
        Some(sum) => sum,
        None => if b > 0 {
            i128::MAX
        } else {
            i128::MIN
        },
    }
}

/// Records the cost basis of a holder, in place of the one recorded before.
pub fn track_cost_basis(
    ledger: &mut TaxLedger,
    offering_id: &OfferingId,
    holder: &Address,
    cost_basis: i128,
)
    ensures
        final(ledger)@ == old(ledger)@.with_basis(offering_id@, holder@, cost_basis),
{
    ledger.set_remaining_basis(offering_id, holder, cost_basis);
}

/// Update the tax-year accumulator for a holder's distribution.
///
/// Called from `rollover_distribution` to increment the per-holder,
/// per-fiscal-year `TaxYearSummary` entry. Sums are held at the bounds of
/// `i128`.
pub fn update_tax_year_accumulator(
    ledger: &mut TaxLedger,
    offering_id: &OfferingId,
    holder: &Address,
    fiscal_year: u64,
    ordinary_income: i128,
    capital_gains: i128,
    return_of_capital: i128,
)
    ensures
        final(ledger)@ == after_accumulation(
            old(ledger)@,
            offering_id@,
            holder@,
            fiscal_year,
            ordinary_income,
            capital_gains,
            return_of_capital,
        ),
{
    let mut summary: TaxYearSummary = match ledger.tax_year(offering_id, holder, fiscal_year) {
        Some(summary) => summary,
        None => TaxYearSummary { ordinary_income: 0, capital_gains: 0, return_of_capital: 0 },
    };
    summary.ordinary_income = saturating_sum(summary.ordinary_income, ordinary_income);
    summary.capital_gains = saturating_sum(summary.capital_gains, capital_gains);
    summary.return_of_capital = saturating_sum(summary.return_of_capital, return_of_capital);
    ledger.set_tax_year(offering_id, holder, fiscal_year, summary);
}

/// Apply return-of-capital with a hard cap at remaining cost basis.
/// Any excess is reclassified as capital gains.
/// Emits `EVENT_TAX_RECLASSIFY` when the cap is hit, also where no basis is left
/// and the cap is 0.
/// Uses checked subtraction to avoid underflow.
pub fn apply_return_of_capital_with_cap(
    ledger: &mut TaxLedger,
    offering_id: &OfferingId,
    holder: &Address,
    amount: i128,
    period_id: u64,
    timestamp: u64,
) -> (result: TaxBucketResult)
    ensures
        result == buckets(old(ledger)@.basis_of(offering_id@, holder@), amount),
        final(ledger)@ == after_distribution(
            old(ledger)@,
            offering_id@,
            holder@,
            amount,
            period_id,
            timestamp,
        ),
        result.return_of_capital + result.capital_gains == amount,
        ({
            let basis = match old(ledger)@.stored_basis(offering_id@, holder@) {
                Some(basis) => basis as int,
                None => 0,
            };
            &&& basis <= 0 ==> result.return_of_capital == 0
            &&& 0 < basis && amount <= basis ==> result.return_of_capital == amount
            &&& 0 < basis && basis < amount ==> result.return_of_capital == basis
        }),
{
    let remaining_basis: i128 = match ledger.remaining_basis(offering_id, holder) {
        Some(basis) => basis,
        None => 0,
    };
    let ghost before = ledger@;
    let ghost data = distribution_data(remaining_basis, amount, period_id, timestamp);

    if remaining_basis <= 0 {
        let result = TaxBucketResult { return_of_capital: 0, capital_gains: amount };
        if amount > 0 {
            ledger.publish(
                TaxEvent::about(
                    offering_id,
                    holder,
                    EventData::Reclassify { capped_amount: 0, reclassified_amount: amount },
                ),
            );
        }
        ledger.publish(
            TaxEvent::about(
                offering_id,
                holder,
                EventData::Lot {
                    return_of_capital: result.return_of_capital,
                    capital_gains: result.capital_gains,
                    amount,
                    period_id,
                    timestamp,
                },
            ),
        );
        assert(ledger@.events =~= before.events + events_about(offering_id@, holder@, data));
        return result;
    }
    let result = if amount <= remaining_basis {
        let new_basis: i128 = match remaining_basis.checked_sub(amount) {
            Some(difference) => difference,
            None => 0,
        };
        ledger.set_remaining_basis(offering_id, holder, new_basis);
        TaxBucketResult { return_of_capital: amount, capital_gains: 0 }
    } else {
        let reclassified: i128 = match amount.checked_sub(remaining_basis) {
            Some(difference) => difference,
            None => 0,
        };
        ledger.set_remaining_basis(offering_id, holder, 0);
        ledger.publish(
            TaxEvent::about(
                offering_id,
                holder,
                EventData::Reclassify {
                    capped_amount: remaining_basis,
                    reclassified_amount: reclassified,
                },
            ),
        );
        ledger.publish(
            TaxEvent::about(
                offering_id,
                holder,
                EventData::Rollover { previous_basis: remaining_basis, new_basis: 0 },
            ),
        );
        TaxBucketResult { return_of_capital: remaining_basis, capital_gains: reclassified }
    };
    ledger.publish(
        TaxEvent::about(
            offering_id,
            holder,
            EventData::Lot {
                return_of_capital: result.return_of_capital,
                capital_gains: result.capital_gains,
                amount,
                period_id,
                timestamp,
            },
        ),
    );
    assert(ledger@.events =~= before.events + events_about(offering_id@, holder@, data));
    result
}

/// Distributes `amount` to a holder and counts it toward the fiscal year in
/// which `timestamp` falls: `apply_return_of_capital_with_cap`, then
/// `update_tax_year_accumulator` with the buckets that came out.
pub fn rollover_distribution(
    ledger: &mut TaxLedger,
    offering_id: &OfferingId,
    holder: &Address,
    amount: i128,
    period_id: u64,
    timestamp: u64,
) -> (result: TaxBucketResult)
    requires
        timestamp <= MAX_TIMESTAMP,
    ensures
        result == buckets(old(ledger)@.basis_of(offering_id@, holder@), amount),
        final(ledger)@ == after_rollover(
            old(ledger)@,
            offering_id@,
            holder@,
            amount,
            period_id,
            timestamp,
        ),
        result.return_of_capital + result.capital_gains == amount,
        ({
            let basis = match old(ledger)@.stored_basis(offering_id@, holder@) {
                Some(basis) => basis as int,
                None => 0,
            };
            &&& basis <= 0 ==> result.return_of_capital == 0
            &&& 0 < basis && amount <= basis ==> result.return_of_capital == amount
            &&& 0 < basis && basis < amount ==> result.return_of_capital == basis
        }),
        ({
            let year = active_year(old(ledger)@, offering_id@, timestamp) as int;
            let start_month = final(ledger)@.start_month_of(offering_id@) as int;
            1 <= start_month <= 12 ==> month_start(year, start_month) <= day_of(timestamp)
                < month_start(year + 1, start_month)
        }),
{
    let result = apply_return_of_capital_with_cap(
        ledger,
        offering_id,
        holder,
        amount,
        period_id,
        timestamp,
    );
    let year: u64 = fiscal_year_from_ts(timestamp, ledger.fiscal_start_month(offering_id));
    update_tax_year_accumulator(
        ledger,
        offering_id,
        holder,
        year,
        0,
        result.capital_gains,
        result.return_of_capital,
    );
    result
}

} // verus!
