//! What holds of tax accounting as a whole: across the buckets of one
//! distribution, across several distributions, and between holders.
use vstd::prelude::*;
use crate::calendar::{
    calendar_month, calendar_year, day_of, fiscal_year, law_every_day_has_one_year, law_years_are_ordered,
};
use crate::events::{EventData, EventKind, EventView};
use crate::keys::{KeyView, OfferingView};
use crate::ledger::{LedgerState, TaxYearSummary};
use crate::tax_bucket::{
    active_year, after_accumulation, after_distribution, after_rollover, basis_after, buckets,
    hits_cap, saturated, summary_plus,
};

verus! {

// ---------------------------------------------------------------------------
// One distribution
// ---------------------------------------------------------------------------

/// The two buckets add up to the amount distributed.
pub proof fn law_buckets_add_up(basis: i128, amount: i128)
    ensures
        buckets(basis, amount).return_of_capital + buckets(basis, amount).capital_gains == amount,
{
}

/// Return of capital never exceeds the remaining basis, nor 0 where none is
/// left. The cap is hit exactly where there is a gain. Of an amount that is not
/// negative, neither bucket is negative.
pub proof fn law_return_of_capital_is_capped(basis: i128, amount: i128)
    ensures
        basis > 0 ==> buckets(basis, amount).return_of_capital <= basis,
        basis <= 0 ==> buckets(basis, amount).return_of_capital == 0,
        hits_cap(basis, amount) <==> buckets(basis, amount).capital_gains > 0,
        amount >= 0 ==> buckets(basis, amount).return_of_capital >= 0,
        amount >= 0 ==> buckets(basis, amount).capital_gains >= 0,
{
}

/// Gains come only from beyond the basis: as long as the basis covers the
/// amount, all of it is return of capital.
pub proof fn law_gains_only_beyond_the_basis(basis: i128, amount: i128)
    requires
        0 < basis,
    ensures
        amount <= basis <==> buckets(basis, amount).capital_gains == 0,
        amount <= basis ==> buckets(basis, amount).return_of_capital == amount,
{
}

/// The remaining basis never falls below zero.
pub proof fn law_basis_stays_non_negative(basis: i128, amount: i128)
    requires
        basis >= 0,
    ensures
        basis_after(basis, amount) >= 0,
{
}

/// The basis falls by exactly what is returned of the capital. (Where a
/// negative amount would take it out of range, it falls to 0 instead.)
pub proof fn law_basis_pays_for_returned_capital(basis: i128, amount: i128)
    requires
        basis <= 0 || basis - amount <= i128::MAX,
    ensures
        basis_after(basis, amount) == basis - buckets(basis, amount).return_of_capital,
{
}

/// A distribution of nothing changes no basis and fills no bucket.
pub proof fn law_nothing_distributed_changes_nothing(basis: i128)
    ensures
        basis_after(basis, 0) == basis,
        buckets(basis, 0).return_of_capital == 0,
        buckets(basis, 0).capital_gains == 0,
{
}

// ---------------------------------------------------------------------------
// The ledger
// ---------------------------------------------------------------------------

/// A recorded cost basis is what the next distribution starts from.
pub proof fn law_recorded_basis_is_read_back(
    state: LedgerState,
    offering: OfferingView,
    holder: Seq<char>,
    cost_basis: i128,
)
    ensures
        state.with_basis(offering, holder, cost_basis).stored_basis(offering, holder) == Some(
            cost_basis,
        ),
        state.with_basis(offering, holder, cost_basis).basis_of(offering, holder) == cost_basis,
{
}

/// Recording a cost basis changes neither the basis of another holder or
/// another offering, nor any tax summary, nor the events.
pub proof fn law_recorded_basis_is_the_holders_alone(
    state: LedgerState,
    offering: OfferingView,
    holder: Seq<char>,
    cost_basis: i128,
    other_offering: OfferingView,
    other_holder: Seq<char>,
)
    requires
        offering != other_offering || holder != other_holder,
    ensures
        ({
            let after = state.with_basis(offering, holder, cost_basis);
            &&& after.stored_basis(other_offering, other_holder) == state.stored_basis(
                other_offering,
                other_holder,
            )
            &&& after.years == state.years
            &&& after.start_months == state.start_months
            &&& after.events == state.events
        }),
{
}

/// After a distribution the holder's basis is the one it leaves.
pub proof fn law_distribution_charges_the_basis(
    state: LedgerState,
    offering: OfferingView,
    holder: Seq<char>,
    amount: i128,
    period_id: u64,
    timestamp: u64,
)
    ensures
        after_distribution(state, offering, holder, amount, period_id, timestamp).basis_of(
            offering,
            holder,
        ) == basis_after(state.basis_of(offering, holder), amount),
{
}

/// A distribution concerns one holder of one offering: every other basis stays
/// as it was, and so does every tax summary. A holder without basis gets no
/// basis entry.
pub proof fn law_distribution_is_the_holders_alone(
    state: LedgerState,
    offering: OfferingView,
    holder: Seq<char>,
    amount: i128,
    period_id: u64,
    timestamp: u64,
    other_offering: OfferingView,
    other_holder: Seq<char>,
)
    ensures
        ({
            let after = after_distribution(state, offering, holder, amount, period_id, timestamp);
            &&& offering != other_offering || holder != other_holder ==> after.stored_basis(
                other_offering,
                other_holder,
            ) == state.stored_basis(other_offering, other_holder)
            &&& state.basis_of(offering, holder) <= 0 ==> after.basis == state.basis
            &&& after.years == state.years
            &&& after.start_months == state.start_months
        }),
{
}

/// Events are only ever added. Each distribution adds exactly one lot event,
/// its last, in which the buckets add up to the amount. It adds one
/// reclassification event, its first, if and only if the cap is hit; that event
/// splits the amount at the cap, which is 0 where no basis is left. It adds one
/// rollover event, its second, if and only if the cap is hit and a basis was
/// left.
pub proof fn law_events_of_a_distribution(
    state: LedgerState,
    offering: OfferingView,
    holder: Seq<char>,
    amount: i128,
    period_id: u64,
    timestamp: u64,
)
    ensures
        ({
            let after = after_distribution(state, offering, holder, amount, period_id, timestamp);
            let basis = state.basis_of(offering, holder);
            let n = state.events.len() as int;
            let last = after.events.len() - 1;
            &&& last >= n
            &&& after.events.take(n) == state.events
            &&& forall|i: int|
                n <= i <= last ==> after.events[i].offering == offering && after.events[i].holder
                    == holder
            &&& forall|i: int|
                n <= i <= last ==> (after.events[i].kind == EventKind::TaxLotV1 <==> i == last)
            &&& forall|i: int|
                n <= i <= last ==> (after.events[i].kind == EventKind::TaxReclassify <==> i == n
                    && hits_cap(basis, amount))
            &&& forall|i: int|
                n <= i <= last ==> (after.events[i].kind == EventKind::TaxRollover <==> i == n + 1
                    && hits_cap(basis, amount) && basis > 0)
            &&& after.events[last].data matches EventData::Lot {
                return_of_capital,
                capital_gains,
                amount: recorded,
                period_id: period,
                timestamp: time,
            } && recorded == amount && return_of_capital + capital_gains == amount && period
                == period_id && time == timestamp
            &&& hits_cap(basis, amount) ==> {
                &&& last == if basis > 0 {
                    n + 2
                } else {
                    n + 1
                }
                &&& after.events[n].data matches EventData::Reclassify {
                    capped_amount,
                    reclassified_amount,
                } && capped_amount == (if basis > 0 {
                    basis
                } else {
                    0
                }) && capped_amount + reclassified_amount == amount
            }
            &&& !hits_cap(basis, amount) ==> last == n
        }),
{
    let after = after_distribution(state, offering, holder, amount, period_id, timestamp);
    assert(after.events.take(state.events.len() as int) =~= state.events);
}

/// Amounts added to a summary are read back with it. They touch the summary of
/// no other holder, offering or fiscal year, no basis, and no event.
pub proof fn law_accumulation_is_the_years_alone(
    state: LedgerState,
    offering: OfferingView,
    holder: Seq<char>,
    year: u64,
    ordinary_income: i128,
    capital_gains: i128,
    return_of_capital: i128,
    other_offering: OfferingView,
    other_holder: Seq<char>,
    other_year: u64,
)
    ensures
        ({
            let after = after_accumulation(
                state,
                offering,
                holder,
                year,
                ordinary_income,
                capital_gains,
                return_of_capital,
            );
            &&& after.stored_summary(offering, holder, year) == Some(
                summary_plus(
                    state.summary_of(offering, holder, year),
                    ordinary_income as int,
                    capital_gains as int,
                    return_of_capital as int,
                ),
            )
            &&& offering != other_offering || holder != other_holder || year != other_year
                ==> after.stored_summary(other_offering, other_holder, other_year)
                == state.stored_summary(other_offering, other_holder, other_year)
            &&& after.basis == state.basis
            &&& after.start_months == state.start_months
            &&& after.events == state.events
        }),
{
}

/// Whether adding `a` and then `b` to `x` gives what adding their sum gives:
/// they pull the same way, or the first sum is in range.
pub open spec fn additive(x: i128, a: int, b: int) -> bool {
    ||| a >= 0 && b >= 0
    ||| a <= 0 && b <= 0
    ||| i128::MIN <= x + a <= i128::MAX
}

/// Summaries add up: amounts added in two steps count as their sum.
pub proof fn law_accumulations_add_up(
    summary: TaxYearSummary,
    income_0: int,
    gains_0: int,
    returned_0: int,
    income_1: int,
    gains_1: int,
    returned_1: int,
)
    requires
        additive(summary.ordinary_income, income_0, income_1),
        additive(summary.capital_gains, gains_0, gains_1),
        additive(summary.return_of_capital, returned_0, returned_1),
    ensures
        summary_plus(
            summary_plus(summary, income_0, gains_0, returned_0),
            income_1,
            gains_1,
            returned_1,
        ) == summary_plus(summary, income_0 + income_1, gains_0 + gains_1, returned_0 + returned_1),
{
}

/// A summary never wraps round: an amount that is not negative never lowers a
/// total, and one that is not positive never raises it.
pub proof fn law_totals_never_wrap(total: i128, amount: i128)
    ensures
        amount >= 0 ==> saturated(total + amount) >= total,
        amount <= 0 ==> saturated(total + amount) <= total,
        i128::MIN <= total + amount <= i128::MAX ==> saturated(total + amount) == total + amount,
{
}

/// The year under which a rollover is counted is the fiscal year of its
/// timestamp.
pub proof fn law_active_year_is_the_fiscal_year(
    state: LedgerState,
    offering: OfferingView,
    timestamp: u64,
)
    ensures
        active_year(state, offering, timestamp) == fiscal_year(
            day_of(timestamp),
            state.start_month_of(offering) as int,
        ),
{
    let day = day_of(timestamp);
    law_every_day_has_one_year(day);
    let year = calendar_year(day);
    if year > 1970 {
        law_years_are_ordered(1970, year);
    }
}

/// A rollover is a distribution, with the same basis, events and
/// configuration after it, that is also counted: its buckets are added to the
/// holder's summary of the active fiscal year, whose ordinary income stays.
/// Every other summary stays too.
pub proof fn law_rollover_is_a_counted_distribution(
    state: LedgerState,
    offering: OfferingView,
    holder: Seq<char>,
    amount: i128,
    period_id: u64,
    timestamp: u64,
    other_offering: OfferingView,
    other_holder: Seq<char>,
    other_year: u64,
)
    ensures
        ({
            let result = buckets(state.basis_of(offering, holder), amount);
            let year = active_year(state, offering, timestamp);
            let distributed = after_distribution(
                state,
                offering,
                holder,
                amount,
                period_id,
                timestamp,
            );
            let after = after_rollover(state, offering, holder, amount, period_id, timestamp);
            let summary = after.summary_of(offering, holder, year);
            &&& after.basis == distributed.basis
            &&& after.start_months == distributed.start_months
            &&& after.events == distributed.events
            &&& summary == summary_plus(
                state.summary_of(offering, holder, year),
                0,
                result.capital_gains as int,
                result.return_of_capital as int,
            )
            &&& summary.ordinary_income == state.summary_of(offering, holder, year).ordinary_income
            &&& offering != other_offering || holder != other_holder || year != other_year
                ==> after.stored_summary(other_offering, other_holder, other_year)
                == state.stored_summary(other_offering, other_holder, other_year)
        }),
{
}

// ---------------------------------------------------------------------------
// What a reader of the ledger sees
// ---------------------------------------------------------------------------
//
// Each of these laws goes through one operation and all that can be read of a
// ledger: the stored basis of any holder, the stored summary of any holder and
// year, the start month of any offering, and the events.

/// A ledger without entries holds no basis and no summary, and the fiscal years
/// of every offering begin in January.
pub proof fn law_empty_ledger_reads_as_empty(
    state: LedgerState,
    offering: OfferingView,
    holder: Seq<char>,
    year: u64,
)
    requires
        state.basis == Map::<KeyView, i128>::empty(),
        state.years == Map::<KeyView, TaxYearSummary>::empty(),
        state.start_months == Map::<KeyView, u32>::empty(),
    ensures
        state.stored_basis(offering, holder) is None,
        state.basis_of(offering, holder) == 0,
        state.stored_summary(offering, holder, year) is None,
        state.start_month_of(offering) == 1,
{
}

/// A basis that is not stored counts as 0, and a summary that is not stored as
/// all zero; what is stored counts as it is.
pub proof fn law_missing_entries_count_as_zero(
    state: LedgerState,
    offering: OfferingView,
    holder: Seq<char>,
    year: u64,
)
    ensures
        state.stored_basis(offering, holder) is None ==> state.basis_of(offering, holder) == 0,
        state.stored_basis(offering, holder) matches Some(basis) ==> state.basis_of(
            offering,
            holder,
        ) == basis,
        state.stored_summary(offering, holder, year) is None ==> {
            let summary = state.summary_of(offering, holder, year);
            summary.ordinary_income == 0 && summary.capital_gains == 0 && summary.return_of_capital
                == 0
        },
        state.stored_summary(offering, holder, year) matches Some(stored) ==> state.summary_of(
            offering,
            holder,
            year,
        ) == stored,
{
}

/// Recording a cost basis: it is read back for that holder of that offering.
/// All else reads as before.
pub proof fn law_reads_after_recording_a_basis(
    state: LedgerState,
    offering: OfferingView,
    holder: Seq<char>,
    cost_basis: i128,
    other_offering: OfferingView,
    other_holder: Seq<char>,
    other_year: u64,
)
    ensures
        ({
            let after = state.with_basis(offering, holder, cost_basis);
            &&& after.stored_basis(offering, holder) == Some(cost_basis)
            &&& offering != other_offering || holder != other_holder ==> after.stored_basis(
                other_offering,
                other_holder,
            ) == state.stored_basis(other_offering, other_holder)
            &&& after.stored_summary(other_offering, other_holder, other_year)
                == state.stored_summary(other_offering, other_holder, other_year)
            &&& after.start_month_of(other_offering) == state.start_month_of(other_offering)
            &&& after.events == state.events
        }),
{
}

/// Storing a summary: it is read back for that holder of that offering and that
/// year. All else reads as before.
pub proof fn law_reads_after_storing_a_summary(
    state: LedgerState,
    offering: OfferingView,
    holder: Seq<char>,
    year: u64,
    summary: TaxYearSummary,
    other_offering: OfferingView,
    other_holder: Seq<char>,
    other_year: u64,
)
    ensures
        ({
            let after = state.with_summary(offering, holder, year, summary);
            &&& after.stored_summary(offering, holder, year) == Some(summary)
            &&& offering != other_offering || holder != other_holder || year != other_year
                ==> after.stored_summary(other_offering, other_holder, other_year)
                == state.stored_summary(other_offering, other_holder, other_year)
            &&& after.stored_basis(other_offering, other_holder) == state.stored_basis(
                other_offering,
                other_holder,
            )
            &&& after.start_month_of(other_offering) == state.start_month_of(other_offering)
            &&& after.events == state.events
        }),
{
}

/// Configuring a start month: it is read back for that offering, whichever it
/// is. Every other offering keeps its own, and all else reads as before.
pub proof fn law_reads_after_configuring_a_start_month(
    state: LedgerState,
    offering: OfferingView,
    month: u32,
    other_offering: OfferingView,
    other_holder: Seq<char>,
    other_year: u64,
)
    ensures
        ({
            let after = state.with_start_month(offering, month);
            &&& after.start_month_of(offering) == month
            &&& offering != other_offering ==> after.start_month_of(other_offering)
                == state.start_month_of(other_offering)
            &&& after.stored_basis(other_offering, other_holder) == state.stored_basis(
                other_offering,
                other_holder,
            )
            &&& after.stored_summary(other_offering, other_holder, other_year)
                == state.stored_summary(other_offering, other_holder, other_year)
            &&& after.events == state.events
        }),
{
}

/// Publishing events: they follow those published before. All else reads as
/// before.
pub proof fn law_reads_after_publishing(
    state: LedgerState,
    published: Seq<EventView>,
    other_offering: OfferingView,
    other_holder: Seq<char>,
    other_year: u64,
)
    ensures
        ({
            let after = state.with_events(published);
            &&& after.events == state.events + published
            &&& after.stored_basis(other_offering, other_holder) == state.stored_basis(
                other_offering,
                other_holder,
            )
            &&& after.stored_summary(other_offering, other_holder, other_year)
                == state.stored_summary(other_offering, other_holder, other_year)
            &&& after.start_month_of(other_offering) == state.start_month_of(other_offering)
        }),
{
}

/// The buckets of a distribution, from the basis before it: nothing is returned
/// without basis, everything within it, and exactly the basis beyond it. The
/// rest is a gain.
pub proof fn law_buckets_divide_at_the_basis(basis: i128, amount: i128)
    ensures
        buckets(basis, amount).return_of_capital + buckets(basis, amount).capital_gains == amount,
        basis <= 0 ==> buckets(basis, amount).return_of_capital == 0,
        0 < basis && amount <= basis ==> buckets(basis, amount).return_of_capital == amount,
        0 < basis && basis < amount ==> buckets(basis, amount).return_of_capital == basis,
{
}

/// A distribution, as the basis entries show it: a positive basis falls by what
/// is returned of it, and down to 0 where the amount exceeds it or where a
/// negative amount would take it out of range; any other basis entry, and the
/// lack of one, stays. All summaries and start months read as before.
pub proof fn law_reads_after_a_distribution(
    state: LedgerState,
    offering: OfferingView,
    holder: Seq<char>,
    amount: i128,
    period_id: u64,
    timestamp: u64,
    other_offering: OfferingView,
    other_holder: Seq<char>,
    other_year: u64,
)
    ensures
        ({
            let after = after_distribution(state, offering, holder, amount, period_id, timestamp);
            let stored = after.stored_basis(offering, holder);
            &&& state.stored_basis(offering, holder) matches Some(basis) ==> {
                &&& stored is Some
                &&& basis <= 0 ==> stored->0 == basis
                &&& 0 < basis && basis < amount ==> stored->0 == 0
                &&& 0 < basis && amount <= basis && basis - amount <= i128::MAX ==> stored->0
                    == basis - amount
                &&& 0 < basis && basis - amount > i128::MAX ==> stored->0 == 0
            }
            &&& state.stored_basis(offering, holder) is None ==> stored is None
            &&& offering != other_offering || holder != other_holder ==> after.stored_basis(
                other_offering,
                other_holder,
            ) == state.stored_basis(other_offering, other_holder)
            &&& after.stored_summary(other_offering, other_holder, other_year)
                == state.stored_summary(other_offering, other_holder, other_year)
            &&& after.start_month_of(other_offering) == state.start_month_of(other_offering)
        }),
{
}

/// A distribution, as its events show it. The last is the lot: it carries the
/// very buckets of the distribution, its amount, period and timestamp. Where the
/// amount exceeds what the basis covers, the reclassification comes first, with
/// the same two buckets. Where that uses up a positive basis, the rollover
/// stands between them, with the basis before. All of them name the holder and
/// the offering; all events before them stay.
pub proof fn law_events_carry_the_buckets(
    state: LedgerState,
    offering: OfferingView,
    holder: Seq<char>,
    amount: i128,
    period_id: u64,
    timestamp: u64,
)
    ensures
        ({
            let after = after_distribution(state, offering, holder, amount, period_id, timestamp);
            let basis = match state.stored_basis(offering, holder) {
                Some(basis) => basis,
                None => 0,
            };
            let result = buckets(basis, amount);
            let n = state.events.len() as int;
            let lot = EventView {
                kind: EventKind::TaxLotV1,
                offering,
                holder,
                data: EventData::Lot {
                    return_of_capital: result.return_of_capital,
                    capital_gains: result.capital_gains,
                    amount,
                    period_id,
                    timestamp,
                },
            };
            let reclassify = EventView {
                kind: EventKind::TaxReclassify,
                offering,
                holder,
                data: EventData::Reclassify {
                    capped_amount: result.return_of_capital,
                    reclassified_amount: result.capital_gains,
                },
            };
            let rollover = EventView {
                kind: EventKind::TaxRollover,
                offering,
                holder,
                data: EventData::Rollover { previous_basis: basis, new_basis: 0 },
            };
            &&& forall|i: int| 0 <= i < n ==> after.events[i] == state.events[i]
            &&& after.events.len() > n
            &&& after.events.last() == lot
            &&& basis <= 0 && amount <= 0 ==> after.events.len() == n + 1
            &&& basis <= 0 && amount > 0 ==> after.events.len() == n + 2 && after.events[n]
                == reclassify
            &&& 0 < basis && amount <= basis ==> after.events.len() == n + 1
            &&& 0 < basis && basis < amount ==> after.events.len() == n + 3 && after.events[n]
                == reclassify && after.events[n + 1] == rollover
        }),
{
}

/// Adding `amount` to `total` gives their sum where it is in range, and the
/// nearer bound where it is not.
pub proof fn law_sums_are_exact_or_at_a_bound(total: i128, amount: int)
    ensures
        i128::MIN <= total + amount <= i128::MAX ==> saturated(total + amount) == total + amount,
        total + amount > i128::MAX ==> saturated(total + amount) == i128::MAX,
        total + amount < i128::MIN ==> saturated(total + amount) == i128::MIN,
{
}

/// An accumulation, as the summaries show it. A year without an entry starts
/// from zero: it then holds exactly the amounts added. A year with an entry
/// holds its sums with them, or the bound of `i128` that a sum passes. All else
/// reads as before.
pub proof fn law_reads_after_an_accumulation(
    state: LedgerState,
    offering: OfferingView,
    holder: Seq<char>,
    year: u64,
    ordinary_income: i128,
    capital_gains: i128,
    return_of_capital: i128,
    other_offering: OfferingView,
    other_holder: Seq<char>,
    other_year: u64,
)
    ensures
        ({
            let after = after_accumulation(
                state,
                offering,
                holder,
                year,
                ordinary_income,
                capital_gains,
                return_of_capital,
            );
            &&& state.stored_summary(offering, holder, year) is None ==> after.stored_summary(
                offering,
                holder,
                year,
            ) == Some(TaxYearSummary { ordinary_income, capital_gains, return_of_capital })
            &&& state.stored_summary(offering, holder, year) matches Some(old_summary) ==> {
                &&& after.stored_summary(offering, holder, year) matches Some(new_summary)
                &&& i128::MIN <= old_summary.ordinary_income + ordinary_income <= i128::MAX
                    ==> new_summary.ordinary_income == old_summary.ordinary_income
                    + ordinary_income
                &&& old_summary.ordinary_income + ordinary_income > i128::MAX
                    ==> new_summary.ordinary_income == i128::MAX
                &&& old_summary.ordinary_income + ordinary_income < i128::MIN
                    ==> new_summary.ordinary_income == i128::MIN
                &&& i128::MIN <= old_summary.capital_gains + capital_gains <= i128::MAX
                    ==> new_summary.capital_gains == old_summary.capital_gains + capital_gains
                &&& old_summary.capital_gains + capital_gains > i128::MAX
                    ==> new_summary.capital_gains == i128::MAX
                &&& old_summary.capital_gains + capital_gains < i128::MIN
                    ==> new_summary.capital_gains == i128::MIN
                &&& i128::MIN <= old_summary.return_of_capital + return_of_capital <= i128::MAX
                    ==> new_summary.return_of_capital == old_summary.return_of_capital
                    + return_of_capital
                &&& old_summary.return_of_capital + return_of_capital > i128::MAX
                    ==> new_summary.return_of_capital == i128::MAX
                &&& old_summary.return_of_capital + return_of_capital < i128::MIN
                    ==> new_summary.return_of_capital == i128::MIN
            }
            &&& offering != other_offering || holder != other_holder || year != other_year
                ==> after.stored_summary(other_offering, other_holder, other_year)
                == state.stored_summary(other_offering, other_holder, other_year)
            &&& after.stored_basis(other_offering, other_holder) == state.stored_basis(
                other_offering,
                other_holder,
            )
            &&& after.start_month_of(other_offering) == state.start_month_of(other_offering)
            &&& after.events == state.events
        }),
{
}

/// A rollover, as a reader sees it: every basis, start month and event reads as
/// after the plain distribution. The summaries read as after adding no ordinary
/// income and the two buckets to the summary of the year that contains the
/// timestamp, by the start month that the offering has.
pub proof fn law_reads_after_a_rollover(
    state: LedgerState,
    offering: OfferingView,
    holder: Seq<char>,
    amount: i128,
    period_id: u64,
    timestamp: u64,
    year: u64,
    other_offering: OfferingView,
    other_holder: Seq<char>,
    other_year: u64,
)
    requires
        ({
            let day = timestamp as int / 86_400;
            let start_month = state.start_month_of(offering);
            year == if calendar_month(day) < start_month {
                calendar_year(day) - 1
            } else {
                calendar_year(day)
            }
        }),
    ensures
        ({
            let result = buckets(state.basis_of(offering, holder), amount);
            let after = after_rollover(state, offering, holder, amount, period_id, timestamp);
            let distributed = after_distribution(
                state,
                offering,
                holder,
                amount,
                period_id,
                timestamp,
            );
            let accumulated = after_accumulation(
                state,
                offering,
                holder,
                year,
                0,
                result.capital_gains,
                result.return_of_capital,
            );
            &&& after.stored_basis(other_offering, other_holder) == distributed.stored_basis(
                other_offering,
                other_holder,
            )
            &&& after.stored_summary(other_offering, other_holder, other_year)
                == accumulated.stored_summary(other_offering, other_holder, other_year)
            &&& after.start_month_of(other_offering) == state.start_month_of(other_offering)
            &&& after.events == distributed.events
        }),
{
}

// ---------------------------------------------------------------------------
// Several distributions
// ---------------------------------------------------------------------------

/// One payout to a holder.
pub struct Payment {
    pub amount: i128,
    pub period_id: u64,
    pub timestamp: u64,
}

/// The sum of the amounts.
pub open spec fn total_amount(payments: Seq<Payment>) -> int
    decreases payments.len(),
{
    if payments.len() == 0 {
        0
    } else {
        total_amount(payments.drop_last()) + payments.last().amount
    }
}

/// The ledger after the payments were distributed in order.
pub open spec fn after_distributions(
    state: LedgerState,
    offering: OfferingView,
    holder: Seq<char>,
    payments: Seq<Payment>,
) -> LedgerState
    decreases payments.len(),
{
    if payments.len() == 0 {
        state
    } else {
        let last = payments.last();
        after_distribution(
            after_distributions(state, offering, holder, payments.drop_last()),
            offering,
            holder,
            last.amount,
            last.period_id,
            last.timestamp,
        )
    }
}

/// The ledger after the payments were rolled over in order.
pub open spec fn after_rollovers(
    state: LedgerState,
    offering: OfferingView,
    holder: Seq<char>,
    payments: Seq<Payment>,
) -> LedgerState
    decreases payments.len(),
{
    if payments.len() == 0 {
        state
    } else {
        let last = payments.last();
        after_rollover(
            after_rollovers(state, offering, holder, payments.drop_last()),
            offering,
            holder,
            last.amount,
            last.period_id,
            last.timestamp,
        )
    }
}

/// The basis that the payments leave of `basis`.
pub open spec fn basis_after_all(basis: i128, payments: Seq<Payment>) -> i128
    decreases payments.len(),
{
    if payments.len() == 0 {
        basis
    } else {
        basis_after(basis_after_all(basis, payments.drop_last()), payments.last().amount)
    }
}

/// What the payments return of the capital, added up.
pub open spec fn total_returned(basis: i128, payments: Seq<Payment>) -> int
    decreases payments.len(),
{
    if payments.len() == 0 {
        0
    } else {
        total_returned(basis, payments.drop_last()) + buckets(
            basis_after_all(basis, payments.drop_last()),
            payments.last().amount,
        ).return_of_capital
    }
}

/// The gains of the payments, added up.
pub open spec fn total_gains(basis: i128, payments: Seq<Payment>) -> int
    decreases payments.len(),
{
    if payments.len() == 0 {
        0
    } else {
        total_gains(basis, payments.drop_last()) + buckets(
            basis_after_all(basis, payments.drop_last()),
            payments.last().amount,
        ).capital_gains
    }
}

/// No amount is negative.
pub open spec fn all_non_negative(payments: Seq<Payment>) -> bool {
    forall|i: int| 0 <= i < payments.len() ==> (#[trigger] payments[i]).amount >= 0
}

/// No payment takes the basis out of range.
pub open spec fn basis_in_range(basis: i128, payments: Seq<Payment>) -> bool
    decreases payments.len(),
{
    payments.len() == 0 || {
        let left = basis_after_all(basis, payments.drop_last());
        &&& basis_in_range(basis, payments.drop_last())
        &&& left <= 0 || left - payments.last().amount <= i128::MAX
    }
}

/// Each payment starts from the basis that the ones before it left, whether
/// they were distributed or rolled over.
pub proof fn law_distributions_share_the_basis(
    state: LedgerState,
    offering: OfferingView,
    holder: Seq<char>,
    payments: Seq<Payment>,
)
    ensures
        after_distributions(state, offering, holder, payments).basis_of(offering, holder)
            == basis_after_all(state.basis_of(offering, holder), payments),
        after_rollovers(state, offering, holder, payments).basis_of(offering, holder)
            == basis_after_all(state.basis_of(offering, holder), payments),
        after_rollovers(state, offering, holder, payments).start_months == state.start_months,
    decreases payments.len(),
{
    if payments.len() > 0 {
        law_distributions_share_the_basis(state, offering, holder, payments.drop_last());
    }
}

/// Over any number of payments, the buckets add up to what was paid.
pub proof fn law_all_buckets_add_up(basis: i128, payments: Seq<Payment>)
    ensures
        total_returned(basis, payments) + total_gains(basis, payments) == total_amount(payments),
    decreases payments.len(),
{
    if payments.len() > 0 {
        law_all_buckets_add_up(basis, payments.drop_last());
    }
}

/// Capital is returned once: over any number of payments, what was returned of
/// it is what the basis has lost, and never more than there was.
pub proof fn law_capital_is_returned_once(basis: i128, payments: Seq<Payment>)
    requires
        basis_in_range(basis, payments),
    ensures
        total_returned(basis, payments) == basis - basis_after_all(basis, payments),
        basis >= 0 ==> 0 <= basis_after_all(basis, payments),
        basis >= 0 ==> total_returned(basis, payments) <= basis,
    decreases payments.len(),
{
    if payments.len() > 0 {
        law_capital_is_returned_once(basis, payments.drop_last());
    }
}

/// Payments that are not negative return capital first and are gains after
/// that: in all, the smaller of the basis and the sum paid is returned.
pub proof fn law_capital_first_gains_after(basis: i128, payments: Seq<Payment>)
    requires
        all_non_negative(payments),
    ensures
        total_amount(payments) >= 0,
        ({
            let paid = total_amount(payments);
            let covered = if basis <= 0 {
                0
            } else if paid <= basis {
                paid
            } else {
                basis as int
            };
            &&& total_returned(basis, payments) == covered
            &&& total_gains(basis, payments) == paid - covered
            &&& basis_after_all(basis, payments) == basis - covered
        }),
    decreases payments.len(),
{
    if payments.len() > 0 {
        let earlier = payments.drop_last();
        assert forall|i: int| 0 <= i < earlier.len() implies (#[trigger] earlier[i]).amount
            >= 0 by {
            assert(earlier[i] == payments[i]);
        }
        assert(payments[payments.len() - 1].amount >= 0);
        law_capital_first_gains_after(basis, earlier);
    }
}

/// Once no basis is left, none comes back, and every payment is a gain.
pub proof fn law_exhausted_basis_stays_exhausted(basis: i128, payments: Seq<Payment>)
    requires
        basis <= 0,
    ensures
        basis_after_all(basis, payments) == basis,
        total_returned(basis, payments) == 0,
        total_gains(basis, payments) == total_amount(payments),
    decreases payments.len(),
{
    if payments.len() > 0 {
        law_exhausted_basis_stays_exhausted(basis, payments.drop_last());
    }
}

/// It makes no difference whether an amount is paid at once or in two parts, as
/// long as the first part leaves some basis, or the whole still uses it up.
/// Two parts that are not negative always qualify.
pub proof fn law_paying_in_parts_makes_no_difference(basis: i128, first: i128, second: i128)
    requires
        i128::MIN <= first + second <= i128::MAX,
        ({
            ||| basis <= 0
            ||| first >= 0 && second >= 0
            ||| first < basis && basis - first <= i128::MAX
            ||| first + second >= basis
        }),
    ensures
        ({
            let whole = (first + second) as i128;
            let left = basis_after(basis, first);
            &&& basis_after(left, second) == basis_after(basis, whole)
            &&& buckets(basis, first).return_of_capital + buckets(left, second).return_of_capital
                == buckets(basis, whole).return_of_capital
            &&& buckets(basis, first).capital_gains + buckets(left, second).capital_gains
                == buckets(basis, whole).capital_gains
        }),
{
}

/// Whether each payment's buckets can be added to a summary on top of those
/// before it, with the sums held in range only where all pull the same way.
pub open spec fn totals_additive(
    summary: TaxYearSummary,
    basis: i128,
    payments: Seq<Payment>,
) -> bool
    decreases payments.len(),
{
    payments.len() == 0 || {
        let earlier = payments.drop_last();
        let result = buckets(basis_after_all(basis, earlier), payments.last().amount);
        &&& totals_additive(summary, basis, earlier)
        &&& additive(
            summary.capital_gains,
            total_gains(basis, earlier),
            result.capital_gains as int,
        )
        &&& additive(
            summary.return_of_capital,
            total_returned(basis, earlier),
            result.return_of_capital as int,
        )
    }
}

/// Payments that are not negative can always be added up in a summary.
pub proof fn law_non_negative_payments_are_additive(
    summary: TaxYearSummary,
    basis: i128,
    payments: Seq<Payment>,
)
    requires
        all_non_negative(payments),
    ensures
        totals_additive(summary, basis, payments),
    decreases payments.len(),
{
    if payments.len() > 0 {
        let earlier = payments.drop_last();
        assert forall|i: int| 0 <= i < earlier.len() implies (#[trigger] earlier[i]).amount
            >= 0 by {
            assert(earlier[i] == payments[i]);
        }
        assert(payments[payments.len() - 1].amount >= 0);
        law_non_negative_payments_are_additive(summary, basis, earlier);
        law_capital_first_gains_after(basis, earlier);
        law_return_of_capital_is_capped(basis_after_all(basis, earlier), payments.last().amount);
    }
}

/// A fiscal year's summary holds what the payments rolled over in it returned
/// and gained, on top of what it held before.
pub proof fn law_summary_counts_every_rollover(
    state: LedgerState,
    offering: OfferingView,
    holder: Seq<char>,
    payments: Seq<Payment>,
    year: u64,
)
    requires
        totals_additive(
            state.summary_of(offering, holder, year),
            state.basis_of(offering, holder),
            payments,
        ),
        forall|i: int|
            0 <= i < payments.len() ==> active_year(
                state,
                offering,
                (#[trigger] payments[i]).timestamp,
            ) == year,
    ensures
        after_rollovers(state, offering, holder, payments).summary_of(offering, holder, year)
            == summary_plus(
            state.summary_of(offering, holder, year),
            0,
            total_gains(state.basis_of(offering, holder), payments),
            total_returned(state.basis_of(offering, holder), payments),
        ),
    decreases payments.len(),
{
    if payments.len() > 0 {
        let earlier = payments.drop_last();
        assert forall|i: int| 0 <= i < earlier.len() implies active_year(
            state,
            offering,
            (#[trigger] earlier[i]).timestamp,
        ) == year by {
            assert(earlier[i] == payments[i]);
        }
        assert(payments[payments.len() - 1] == payments.last());
        law_summary_counts_every_rollover(state, offering, holder, earlier, year);
        law_distributions_share_the_basis(state, offering, holder, earlier);
        let basis = state.basis_of(offering, holder);
        let before = after_rollovers(state, offering, holder, earlier);
        let last = payments.last();
        let result = buckets(before.basis_of(offering, holder), last.amount);
        law_accumulations_add_up(
            state.summary_of(offering, holder, year),
            0,
            total_gains(basis, earlier),
            total_returned(basis, earlier),
            0,
            result.capital_gains as int,
            result.return_of_capital as int,
        );
        assert(active_year(before, offering, last.timestamp) == year);
    }
}

/// The gains of those payments that count toward `year`, added up. Each payment
/// starts from the basis that all before it left, in whatever year.
pub open spec fn gains_in_year(
    state: LedgerState,
    offering: OfferingView,
    holder: Seq<char>,
    payments: Seq<Payment>,
    year: u64,
) -> int
    decreases payments.len(),
{
    if payments.len() == 0 {
        0
    } else {
        let earlier = payments.drop_last();
        let last = payments.last();
        gains_in_year(state, offering, holder, earlier, year) + if active_year(
            state,
            offering,
            last.timestamp,
        ) == year {
            buckets(
                basis_after_all(state.basis_of(offering, holder), earlier),
                last.amount,
            ).capital_gains as int
        } else {
            0
        }
    }
}

/// What those payments that count toward `year` return of the capital, added
/// up. Each payment starts from the basis that all before it left, in whatever
/// year.
pub open spec fn returned_in_year(
    state: LedgerState,
    offering: OfferingView,
    holder: Seq<char>,
    payments: Seq<Payment>,
    year: u64,
) -> int
    decreases payments.len(),
{
    if payments.len() == 0 {
        0
    } else {
        let earlier = payments.drop_last();
        let last = payments.last();
        returned_in_year(state, offering, holder, earlier, year) + if active_year(
            state,
            offering,
            last.timestamp,
        ) == year {
            buckets(
                basis_after_all(state.basis_of(offering, holder), earlier),
                last.amount,
            ).return_of_capital as int
        } else {
            0
        }
    }
}

/// Whether the buckets of each payment of `year` can be added to the year's
/// summary on top of those before it, with the sums held in range only where
/// all pull the same way.
pub open spec fn year_totals_additive(
    state: LedgerState,
    offering: OfferingView,
    holder: Seq<char>,
    payments: Seq<Payment>,
    year: u64,
) -> bool
    decreases payments.len(),
{
    payments.len() == 0 || {
        let earlier = payments.drop_last();
        let last = payments.last();
        let summary = state.summary_of(offering, holder, year);
        let result = buckets(
            basis_after_all(state.basis_of(offering, holder), earlier),
            last.amount,
        );
        &&& year_totals_additive(state, offering, holder, earlier, year)
        &&& active_year(state, offering, last.timestamp) == year ==> {
            &&& additive(
                summary.capital_gains,
                gains_in_year(state, offering, holder, earlier, year),
                result.capital_gains as int,
            )
            &&& additive(
                summary.return_of_capital,
                returned_in_year(state, offering, holder, earlier, year),
                result.return_of_capital as int,
            )
        }
    }
}

/// Over any payments, whatever fiscal years they fall in, each year's summary
/// holds what the payments of that year returned and gained, on top of what it
/// held before, and its ordinary income stays.
pub proof fn law_each_year_counts_its_own_rollovers(
    state: LedgerState,
    offering: OfferingView,
    holder: Seq<char>,
    payments: Seq<Payment>,
    year: u64,
)
    requires
        year_totals_additive(state, offering, holder, payments, year),
    ensures
        after_rollovers(state, offering, holder, payments).summary_of(offering, holder, year)
            == summary_plus(
            state.summary_of(offering, holder, year),
            0,
            gains_in_year(state, offering, holder, payments, year),
            returned_in_year(state, offering, holder, payments, year),
        ),
    decreases payments.len(),
{
    if payments.len() > 0 {
        let earlier = payments.drop_last();
        let last = payments.last();
        law_each_year_counts_its_own_rollovers(state, offering, holder, earlier, year);
        law_distributions_share_the_basis(state, offering, holder, earlier);
        let before = after_rollovers(state, offering, holder, earlier);
        assert(active_year(before, offering, last.timestamp) == active_year(
            state,
            offering,
            last.timestamp,
        ));
        if active_year(state, offering, last.timestamp) == year {
            let result = buckets(before.basis_of(offering, holder), last.amount);
            law_accumulations_add_up(
                state.summary_of(offering, holder, year),
                0,
                gains_in_year(state, offering, holder, earlier, year),
                returned_in_year(state, offering, holder, earlier, year),
                0,
                result.capital_gains as int,
                result.return_of_capital as int,
            );
        }
    }
}

/// Payments that are not negative are counted by every year's summary without
/// further conditions.
pub proof fn law_each_year_counts_its_non_negative_rollovers(
    state: LedgerState,
    offering: OfferingView,
    holder: Seq<char>,
    payments: Seq<Payment>,
    year: u64,
)
    requires
        all_non_negative(payments),
    ensures
        gains_in_year(state, offering, holder, payments, year) >= 0,
        returned_in_year(state, offering, holder, payments, year) >= 0,
        year_totals_additive(state, offering, holder, payments, year),
        after_rollovers(state, offering, holder, payments).summary_of(offering, holder, year)
            == summary_plus(
            state.summary_of(offering, holder, year),
            0,
            gains_in_year(state, offering, holder, payments, year),
            returned_in_year(state, offering, holder, payments, year),
        ),
    decreases payments.len(),
{
    if payments.len() > 0 {
        let earlier = payments.drop_last();
        assert forall|i: int| 0 <= i < earlier.len() implies (#[trigger] earlier[i]).amount
            >= 0 by {
            assert(earlier[i] == payments[i]);
        }
        assert(payments[payments.len() - 1].amount >= 0);
        law_each_year_counts_its_non_negative_rollovers(state, offering, holder, earlier, year);
        law_return_of_capital_is_capped(
            basis_after_all(state.basis_of(offering, holder), earlier),
            payments.last().amount,
        );
    }
    law_each_year_counts_its_own_rollovers(state, offering, holder, payments, year);
}

/// Rollovers to a holder leave the basis and every summary of another holder, or
/// under another offering, as they were.
pub proof fn law_rollovers_are_the_holders_alone(
    state: LedgerState,
    offering: OfferingView,
    holder: Seq<char>,
    payments: Seq<Payment>,
    other_offering: OfferingView,
    other_holder: Seq<char>,
    year: u64,
)
    requires
        offering != other_offering || holder != other_holder,
    ensures
        after_rollovers(state, offering, holder, payments).stored_summary(
            other_offering,
            other_holder,
            year,
        ) == state.stored_summary(other_offering, other_holder, year),
        after_rollovers(state, offering, holder, payments).stored_basis(
            other_offering,
            other_holder,
        ) == state.stored_basis(other_offering, other_holder),
    decreases payments.len(),
{
    if payments.len() > 0 {
        law_rollovers_are_the_holders_alone(
            state,
            offering,
            holder,
            payments.drop_last(),
            other_offering,
            other_holder,
            year,
        );
    }
}

} // verus!
