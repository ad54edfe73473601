//! The part of the contract's ledger that tax accounting works on.
use vstd::prelude::*;
use crate::calendar::DEFAULT_FISCAL_START_MONTH;
use crate::entries::Entries;
use crate::events::{EventView, TaxEvent};
use crate::keys::{Address, DataKey2, KeyView, OfferingId, OfferingView};

verus! {

/// Per-holder, per-fiscal-year accumulated tax summary.
///
/// Accumulated on every `rollover_distribution` call by incrementing the
/// active fiscal year's entry.
///
/// Fields match the tax-bucket breakdown expected by integrators:
/// - `ordinary_income`:  Ordinary taxable income (dividends, interest, etc.)
/// - `capital_gains`:    Capital gains (profit from sale of securities)
/// - `return_of_capital`: Return of capital (non-taxable distribution)
///
/// Distributions populate `return_of_capital` and `capital_gains` only. The
/// `ordinary_income` field is reserved for future tax-bucket expansion.
#[derive(Clone, Copy, Debug, PartialEq, Eq, Structural)]
pub struct TaxYearSummary {
    /// Ordinary taxable income (dividends, interest, etc.).
    pub ordinary_income: i128,
    /// Total capital gains (taxable) for this fiscal year.
    pub capital_gains: i128,
    /// Total return of capital (non-taxable) for this fiscal year.
    pub return_of_capital: i128,
}

/// The entries that tax accounting reads and writes, and the events that it
/// has published, oldest first.
#[derive(Debug)]
pub struct TaxLedger {
    basis: Entries<i128>,
    years: Entries<TaxYearSummary>,
    start_months: Entries<u32>,
    events: Vec<TaxEvent>,
}

/// What a `TaxLedger` holds.
#[verifier::ext_equal]
pub struct LedgerState {
    pub basis: Map<KeyView, i128>,
    pub years: Map<KeyView, TaxYearSummary>,
    pub start_months: Map<KeyView, u32>,
    pub events: Seq<EventView>,
}

impl LedgerState {
    /// The cost basis stored for a holder.
    pub open spec fn stored_basis(self, offering: OfferingView, holder: Seq<char>) -> Option<i128> {
        self.basis.get(KeyView::RemainingBasis(offering, holder))
    }

    /// The remaining cost basis of a holder: none stored counts as 0.
    pub open spec fn basis_of(self, offering: OfferingView, holder: Seq<char>) -> i128 {
        match self.stored_basis(offering, holder) {
            Some(basis) => basis,
            None => 0,
        }
    }

    /// The tax summary stored for a holder and a fiscal year.
    pub open spec fn stored_summary(
        self,
        offering: OfferingView,
        holder: Seq<char>,
        year: u64,
    ) -> Option<TaxYearSummary> {
        self.years.get(KeyView::TaxYearEntry(offering, holder, year))
    }

    /// The tax summary of a holder for a fiscal year: none stored counts as
    /// all zero.
    pub open spec fn summary_of(
        self,
        offering: OfferingView,
        holder: Seq<char>,
        year: u64,
    ) -> TaxYearSummary {
        match self.stored_summary(offering, holder, year) {
            Some(summary) => summary,
            None => TaxYearSummary { ordinary_income: 0, capital_gains: 0, return_of_capital: 0 },
        }
    }

    /// The month in which the fiscal years of an offering begin.
    pub open spec fn start_month_of(self, offering: OfferingView) -> u32 {
        match self.start_months.get(KeyView::FiscalStartMonth(offering)) {
            Some(month) => month,
            None => DEFAULT_FISCAL_START_MONTH,
        }
    }

    pub open spec fn with_basis(
        self,
        offering: OfferingView,
        holder: Seq<char>,
        basis: i128,
    ) -> LedgerState {
        LedgerState {
            basis: self.basis.insert(KeyView::RemainingBasis(offering, holder), basis),
            ..self
        }
    }

    pub open spec fn with_summary(
        self,
        offering: OfferingView,
        holder: Seq<char>,
        year: u64,
        summary: TaxYearSummary,
    ) -> LedgerState {
        LedgerState {
            years: self.years.insert(KeyView::TaxYearEntry(offering, holder, year), summary),
            ..self
        }
    }

    pub open spec fn with_start_month(self, offering: OfferingView, month: u32) -> LedgerState {
        LedgerState {
            start_months: self.start_months.insert(KeyView::FiscalStartMonth(offering), month),
            ..self
        }
    }

    pub open spec fn with_events(self, published: Seq<EventView>) -> LedgerState {
        LedgerState { events: self.events + published, ..self }
    }
}

impl View for TaxLedger {
    type V = LedgerState;

    closed spec fn view(&self) -> LedgerState {
        LedgerState {
            basis: self.basis@,
            years: self.years@,
            start_months: self.start_months@,
            events: self.events@.map_values(|event: TaxEvent| event@),
        }
    }
}

impl TaxLedger {
    /// A ledger without entries and events.
    pub fn new() -> (ledger: Self)
        ensures
            ledger@.basis == Map::<KeyView, i128>::empty(),
            ledger@.years == Map::<KeyView, TaxYearSummary>::empty(),
            ledger@.start_months == Map::<KeyView, u32>::empty(),
            ledger@.events == Seq::<EventView>::empty(),
            forall|offering: OfferingView, holder: Seq<char>|
                (#[trigger] ledger@.stored_basis(offering, holder)) is None,
            forall|offering: OfferingView, holder: Seq<char>, year: u64|
                (#[trigger] ledger@.stored_summary(offering, holder, year)) is None,
            forall|offering: OfferingView| (#[trigger] ledger@.start_month_of(offering)) == 1,
    {
        TaxLedger {
            basis: Entries::new(),
            years: Entries::new(),
            start_months: Entries::new(),
            events: Vec::new(),
        }
    }

    /// The cost basis stored for a holder, if there is one.
    pub fn remaining_basis(&self, offering_id: &OfferingId, holder: &Address) -> (basis: Option<
        i128,
    >)
        ensures
            basis == self@.stored_basis(offering_id@, holder@),
    {
        let key = DataKey2::RemainingBasis(offering_id.clone(), holder.clone());
        self.basis.get(&key)
    }

    /// Stores the cost basis of a holder.
    pub fn set_remaining_basis(&mut self, offering_id: &OfferingId, holder: &Address, basis: i128)
        ensures
            final(self)@ == old(self)@.with_basis(offering_id@, holder@, basis),
    {
        let key = DataKey2::RemainingBasis(offering_id.clone(), holder.clone());
        self.basis.set(key, basis);
    }

    /// The tax summary stored for a holder and a fiscal year, if there is one.
    pub fn tax_year(&self, offering_id: &OfferingId, holder: &Address, fiscal_year: u64) -> (summary:
        Option<TaxYearSummary>)
        ensures
            summary == self@.stored_summary(offering_id@, holder@, fiscal_year),
    {
        let key = DataKey2::TaxYearEntry(offering_id.clone(), holder.clone(), fiscal_year);
        self.years.get(&key)
    }

    /// Stores the tax summary of a holder for a fiscal year.
    pub fn set_tax_year(
        &mut self,
        offering_id: &OfferingId,
        holder: &Address,
        fiscal_year: u64,
        summary: TaxYearSummary,
    )
        ensures
            final(self)@ == old(self)@.with_summary(offering_id@, holder@, fiscal_year, summary),
    {
        let key = DataKey2::TaxYearEntry(offering_id.clone(), holder.clone(), fiscal_year);
        self.years.set(key, summary);
    }

    /// The month in which the fiscal years of an offering begin: January
    /// unless one is configured.
    pub fn fiscal_start_month(&self, offering_id: &OfferingId) -> (month: u32)
        ensures
            month == self@.start_month_of(offering_id@),
    {
        let key = DataKey2::FiscalStartMonth(offering_id.clone());
        match self.start_months.get(&key) {
            Some(month) => month,
            None => DEFAULT_FISCAL_START_MONTH,
        }
    }

    /// Configures the month in which the fiscal years of an offering begin.
    pub fn set_fiscal_start_month(&mut self, offering_id: &OfferingId, month: u32)
        ensures
            final(self)@ == old(self)@.with_start_month(offering_id@, month),
    {
        let key = DataKey2::FiscalStartMonth(offering_id.clone());
        self.start_months.set(key, month);
    }

    /// Publishes an event.
    pub fn publish(&mut self, event: TaxEvent)
        ensures
            final(self)@ == old(self)@.with_events(seq![event@]),
    {
        self.events.push(event);
        proof {
            assert(self@.events =~= old(self)@.events + seq![event@]);
        }
    }

    /// The events published so far, oldest first.
    pub fn events(&self) -> (events: &Vec<TaxEvent>)
        ensures
            events@.map_values(|event: TaxEvent| event@) == self@.events,
    {
        &self.events
    }
}

} // verus!
