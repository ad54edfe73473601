//! The events that a distribution publishes for off-chain readers.
use vstd::prelude::*;
use crate::keys::{Address, OfferingId, OfferingView, Symbol};

verus! {

/// What an event announces: the first element of its topic.
#[derive(Clone, Copy, Debug, PartialEq, Eq, Structural)]
pub enum EventKind {
    TaxRollover,
    TaxLotV1,
    TaxReclassify,
}

/// Emitted after `EVENT_TAX_RECLASSIFY` when a distribution exceeds a cost basis
/// of which some was left: the basis is used up.
///
/// Topic:  `(tax_roll, issuer, namespace, token)`
/// Data:   `(holder: Address, previous_basis: i128, new_basis: i128)`
pub const EVENT_TAX_ROLLOVER: EventKind = EventKind::TaxRollover;

/// Emitted on each tax-bucket update to enable off-chain tax-lot reconstruction.
///
/// Topic:  `(tax_lot_v1, issuer, namespace, token)`
/// Data:   `(holder: Address, return_of_capital: i128, capital_gains: i128,
///           amount: i128, period_id: u64, timestamp: u64)`
pub const EVENT_TAX_LOT_V1: EventKind = EventKind::TaxLotV1;

/// Emitted when return-of-capital is capped by remaining cost basis.
/// The excess amount is reclassified as capital gains.
///
/// Topic:  `(tax_recls, issuer, namespace, token)`
/// Data:   `(holder: Address, capped_amount: i128, reclassified_amount: i128)`
pub const EVENT_TAX_RECLASSIFY: EventKind = EventKind::TaxReclassify;

/// The topic of an event, in the order in which it is published.
#[derive(Debug, PartialEq, Eq)]
pub struct EventTopic {
    pub kind: EventKind,
    pub issuer: Address,
    pub namespace: Symbol,
    pub token: Address,
}

/// The data of an event after the holder, in the order in which it is
/// published.
#[derive(Clone, Copy, Debug, PartialEq, Eq, Structural)]
pub enum EventData {
    Rollover {
        /// Remaining cost basis before the distribution.
        previous_basis: i128,
        /// Remaining cost basis after it.
        new_basis: i128,
    },
    Lot {
        /// Amount treated as return of capital (non-taxable).
        return_of_capital: i128,
        /// Amount treated as capital gains (taxable).
        capital_gains: i128,
        /// Total payout amount (`return_of_capital + capital_gains`).
        amount: i128,
        /// The period associated with this distribution.
        period_id: u64,
        /// Ledger timestamp at the time of the event.
        timestamp: u64,
    },
    Reclassify {
        /// Amount that the remaining basis still covered.
        capped_amount: i128,
        /// Amount above it, treated as capital gains.
        reclassified_amount: i128,
    },
}

/// A published event. The data of every event begins with the holder.
#[derive(Debug, PartialEq, Eq)]
pub struct TaxEvent {
    pub topic: EventTopic,
    pub holder: Address,
    pub data: EventData,
}

/// What a `TaxEvent` says.
pub struct EventView {
    pub kind: EventKind,
    pub offering: OfferingView,
    pub holder: Seq<char>,
    pub data: EventData,
}

impl View for TaxEvent {
    type V = EventView;

    open spec fn view(&self) -> EventView {
        EventView {
            kind: self.topic.kind,
            offering: OfferingView {
                issuer: self.topic.issuer@,
                namespace: self.topic.namespace@,
                token: self.topic.token@,
            },
            holder: self.holder@,
            data: self.data,
        }
    }
}

/// The kind under which data of this shape is published.
pub open spec fn kind_of(data: EventData) -> EventKind {
    match data {
        EventData::Rollover { .. } => EventKind::TaxRollover,
        EventData::Lot { .. } => EventKind::TaxLotV1,
        EventData::Reclassify { .. } => EventKind::TaxReclassify,
    }
}

/// The event that announces `data` for a holder of an offering.
pub open spec fn event_about(
    offering: OfferingView,
    holder: Seq<char>,
    data: EventData,
) -> EventView {
    EventView { kind: kind_of(data), offering, holder, data }
}

/// An event is announced under the name of its data's shape.
pub proof fn law_each_shape_has_its_kind(data: EventData)
    ensures
        data is Rollover <==> kind_of(data) == EVENT_TAX_ROLLOVER,
        data is Lot <==> kind_of(data) == EVENT_TAX_LOT_V1,
        data is Reclassify <==> kind_of(data) == EVENT_TAX_RECLASSIFY,
        EVENT_TAX_ROLLOVER == EventKind::TaxRollover,
        EVENT_TAX_LOT_V1 == EventKind::TaxLotV1,
        EVENT_TAX_RECLASSIFY == EventKind::TaxReclassify,
{
}

/// The event about a holder names that holder, that offering and the data given.
pub proof fn law_events_name_what_they_are_about(
    offering: OfferingView,
    holder: Seq<char>,
    data: EventData,
)
    ensures
        event_about(offering, holder, data).offering == offering,
        event_about(offering, holder, data).holder == holder,
        event_about(offering, holder, data).data == data,
        data is Rollover ==> event_about(offering, holder, data).kind == EventKind::TaxRollover,
        data is Lot ==> event_about(offering, holder, data).kind == EventKind::TaxLotV1,
        data is Reclassify ==> event_about(offering, holder, data).kind
            == EventKind::TaxReclassify,
{
}

/// An event says what stands in its topic, its holder and its data.
pub proof fn law_events_say_what_they_hold(event: TaxEvent)
    ensures
        event@.kind == event.topic.kind,
        event@.offering.issuer == event.topic.issuer.strkey@,
        event@.offering.namespace == event.topic.namespace.text@,
        event@.offering.token == event.topic.token.strkey@,
        event@.holder == event.holder.strkey@,
        event@.data == event.data,
{
}

impl EventKind {
    /// The name of this kind, as it stands in a topic.
    pub fn symbol(&self) -> (name: &'static str)
        ensures
            name@ == (match *self {
                EventKind::TaxRollover => "tax_roll"@,
                EventKind::TaxLotV1 => "tax_lot_v1"@,
                EventKind::TaxReclassify => "tax_recls"@,
            }),
    {
        match *self {
            EventKind::TaxRollover => "tax_roll",
            EventKind::TaxLotV1 => "tax_lot_v1",
            EventKind::TaxReclassify => "tax_recls",
        }
    }
}

/// The data of each kind of event as the tuple in which it is published:
/// readers tell the fields apart by their positions. The holder is in whatever
/// form the publisher needs.
impl EventData {
    /// `(holder, previous_basis, new_basis)`, where this is rollover data.
    pub fn rollover_payload<H>(&self, holder: H) -> (payload: Option<(H, i128, i128)>)
        ensures
            *self matches EventData::Rollover { previous_basis, new_basis } ==> payload == Some(
                (holder, previous_basis, new_basis),
            ),
            !(*self is Rollover) ==> payload is None,
    {
        match *self {
            EventData::Rollover { previous_basis, new_basis } => Some(
                (holder, previous_basis, new_basis),
            ),
            _ => None,
        }
    }

    /// `(holder, return_of_capital, capital_gains, amount, period_id,
    /// timestamp)`, where this is lot data:
    ///
    /// 0. the holder whose bucket was updated,
    /// 1. `return_of_capital`,
    /// 2. `capital_gains`,
    /// 3. `amount`,
    /// 4. `period_id`,
    /// 5. `timestamp`.
    pub fn lot_payload<H>(&self, holder: H) -> (payload: Option<
        (H, i128, i128, i128, u64, u64),
    >)
        ensures
            *self matches EventData::Lot {
                return_of_capital,
                capital_gains,
                amount,
                period_id,
                timestamp,
            } ==> payload == Some(
                (holder, return_of_capital, capital_gains, amount, period_id, timestamp),
            ),
            !(*self is Lot) ==> payload is None,
    {
        match *self {
            EventData::Lot { return_of_capital, capital_gains, amount, period_id, timestamp } => {
                Some((holder, return_of_capital, capital_gains, amount, period_id, timestamp))
            },
            _ => None,
        }
    }

    /// `(holder, capped_amount, reclassified_amount)`, where this is
    /// reclassification data.
    pub fn reclassify_payload<H>(&self, holder: H) -> (payload: Option<(H, i128, i128)>)
        ensures
            *self matches EventData::Reclassify { capped_amount, reclassified_amount } ==> payload
                == Some((holder, capped_amount, reclassified_amount)),
            !(*self is Reclassify) ==> payload is None,
    {
        match *self {
            EventData::Reclassify { capped_amount, reclassified_amount } => Some(
                (holder, capped_amount, reclassified_amount),
            ),
            _ => None,
        }
    }
}

impl TaxEvent {
    /// Builds the event that announces `data` for a holder of an offering.
    pub fn about(offering_id: &OfferingId, holder: &Address, data: EventData) -> (event: Self)
        ensures
            event@ == event_about(offering_id@, holder@, data),
            event.topic.issuer.strkey@ == offering_id.issuer.strkey@,
            event.topic.namespace.text@ == offering_id.namespace.text@,
            event.topic.token.strkey@ == offering_id.token.strkey@,
            event.holder.strkey@ == holder.strkey@,
            event.data == data,
            data is Rollover ==> event.topic.kind == EventKind::TaxRollover,
            data is Lot ==> event.topic.kind == EventKind::TaxLotV1,
            data is Reclassify ==> event.topic.kind == EventKind::TaxReclassify,
    {
        let kind: EventKind = match data {
            EventData::Rollover { .. } => EVENT_TAX_ROLLOVER,
            EventData::Lot { .. } => EVENT_TAX_LOT_V1,
            EventData::Reclassify { .. } => EVENT_TAX_RECLASSIFY,
        };
        TaxEvent {
            topic: EventTopic {
                kind,
                issuer: offering_id.issuer.clone(),
                namespace: offering_id.namespace.clone(),
                token: offering_id.token.clone(),
            },
            holder: holder.clone(),
            data,
        }
    }
}

} // verus!
