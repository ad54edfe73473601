//! The identifiers of the ledger: who issues, who holds, and the key under
//! which an entry is stored.
//!
//! Identifiers hold strings, so two of them are the same where their views
//! are: contracts compare views.
use vstd::prelude::*;

verus! {

/// The address of an account or a contract, in its text form.
#[derive(Debug, PartialEq, Eq)]
pub struct Address {
    pub strkey: String,
}

/// A short name, such as the namespace of an offering.
#[derive(Debug, PartialEq, Eq)]
pub struct Symbol {
    pub text: String,
}

/// Identifies an offering: its issuer, the namespace that the issuer chose and
/// the token that pays for it.
#[derive(Debug, PartialEq, Eq)]
pub struct OfferingId {
    pub issuer: Address,
    pub namespace: Symbol,
    pub token: Address,
}

/// The key of an entry in persistent storage.
#[derive(Debug, PartialEq, Eq)]
pub enum DataKey2 {
    /// Remaining cost basis of a holder of an offering.
    RemainingBasis(OfferingId, Address),
    /// Tax summary of a holder of an offering for one fiscal year.
    TaxYearEntry(OfferingId, Address, u64),
    /// Month in which the fiscal years of an offering begin.
    FiscalStartMonth(OfferingId),
}

/// What an `OfferingId` says.
pub struct OfferingView {
    pub issuer: Seq<char>,
    pub namespace: Seq<char>,
    pub token: Seq<char>,
}

/// What a `DataKey2` says.
pub enum KeyView {
    RemainingBasis(OfferingView, Seq<char>),
    TaxYearEntry(OfferingView, Seq<char>, u64),
    FiscalStartMonth(OfferingView),
}

impl View for Address {
    type V = Seq<char>;

    open spec fn view(&self) -> Seq<char> {
        self.strkey@
    }
}

impl View for Symbol {
    type V = Seq<char>;

    open spec fn view(&self) -> Seq<char> {
        self.text@
    }
}

impl View for OfferingId {
    type V = OfferingView;

    open spec fn view(&self) -> OfferingView {
        OfferingView {
            issuer: self.issuer@,
            namespace: self.namespace@,
            token: self.token@,
        }
    }
}

impl View for DataKey2 {
    type V = KeyView;

    open spec fn view(&self) -> KeyView {
        match self {
            DataKey2::RemainingBasis(offering, holder) => KeyView::RemainingBasis(
                offering@,
                holder@,
            ),
            DataKey2::TaxYearEntry(offering, holder, year) => KeyView::TaxYearEntry(
                offering@,
                holder@,
                *year,
            ),
            DataKey2::FiscalStartMonth(offering) => KeyView::FiscalStartMonth(offering@),
        }
    }
}

impl Clone for Address {
    fn clone(&self) -> (copy: Self)
        ensures
            copy@ == self@,
            copy.strkey@ == self.strkey@,
    {
        Address { strkey: self.strkey.clone() }
    }
}

impl Clone for Symbol {
    fn clone(&self) -> (copy: Self)
        ensures
            copy@ == self@,
            copy.text@ == self.text@,
    {
        Symbol { text: self.text.clone() }
    }
}

impl Clone for OfferingId {
    fn clone(&self) -> (copy: Self)
        ensures
            copy@ == self@,
            copy.issuer.strkey@ == self.issuer.strkey@,
            copy.namespace.text@ == self.namespace.text@,
            copy.token.strkey@ == self.token.strkey@,
    {
        OfferingId {
            issuer: self.issuer.clone(),
            namespace: self.namespace.clone(),
            token: self.token.clone(),
        }
    }
}

/// An address is told by its text alone.
pub proof fn law_addresses_are_told_by_their_text(a: Address, b: Address)
    ensures
        a@ == b@ <==> a.strkey@ == b.strkey@,
        a@ == a.strkey@,
{
}

/// An offering is told by its issuer, its namespace and its token, and by all
/// three of them.
pub proof fn law_offerings_are_told_by_all_parts(a: OfferingId, b: OfferingId)
    ensures
        a@ == b@ <==> a.issuer.strkey@ == b.issuer.strkey@ && a.namespace.text@
            == b.namespace.text@ && a.token.strkey@ == b.token.strkey@,
        a@.issuer == a.issuer.strkey@,
        a@.namespace == a.namespace.text@,
        a@.token == a.token.strkey@,
{
}

/// The basis of a holder, each of the holder's years and an offering's start
/// month have keys of their own: two keys are the same only where they are of
/// one kind and agree in offering, holder and year.
pub proof fn law_keys_are_told_by_all_parts(
    o0: OfferingId,
    h0: Address,
    y0: u64,
    o1: OfferingId,
    h1: Address,
    y1: u64,
)
    ensures
        DataKey2::RemainingBasis(o0, h0)@ == DataKey2::RemainingBasis(o1, h1)@ <==> o0@ == o1@
            && h0.strkey@ == h1.strkey@,
        DataKey2::TaxYearEntry(o0, h0, y0)@ == DataKey2::TaxYearEntry(o1, h1, y1)@ <==> o0@ == o1@
            && h0.strkey@ == h1.strkey@ && y0 == y1,
        DataKey2::FiscalStartMonth(o0)@ == DataKey2::FiscalStartMonth(o1)@ <==> o0@ == o1@,
        DataKey2::RemainingBasis(o0, h0)@ != DataKey2::TaxYearEntry(o1, h1, y1)@,
        DataKey2::RemainingBasis(o0, h0)@ != DataKey2::FiscalStartMonth(o1)@,
        DataKey2::TaxYearEntry(o0, h0, y0)@ != DataKey2::FiscalStartMonth(o1)@,
{
}

impl Address {
    /// Whether both name the same account or contract.
    pub fn same(&self, other: &Self) -> (same: bool)
        ensures
            same == (self@ == other@),
            same == (self.strkey@ == other.strkey@),
    {
        self.strkey == other.strkey
    }
}

impl OfferingId {
    /// Whether both name the same offering.
    pub fn same(&self, other: &Self) -> (same: bool)
        ensures
            same == (self@ == other@),
            same == (self.issuer.strkey@ == other.issuer.strkey@ && self.namespace.text@
                == other.namespace.text@ && self.token.strkey@ == other.token.strkey@),
    {
        self.issuer.same(&other.issuer) && self.namespace.text == other.namespace.text
            && self.token.same(&other.token)
    }
}

impl DataKey2 {
    /// Whether both are the key of the same entry.
    pub fn same(&self, other: &Self) -> (same: bool)
        ensures
            same == (self@ == other@),
    {
        match (self, other) {
            (DataKey2::RemainingBasis(o0, h0), DataKey2::RemainingBasis(o1, h1)) => {
                o0.same(o1) && h0.same(h1)
            },
            (DataKey2::TaxYearEntry(o0, h0, y0), DataKey2::TaxYearEntry(o1, h1, y1)) => {
                o0.same(o1) && h0.same(h1) && *y0 == *y1
            },
            (DataKey2::FiscalStartMonth(o0), DataKey2::FiscalStartMonth(o1)) => o0.same(o1),
            _ => false,
        }
    }
}

} // verus!
