//! Identifiers of venues, accounts, orders, positions and the other parties
//! that the cache indexes by.

use crate::validation::{valid_string, validate_identifier, ValidationError};
use std::marker::PhantomData;
use vstd::prelude::*;

verus! {

/// A validated identifier string. The parameter `K` names what is identified,
/// so that a venue cannot be handed in where an order is expected.
pub struct Id<K> {
    value: String,
    kind: PhantomData<K>,
}

impl<K> View for Id<K> {
    type V = Seq<char>;

    closed spec fn view(&self) -> Seq<char> {
        self.value@
    }
}

impl<K> Id<K> {
    /// Every identifier that the constructor hands out holds a valid string.
    #[verifier::type_invariant]
    closed spec fn holds_valid_string(&self) -> bool {
        valid_string(self.value@)
    }

    /// Builds an identifier from `value`, or rejects a string that is empty,
    /// blank or not ASCII.
    pub fn new(value: &str) -> (r: Result<Self, ValidationError>)
        ensures
            valid_string(value@) ==> r is Ok && r->Ok_0@ == value@,
            !valid_string(value@) ==> r is Err && r->Err_0 == ValidationError::InvalidIdentifier,
    {
        match validate_identifier(value) {
            Ok(()) => Ok(Id { value: value.to_owned(), kind: PhantomData }),
            Err(e) => Err(e),
        }
    }

    /// A second identifier with the same string.
    pub fn duplicate(&self) -> (copy: Self)
        ensures
            copy@ == self@,
    {
        proof {
            use_type_invariant(self);
        }
        Id { value: self.value.clone(), kind: PhantomData }
    }

    /// Whether the two identifiers hold the same string.
    pub fn same_as(&self, other: &Self) -> (same: bool)
        ensures
            same == (self@ == other@),
    {
        self.value == other.value
    }

    /// The identifier's string.
    pub fn as_str(&self) -> (s: &str)
        ensures
            s@ == self@,
            valid_string(s@),
    {
        proof {
            use_type_invariant(self);
        }
        self.value.as_str()
    }
}

/// Marks the identifier of a trading venue.
pub struct VenueKind;

/// Marks the identifier of an account.
pub struct AccountKind;

/// Marks the identifier that the system gave an order.
pub struct ClientOrderKind;

/// Marks the identifier that a venue gave an order.
pub struct VenueOrderKind;

/// Marks the identifier of a position.
pub struct PositionKind;

/// Marks the identifier of a strategy.
pub struct StrategyKind;

/// Marks the identifier of an execution algorithm.
pub struct ExecAlgorithmKind;

/// Marks the identifier of a component.
pub struct ComponentKind;

/// Marks the identifier of an instrument.
pub struct InstrumentKind;

/// Marks the identifier of a client.
pub struct ClientKind;

/// Marks the code of a currency.
pub struct CurrencyKind;

pub type Venue = Id<VenueKind>;

pub type AccountId = Id<AccountKind>;

pub type ClientOrderId = Id<ClientOrderKind>;

pub type VenueOrderId = Id<VenueOrderKind>;

pub type PositionId = Id<PositionKind>;

pub type StrategyId = Id<StrategyKind>;

pub type ExecAlgorithmId = Id<ExecAlgorithmKind>;

pub type ComponentId = Id<ComponentKind>;

pub type InstrumentId = Id<InstrumentKind>;

pub type ClientId = Id<ClientKind>;

pub type CurrencyCode = Id<CurrencyKind>;

} // verus!
