//! A deterministic checkout-policy evaluator.
//!
//! Given a snapshot of a purchase proposal (delivery address, order totals,
//! buyer identity, candidate payment methods), the library decides which
//! payment methods to hide and how to reorder the remaining ones. The rules
//! concern a single cash-on-delivery method: it is hidden unless the
//! delivery city is on an allow-list, the order total lies within fixed
//! bounds, and the customer carries none of the blocked tags.

use vstd::prelude::*;

pub mod amount;
pub mod model;
pub mod policy;
pub mod text;

verus! {

pub use crate::amount::MAX_TOTAL;
pub use crate::amount::MIN_TOTAL;
pub use crate::amount::TotalBand;
pub use crate::amount::spec_total_band;
pub use crate::amount::total_band;
pub use crate::model::Address;
pub use crate::model::BuyerIdentity;
pub use crate::model::Customer;
pub use crate::model::Delivery;
pub use crate::model::HideOperation;
pub use crate::model::Input;
pub use crate::model::Operation;
pub use crate::model::PaymentMethod;
pub use crate::model::Price;
pub use crate::model::PurchaseProposal;
pub use crate::model::ReorderOperation;
pub use crate::model::Totals;
pub use crate::policy::evaluate_payment_methods;
pub use crate::text::contains_seq;
pub use crate::text::lower_of;

} // verus!
