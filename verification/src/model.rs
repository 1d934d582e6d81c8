//! The data model: the snapshot of a purchase proposal handed to the
//! evaluator, and the presentation operations it returns.
//!
//! Each executable type has a ghost counterpart holding its fields as
//! mathematical values (`Seq<char>` for strings), reached through
//! `DeepView`; the evaluator's contract and the policy laws are stated over
//! those counterparts.

use vstd::prelude::*;

verus! {

/// A delivery address. Only `country_code` is always present; city and
/// province may be missing.
#[derive(Debug, Clone)]
pub struct Address {
    pub city: Option<String>,
    pub province_code: Option<String>,
    pub country_code: String,
}

pub ghost struct AddressView {
    pub city: Option<Seq<char>>,
    pub province_code: Option<Seq<char>>,
    pub country_code: Seq<char>,
}

impl DeepView for Address {
    type V = AddressView;

    open spec fn deep_view(&self) -> AddressView {
        AddressView {
            city: self.city.deep_view(),
            province_code: self.province_code.deep_view(),
            country_code: self.country_code.deep_view(),
        }
    }
}

/// The delivery section of a proposal; the address may be missing.
#[derive(Debug, Clone)]
pub struct Delivery {
    pub address: Option<Address>,
}

pub ghost struct DeliveryView {
    pub address: Option<AddressView>,
}

impl DeepView for Delivery {
    type V = DeliveryView;

    open spec fn deep_view(&self) -> DeliveryView {
        DeliveryView { address: self.address.deep_view() }
    }
}

/// A money amount: a decimal string plus a currency code.
#[derive(Debug, Clone)]
pub struct Price {
    pub amount: String,
    pub currency_code: String,
}

pub ghost struct PriceView {
    pub amount: Seq<char>,
    pub currency_code: Seq<char>,
}

impl DeepView for Price {
    type V = PriceView;

    open spec fn deep_view(&self) -> PriceView {
        PriceView {
            amount: self.amount.deep_view(),
            currency_code: self.currency_code.deep_view(),
        }
    }
}

/// The order totals of a proposal.
#[derive(Debug, Clone)]
pub struct Totals {
    pub total_price: Price,
}

pub ghost struct TotalsView {
    pub total_price: PriceView,
}

impl DeepView for Totals {
    type V = TotalsView;

    open spec fn deep_view(&self) -> TotalsView {
        TotalsView { total_price: self.total_price.deep_view() }
    }
}

/// A customer: a stable identifier and a set of tags.
#[derive(Debug, Clone)]
pub struct Customer {
    pub id: String,
    pub tags: Vec<String>,
}

pub ghost struct CustomerView {
    pub id: Seq<char>,
    pub tags: Seq<Seq<char>>,
}

impl DeepView for Customer {
    type V = CustomerView;

    open spec fn deep_view(&self) -> CustomerView {
        CustomerView { id: self.id.deep_view(), tags: self.tags.deep_view() }
    }
}

/// The buyer identity section; the customer may be missing.
#[derive(Debug, Clone)]
pub struct BuyerIdentity {
    pub customer: Option<Customer>,
}

pub ghost struct BuyerIdentityView {
    pub customer: Option<CustomerView>,
}

impl DeepView for BuyerIdentity {
    type V = BuyerIdentityView;

    open spec fn deep_view(&self) -> BuyerIdentityView {
        BuyerIdentityView { customer: self.customer.deep_view() }
    }
}

/// The purchase proposal under evaluation.
#[derive(Debug, Clone)]
pub struct PurchaseProposal {
    pub delivery: Delivery,
    pub totals: Totals,
    pub buyer_identity: Option<BuyerIdentity>,
}

pub ghost struct PurchaseProposalView {
    pub delivery: DeliveryView,
    pub totals: TotalsView,
    pub buyer_identity: Option<BuyerIdentityView>,
}

impl DeepView for PurchaseProposal {
    type V = PurchaseProposalView;

    open spec fn deep_view(&self) -> PurchaseProposalView {
        PurchaseProposalView {
            delivery: self.delivery.deep_view(),
            totals: self.totals.deep_view(),
            buyer_identity: self.buyer_identity.deep_view(),
        }
    }
}

/// A candidate payment method, identified by a stable id.
#[derive(Debug, Clone)]
pub struct PaymentMethod {
    pub id: String,
    pub name: String,
}

pub ghost struct PaymentMethodView {
    pub id: Seq<char>,
    pub name: Seq<char>,
}

impl DeepView for PaymentMethod {
    type V = PaymentMethodView;

    open spec fn deep_view(&self) -> PaymentMethodView {
        PaymentMethodView { id: self.id.deep_view(), name: self.name.deep_view() }
    }
}

/// The root input: the proposal and the candidate payment methods.
#[derive(Debug, Clone)]
pub struct Input {
    pub purchase_proposal: PurchaseProposal,
    pub payment_methods: Vec<PaymentMethod>,
}

pub ghost struct InputView {
    pub purchase_proposal: PurchaseProposalView,
    pub payment_methods: Seq<PaymentMethodView>,
}

impl DeepView for Input {
    type V = InputView;

    open spec fn deep_view(&self) -> InputView {
        InputView {
            purchase_proposal: self.purchase_proposal.deep_view(),
            payment_methods: self.payment_methods.deep_view(),
        }
    }
}

/// Instruction to remove a payment method from the presented list, with an
/// optional user-facing explanation.
#[derive(Debug, Clone, PartialEq, Eq)]
pub struct HideOperation {
    pub payment_method_id: String,
    pub message: Option<String>,
}

pub ghost struct HideOperationView {
    pub payment_method_id: Seq<char>,
    pub message: Option<Seq<char>>,
}

impl DeepView for HideOperation {
    type V = HideOperationView;

    open spec fn deep_view(&self) -> HideOperationView {
        HideOperationView {
            payment_method_id: self.payment_method_id.deep_view(),
            message: self.message.deep_view(),
        }
    }
}

/// Instruction to move a payment method to a given position.
#[derive(Debug, Clone, PartialEq, Eq)]
pub struct ReorderOperation {
    pub payment_method_id: String,
    pub index: u32,
}

pub ghost struct ReorderOperationView {
    pub payment_method_id: Seq<char>,
    pub index: u32,
}

impl DeepView for ReorderOperation {
    type V = ReorderOperationView;

    open spec fn deep_view(&self) -> ReorderOperationView {
        ReorderOperationView {
            payment_method_id: self.payment_method_id.deep_view(),
            index: self.index,
        }
    }
}

/// A presentation operation: exactly one of hide or reorder.
#[derive(Debug, Clone, PartialEq, Eq)]
pub enum Operation {
    Hide(HideOperation),
    Reorder(ReorderOperation),
}

pub ghost enum OperationView {
    Hide(HideOperationView),
    Reorder(ReorderOperationView),
}

impl DeepView for Operation {
    type V = OperationView;

    open spec fn deep_view(&self) -> OperationView {
        match self {
            Operation::Hide(h) => OperationView::Hide(h.deep_view()),
            Operation::Reorder(r) => OperationView::Reorder(r.deep_view()),
        }
    }
}

} // verus!
