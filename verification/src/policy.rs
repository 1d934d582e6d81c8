//! The policy evaluator: which payment methods to hide and how to reorder
//! the rest, for one checkout proposal.
//!
//! Three rules are evaluated in a fixed order — delivery city, order total,
//! blocked customer — and each may set the hide flag for the
//! cash-on-delivery method and overwrite the pending message, so the last
//! firing rule's message wins. A reorder of the primary online payment
//! method to the front is emitted unconditionally.

use vstd::prelude::*;
use crate::amount::TotalBand;
use crate::amount::spec_total_band;
use crate::amount::total_band;
use crate::model::HideOperation;
use crate::model::Input;
use crate::model::InputView;
use crate::model::Operation;
use crate::model::OperationView;
use crate::model::HideOperationView;
use crate::model::ReorderOperation;
use crate::model::ReorderOperationView;
use crate::text::contains_chars;
use crate::text::contains_seq;
use crate::text::lower_of;
use crate::text::lowercase_chars;
use crate::text::str_eq;
use vstd::string::StringExecFns;

verus! {

/// Identifier of the cash-on-delivery payment method.
pub open spec fn cod_method_id() -> Seq<char> {
    "shopify_payments_cash_on_delivery"@
}

/// Identifier of the primary online payment method, moved to the front.
pub open spec fn primary_method_id() -> Seq<char> {
    "shopify_payments"@
}

/// Does the lowercased city contain an allow-listed city name? Matching is
/// by contiguous occurrence, so "jeddah district" matches "jeddah".
pub open spec fn city_allowed(lc: Seq<char>) -> bool {
    ||| contains_seq(lc, "riyadh"@)
    ||| contains_seq(lc, "jeddah"@)
    ||| contains_seq(lc, "dammam"@)
    ||| contains_seq(lc, "khobar"@)
    ||| contains_seq(lc, "dhahran"@)
    ||| contains_seq(lc, "makkah"@)
    ||| contains_seq(lc, "madinah"@)
    ||| contains_seq(lc, "taif"@)
    ||| contains_seq(lc, "tabuk"@)
    ||| contains_seq(lc, "abha"@)
}

/// Is `t` one of the customer tags that block cash on delivery?
pub open spec fn is_blocked_tag(t: Seq<char>) -> bool {
    ||| t == "cod_blocked"@
    ||| t == "fraud_risk"@
    ||| t == "payment_default"@
}

/// The delivery city of the proposal, if an address with a city is present.
pub open spec fn spec_city(iv: InputView) -> Option<Seq<char>> {
    match iv.purchase_proposal.delivery.address {
        Some(a) => a.city,
        None => None,
    }
}

/// The order-total amount string of the proposal.
pub open spec fn spec_amount(iv: InputView) -> Seq<char> {
    iv.purchase_proposal.totals.total_price.amount
}

/// The customer's tags, or the empty sequence when no customer is present.
pub open spec fn spec_tags(iv: InputView) -> Seq<Seq<char>> {
    match iv.purchase_proposal.buyer_identity {
        Some(b) => match b.customer {
            Some(c) => c.tags,
            None => Seq::empty(),
        },
        None => Seq::empty(),
    }
}

/// Does the customer carry a tag that blocks cash on delivery?
pub open spec fn customer_blocked(iv: InputView) -> bool {
    exists|i: int| 0 <= i < spec_tags(iv).len() && is_blocked_tag(#[trigger] spec_tags(iv)[i])
}

/// Is the cash-on-delivery method among the candidates?
pub open spec fn has_cod(iv: InputView) -> bool {
    exists|i: int|
        0 <= i < iv.payment_methods.len() && (#[trigger] iv.payment_methods[i]).id
            == cod_method_id()
}

/// The city rule: fires when no city is given, or when the lowercased city
/// contains no allow-listed city name.
pub open spec fn city_rule_fires(iv: InputView) -> bool {
    match spec_city(iv) {
        None => true,
        Some(c) => !city_allowed(lower_of(c)),
    }
}

/// The total rule: fires when the order total falls outside the bounds.
pub open spec fn total_rule_fires(iv: InputView) -> bool {
    spec_total_band(spec_amount(iv)) != TotalBand::Within
}

/// Is the cash-on-delivery method hidden for this proposal?
pub open spec fn cod_hidden(iv: InputView) -> bool {
    ||| city_rule_fires(iv)
    ||| total_rule_fires(iv)
    ||| customer_blocked(iv)
}

/// Message when no delivery address or city is given.
pub open spec fn msg_no_address() -> Seq<char> {
    "Please provide a delivery address to see available payment methods."@
}

/// Message when the delivery city is not allow-listed; it names the city.
pub open spec fn msg_city_not_allowed(city: Seq<char>) -> Seq<char> {
    "Cash on Delivery is not available for "@ + city
        + ". Available cities: Riyadh, Jeddah, Dammam, and select major cities."@
}

/// Message when the order total is below the minimum.
pub open spec fn msg_below_min() -> Seq<char> {
    "Cash on Delivery is only available for orders over 100 SAR."@
}

/// Message when the order total is above the maximum.
pub open spec fn msg_above_max() -> Seq<char> {
    "Cash on Delivery is only available for orders up to 5,000 SAR. For larger orders, please use online payment."@
}

/// Message when the customer is blocked from cash on delivery.
pub open spec fn msg_blocked() -> Seq<char> {
    "Cash on Delivery is not available for your account. Please use online payment methods."@
}

/// The message carried by the hide operation: the rules run in the order
/// city, total, blocked customer, and the last rule that fires sets it.
pub open spec fn hide_message(iv: InputView) -> Seq<char>
    recommends
        cod_hidden(iv),
{
    if customer_blocked(iv) {
        msg_blocked()
    } else if spec_total_band(spec_amount(iv)) == TotalBand::BelowMin {
        msg_below_min()
    } else if spec_total_band(spec_amount(iv)) == TotalBand::AboveMax {
        msg_above_max()
    } else {
        match spec_city(iv) {
            None => msg_no_address(),
            Some(c) => msg_city_not_allowed(c),
        }
    }
}

/// The reorder operation emitted with every output.
pub open spec fn reorder_op() -> OperationView {
    OperationView::Reorder(
        ReorderOperationView { payment_method_id: primary_method_id(), index: 0u32 },
    )
}

/// The hide operation emitted when the cash-on-delivery method is hidden.
pub open spec fn hide_op(iv: InputView) -> OperationView {
    OperationView::Hide(
        HideOperationView { payment_method_id: cod_method_id(), message: Some(hide_message(iv)) },
    )
}

/// The full output for a proposal: the hide operation when the
/// cash-on-delivery method is present and hidden, then the reorder.
pub open spec fn spec_operations(iv: InputView) -> Seq<OperationView> {
    if has_cod(iv) && cod_hidden(iv) {
        seq![hide_op(iv), reorder_op()]
    } else {
        seq![reorder_op()]
    }
}

/// Does the lowercased city contain an allow-listed city name?
fn city_allowed_exec(lc: &Vec<char>) -> (r: bool)
    ensures
        r == city_allowed(lc@),
{
    contains_chars(lc, "riyadh") || contains_chars(lc, "jeddah") || contains_chars(lc, "dammam")
        || contains_chars(lc, "khobar") || contains_chars(lc, "dhahran") || contains_chars(
        lc,
        "makkah",
    ) || contains_chars(lc, "madinah") || contains_chars(lc, "taif") || contains_chars(
        lc,
        "tabuk",
    ) || contains_chars(lc, "abha")
}

/// Is `t` one of the tags that block cash on delivery?
fn tag_blocked_exec(t: &String) -> (r: bool)
    ensures
        r == is_blocked_tag(t@),
{
    str_eq(t.as_str(), "cod_blocked") || str_eq(t.as_str(), "fraud_risk") || str_eq(
        t.as_str(),
        "payment_default",
    )
}

/// Does any tag in `tags` block cash on delivery?
fn any_tag_blocked(tags: &Vec<String>) -> (r: bool)
    ensures
        r == exists|i: int|
            0 <= i < tags.deep_view().len() && is_blocked_tag(#[trigger] tags.deep_view()[i]),
{
    let n = tags.len();
    let mut i: usize = 0;
    while i < n
        invariant
            n == tags@.len(),
            i <= n,
            forall|k: int| 0 <= k < i ==> !is_blocked_tag(#[trigger] tags.deep_view()[k]),
        decreases n - i,
    {
        if tag_blocked_exec(&tags[i]) {
            proof {
                assert(tags.deep_view()[i as int] == tags@[i as int]@);
            }
            return true;
        }
        i = i + 1;
    }
    false
}

/// Evaluate one proposal: decide whether to hide the cash-on-delivery
/// method and emit the unconditional reorder of the primary method.
pub fn evaluate_payment_methods(input: &Input) -> (operations: Vec<Operation>)
    ensures
        operations.deep_view() == spec_operations(input.deep_view()),
{
    let ghost iv = input.deep_view();
    let mut operations: Vec<Operation> = Vec::new();

    // The delivery city, raw for the message and lowercased for matching.
    let mut raw_city: Option<&String> = None;
    let mut lc_city: Option<Vec<char>> = None;
    if let Some(addr) = &input.purchase_proposal.delivery.address {
        if let Some(c) = &addr.city {
            raw_city = Some(c);
            lc_city = Some(lowercase_chars(c.as_str()));
        }
    }
    proof {
        assert(match (lc_city, spec_city(iv)) {
            (Some(v), Some(c)) => v@ == lower_of(c),
            (None, None) => true,
            _ => false,
        });
        assert(match (raw_city, spec_city(iv)) {
            (Some(v), Some(c)) => v@ == c,
            (None, None) => true,
            _ => false,
        });
    }

    // Where the order total lies relative to the bounds.
    let band = total_band(input.purchase_proposal.totals.total_price.amount.as_str());

    // Does the customer carry a blocking tag?
    let mut blocked = false;
    if let Some(bi) = &input.purchase_proposal.buyer_identity {
        if let Some(customer) = &bi.customer {
            blocked = any_tag_blocked(&customer.tags);
            proof {
                assert(spec_tags(iv) == customer.tags.deep_view());
                assert(blocked == customer_blocked(iv)) by {
                    let tv = customer.tags.deep_view();
                    if blocked {
                        let w = choose|i: int|
                            0 <= i < tv.len() && is_blocked_tag(#[trigger] tv[i]);
                        assert(is_blocked_tag(spec_tags(iv)[w]));
                    } else if customer_blocked(iv) {
                        let w = choose|i: int|
                            0 <= i < spec_tags(iv).len() && is_blocked_tag(
                                #[trigger] spec_tags(iv)[i],
                            );
                        assert(is_blocked_tag(tv[w]));
                        assert(false);
                    }
                }
            }
        }
    }
    proof {
        assert(blocked == customer_blocked(iv));
    }

    // Find the cash-on-delivery method among the candidates.
    let n = input.payment_methods.len();
    let mut i: usize = 0;
    let mut found: Option<usize> = None;
    while found.is_none() && i < n
        invariant
            n == iv.payment_methods.len(),
            iv == input.deep_view(),
            i <= n,
            match found {
                Some(j) => j < n && iv.payment_methods[j as int].id == cod_method_id(),
                None => forall|k: int|
                    0 <= k < i ==> (#[trigger] iv.payment_methods[k]).id != cod_method_id(),
            },
        decreases n - i, (if found is Some { 0int } else { 1int }),
    {
        if str_eq(input.payment_methods[i].id.as_str(), "shopify_payments_cash_on_delivery") {
            found = Some(i);
        } else {
            i = i + 1;
        }
    }
    proof {
        assert(found is Some ==> has_cod(iv));
        assert(found is None ==> !has_cod(iv));
    }

    if let Some(ci) = found {
        let mut hide_cod = false;
        let mut message: Option<String> = None;

        // City rule.
        match &lc_city {
            Some(city_lc) => {
                if !city_allowed_exec(city_lc) {
                    hide_cod = true;
                    let rc = match raw_city {
                        Some(rc) => rc,
                        None => unreached(),
                    };
                    let mut m = String::from_str("Cash on Delivery is not available for ");
                    m.append(rc.as_str());
                    m.append(
                        ". Available cities: Riyadh, Jeddah, Dammam, and select major cities.",
                    );
                    message = Some(m);
                }
            },
            None => {
                hide_cod = true;
                message = Some(
                    String::from_str(
                        "Please provide a delivery address to see available payment methods.",
                    ),
                );
            },
        }
        proof {
            assert(hide_cod == city_rule_fires(iv));
            assert(hide_cod ==> (message matches Some(m) && m@ == (match spec_city(iv) {
                None => msg_no_address(),
                Some(c) => msg_city_not_allowed(c),
            })));
        }

        // Total rule: evaluated unconditionally, so its message can
        // overwrite the city rule's.
        match band {
            TotalBand::BelowMin => {
                hide_cod = true;
                message = Some(
                    String::from_str("Cash on Delivery is only available for orders over 100 SAR."),
                );
            },
            TotalBand::AboveMax => {
                hide_cod = true;
                message = Some(
                    String::from_str(
                        "Cash on Delivery is only available for orders up to 5,000 SAR. For larger orders, please use online payment.",
                    ),
                );
            },
            TotalBand::Within => {
            },
        }

        // Blocked-customer rule: evaluated last, so its message wins.
        if blocked {
            hide_cod = true;
            message = Some(
                String::from_str(
                    "Cash on Delivery is not available for your account. Please use online payment methods.",
                ),
            );
        }
        proof {
            assert(hide_cod == cod_hidden(iv));
            assert(hide_cod ==> (message matches Some(m) && m@ == hide_message(iv)));
        }

        if hide_cod {
            let cod_id = input.payment_methods[ci].id.clone();
            let hop = Operation::Hide(
                HideOperation { payment_method_id: cod_id, message },
            );
            proof {
                assert(hop.deep_view() == hide_op(iv));
            }
            operations.push(hop);
        }
    }

    // Reorder the primary online payment method to the front, always.
    let rop = Operation::Reorder(
        ReorderOperation { payment_method_id: String::from_str("shopify_payments"), index: 0 },
    );
    proof {
        assert(rop.deep_view() == reorder_op());
    }
    operations.push(rop);
    proof {
        assert(operations.deep_view() =~= spec_operations(iv));
    }
    operations
}

/// When the cash-on-delivery method is absent from the candidates, no hide
/// operation is produced and the output is exactly the one reorder.
pub proof fn lemma_no_cod_means_no_hide(iv: InputView)
    requires
        !has_cod(iv),
    ensures
        spec_operations(iv).len() == 1,
        spec_operations(iv)[0] == reorder_op(),
        forall|i: int| 0 <= i < spec_operations(iv).len() ==> !(#[trigger] spec_operations(
            iv,
        )[i] is Hide),
{
}

/// An allow-listed city, a total within the bounds and no blocking tag:
/// the cash-on-delivery method is not hidden.
pub proof fn lemma_allowed_checkout_keeps_cod(iv: InputView)
    requires
        spec_city(iv) matches Some(c) && city_allowed(lower_of(c)),
        spec_total_band(spec_amount(iv)) == TotalBand::Within,
        !customer_blocked(iv),
    ensures
        spec_operations(iv).len() == 1,
        spec_operations(iv)[0] == reorder_op(),
        forall|i: int| 0 <= i < spec_operations(iv).len() ==> !(#[trigger] spec_operations(
            iv,
        )[i] is Hide),
{
}

/// A city that matches no allow-list entry hides the cash-on-delivery
/// method, whatever the total or the tags.
pub proof fn lemma_disallowed_city_hides_cod(iv: InputView)
    requires
        has_cod(iv),
        spec_city(iv) matches Some(c) && !city_allowed(lower_of(c)),
    ensures
        spec_operations(iv).len() == 2,
        spec_operations(iv)[0] == hide_op(iv),
        spec_operations(iv)[0] is Hide,
{
}

/// A total below the minimum or above the maximum hides the
/// cash-on-delivery method, even for an allow-listed city.
pub proof fn lemma_total_out_of_bounds_hides_cod(iv: InputView)
    requires
        has_cod(iv),
        spec_total_band(spec_amount(iv)) != TotalBand::Within,
    ensures
        spec_operations(iv).len() == 2,
        spec_operations(iv)[0] == hide_op(iv),
        spec_operations(iv)[0] is Hide,
{
}

/// A blocked customer hides the cash-on-delivery method, and the final
/// message is the blocked-customer one even when city or total also fail.
pub proof fn lemma_blocked_customer_message_wins(iv: InputView)
    requires
        has_cod(iv),
        customer_blocked(iv),
    ensures
        spec_operations(iv).len() == 2,
        spec_operations(iv)[0] == hide_op(iv),
        hide_message(iv) == msg_blocked(),
{
}

/// Every output ends with the reorder of the primary online payment method
/// to index 0, whatever the other conditions.
pub proof fn lemma_reorder_always_present(iv: InputView)
    ensures
        spec_operations(iv).len() >= 1,
        spec_operations(iv).last() == reorder_op(),
        reorder_op() matches OperationView::Reorder(r) && r.index == 0 && r.payment_method_id
            == primary_method_id(),
{
}

/// The output is one of two shapes: the reorder alone, or one hide followed
/// by the reorder — so at most one hide operation per evaluation.
pub proof fn lemma_output_shape(iv: InputView)
    ensures
        spec_operations(iv) == seq![reorder_op()] || spec_operations(iv) == seq![
            hide_op(iv),
            reorder_op(),
        ],
        forall|i: int, j: int|
            0 <= i < j < spec_operations(iv).len() ==> !((#[trigger] spec_operations(iv)[i]) is Hide
                && (#[trigger] spec_operations(iv)[j]) is Hide),
{
}

} // verus!
