use cod_policy::Address;
use cod_policy::BuyerIdentity;
use cod_policy::Customer;
use cod_policy::Delivery;
use cod_policy::Input;
use cod_policy::Operation;
use cod_policy::PaymentMethod;
use cod_policy::Price;
use cod_policy::PurchaseProposal;
use cod_policy::Totals;
use cod_policy::evaluate_payment_methods;

fn create_test_input(city: &str, total: f64, customer_tags: Vec<String>) -> Input {
    Input {
        purchase_proposal: PurchaseProposal {
            delivery: Delivery {
                address: Some(Address {
                    city: Some(city.to_string()),
                    province_code: None,
                    country_code: "SA".to_string(),
                }),
            },
            totals: Totals {
                total_price: Price {
                    amount: total.to_string(),
                    currency_code: "SAR".to_string(),
                },
            },
            buyer_identity: Some(BuyerIdentity {
                customer: Some(Customer {
                    id: "gid://shopify/Customer/123".to_string(),
                    tags: customer_tags,
                }),
            }),
        },
        payment_methods: vec![PaymentMethod {
            id: "shopify_payments_cash_on_delivery".to_string(),
            name: "Cash on Delivery".to_string(),
        }],
    }
}

fn hide_ops(operations: &[Operation]) -> Vec<&Operation> {
    operations
        .iter()
        .filter(|op| matches!(op, Operation::Hide(_)))
        .collect()
}

fn hide_message(operations: &[Operation]) -> Option<String> {
    operations.iter().find_map(|op| match op {
        Operation::Hide(h) => h.message.clone(),
        Operation::Reorder(_) => None,
    })
}

#[test]
fn test_riyadh_cod_allowed() {
    let input = create_test_input("Riyadh", 500.0, vec![]);
    let operations = evaluate_payment_methods(&input);

    // Should NOT have hide operation for COD
    assert!(hide_ops(&operations).is_empty());
}

#[test]
fn test_remote_city_cod_blocked() {
    let input = create_test_input("Remote Village", 500.0, vec![]);
    let operations = evaluate_payment_methods(&input);

    // Should have hide operation for COD
    assert!(!hide_ops(&operations).is_empty());
}

#[test]
fn test_small_order_cod_blocked() {
    let input = create_test_input("Riyadh", 50.0, vec![]);
    let operations = evaluate_payment_methods(&input);

    assert!(!hide_ops(&operations).is_empty());
}

#[test]
fn test_jeddah_normal_order_reorder_only() {
    let mut input = create_test_input("Jeddah", 0.0, vec![]);
    input.purchase_proposal.totals.total_price.amount = "250.00".to_string();
    let operations = evaluate_payment_methods(&input);

    assert_eq!(operations.len(), 1);
    match &operations[0] {
        Operation::Reorder(r) => {
            assert_eq!(r.payment_method_id, "shopify_payments");
            assert_eq!(r.index, 0);
        }
        Operation::Hide(_) => panic!("no hide operation expected"),
    }
}

#[test]
fn test_jeddah_small_order_minimum_message() {
    let mut input = create_test_input("Jeddah", 0.0, vec![]);
    input.purchase_proposal.totals.total_price.amount = "50.00".to_string();
    let operations = evaluate_payment_methods(&input);

    assert_eq!(operations.len(), 2);
    match &operations[0] {
        Operation::Hide(h) => {
            assert_eq!(h.payment_method_id, "shopify_payments_cash_on_delivery");
            assert_eq!(
                h.message.as_deref(),
                Some("Cash on Delivery is only available for orders over 100 SAR.")
            );
        }
        Operation::Reorder(_) => panic!("hide operation expected first"),
    }
    assert!(matches!(&operations[1], Operation::Reorder(_)));
}

#[test]
fn test_uppercase_city_still_allowed() {
    let input = create_test_input("RIYADH", 500.0, vec![]);
    let operations = evaluate_payment_methods(&input);

    assert!(hide_ops(&operations).is_empty());
}

#[test]
fn test_city_with_district_suffix_allowed() {
    let input = create_test_input("Jeddah District", 500.0, vec![]);
    let operations = evaluate_payment_methods(&input);

    assert!(hide_ops(&operations).is_empty());
}

#[test]
fn test_remote_city_message_names_city() {
    let input = create_test_input("Remote Village", 500.0, vec![]);
    let operations = evaluate_payment_methods(&input);

    assert_eq!(
        hide_message(&operations).as_deref(),
        Some(
            "Cash on Delivery is not available for Remote Village. \
             Available cities: Riyadh, Jeddah, Dammam, and select major cities."
        )
    );
}

#[test]
fn test_missing_address_hides_cod() {
    let mut input = create_test_input("Riyadh", 500.0, vec![]);
    input.purchase_proposal.delivery.address = None;
    let operations = evaluate_payment_methods(&input);

    assert_eq!(
        hide_message(&operations).as_deref(),
        Some("Please provide a delivery address to see available payment methods.")
    );
}

#[test]
fn test_missing_city_hides_cod() {
    let mut input = create_test_input("Riyadh", 500.0, vec![]);
    input
        .purchase_proposal
        .delivery
        .address
        .as_mut()
        .unwrap()
        .city = None;
    let operations = evaluate_payment_methods(&input);

    assert_eq!(
        hide_message(&operations).as_deref(),
        Some("Please provide a delivery address to see available payment methods.")
    );
}

#[test]
fn test_large_order_maximum_message() {
    let input = create_test_input("Riyadh", 9999.0, vec![]);
    let operations = evaluate_payment_methods(&input);

    assert_eq!(
        hide_message(&operations).as_deref(),
        Some(
            "Cash on Delivery is only available for orders up to 5,000 SAR. \
             For larger orders, please use online payment."
        )
    );
}

#[test]
fn test_total_boundaries() {
    let cases = vec![
        ("100", true),
        ("99.99", false),
        ("5000", true),
        ("5000.00", true),
        ("5000.01", false),
    ];
    for (amount, allowed) in cases {
        let mut input = create_test_input("Riyadh", 0.0, vec![]);
        input.purchase_proposal.totals.total_price.amount = amount.to_string();
        let operations = evaluate_payment_methods(&input);
        assert_eq!(
            hide_ops(&operations).is_empty(),
            allowed,
            "amount {} misclassified",
            amount
        );
    }
}

#[test]
fn test_unparseable_total_treated_as_minimum_failure() {
    let mut input = create_test_input("Riyadh", 0.0, vec![]);
    input.purchase_proposal.totals.total_price.amount = "not a number".to_string();
    let operations = evaluate_payment_methods(&input);

    assert_eq!(
        hide_message(&operations).as_deref(),
        Some("Cash on Delivery is only available for orders over 100 SAR.")
    );
}

#[test]
fn test_negative_total_hides_cod() {
    let mut input = create_test_input("Riyadh", 0.0, vec![]);
    input.purchase_proposal.totals.total_price.amount = "-50".to_string();
    let operations = evaluate_payment_methods(&input);

    assert!(!hide_ops(&operations).is_empty());
}

#[test]
fn test_blocked_tag_hides_cod() {
    let input = create_test_input("Riyadh", 500.0, vec!["fraud_risk".to_string()]);
    let operations = evaluate_payment_methods(&input);

    assert_eq!(
        hide_message(&operations).as_deref(),
        Some(
            "Cash on Delivery is not available for your account. \
             Please use online payment methods."
        )
    );
}

#[test]
fn test_blocked_customer_message_wins() {
    let mut input = create_test_input("Nowhere", 0.0, vec!["cod_blocked".to_string()]);
    input.purchase_proposal.totals.total_price.amount = "10".to_string();
    let operations = evaluate_payment_methods(&input);

    assert_eq!(operations.len(), 2);
    assert_eq!(
        hide_message(&operations).as_deref(),
        Some(
            "Cash on Delivery is not available for your account. \
             Please use online payment methods."
        )
    );
}

#[test]
fn test_cod_absent_reorder_only() {
    let mut input = create_test_input("Remote Village", 50.0, vec!["fraud_risk".to_string()]);
    input.payment_methods = vec![PaymentMethod {
        id: "shopify_payments".to_string(),
        name: "Card".to_string(),
    }];
    let operations = evaluate_payment_methods(&input);

    assert_eq!(operations.len(), 1);
    match &operations[0] {
        Operation::Reorder(r) => {
            assert_eq!(r.payment_method_id, "shopify_payments");
            assert_eq!(r.index, 0);
        }
        Operation::Hide(_) => panic!("no hide operation expected"),
    }
}

#[test]
fn test_reorder_always_last_with_index_zero() {
    let inputs = vec![
        create_test_input("Riyadh", 500.0, vec![]),
        create_test_input("Remote Village", 500.0, vec![]),
        create_test_input("Riyadh", 50.0, vec!["cod_blocked".to_string()]),
    ];
    for input in &inputs {
        let operations = evaluate_payment_methods(input);
        match operations.last().unwrap() {
            Operation::Reorder(r) => {
                assert_eq!(r.payment_method_id, "shopify_payments");
                assert_eq!(r.index, 0);
            }
            Operation::Hide(_) => panic!("last operation must be the reorder"),
        }
    }
}

fn operations_to_json(operations: &[Operation]) -> String {
    let parts: Vec<String> = operations
        .iter()
        .map(|op| match op {
            Operation::Hide(h) => {
                let message = match &h.message {
                    Some(m) => serde_json::to_string(m).unwrap(),
                    None => "null".to_string(),
                };
                format!(
                    "{{\"type\":\"hide\",\"hide\":{{\"paymentMethodId\":{},\"message\":{}}},\"reorder\":null}}",
                    serde_json::to_string(&h.payment_method_id).unwrap(),
                    message
                )
            }
            Operation::Reorder(r) => format!(
                "{{\"type\":\"reorder\",\"hide\":null,\"reorder\":{{\"paymentMethodId\":{},\"index\":{}}}}}",
                serde_json::to_string(&r.payment_method_id).unwrap(),
                r.index
            ),
        })
        .collect();
    format!("{{\"operations\":[{}]}}", parts.join(","))
}

#[test]
fn test_output_schema_round_trip() {
    let input = create_test_input("Remote Village", 50.0, vec!["cod_blocked".to_string()]);
    let operations = evaluate_payment_methods(&input);

    let text = operations_to_json(&operations);
    let value: serde_json::Value = serde_json::from_str(&text).unwrap();
    let text_again = serde_json::to_string(&value).unwrap();
    let value_again: serde_json::Value = serde_json::from_str(&text_again).unwrap();
    assert_eq!(value, value_again);

    let ops = value.get("operations").unwrap().as_array().unwrap();
    assert_eq!(ops.len(), operations.len());
    assert_eq!(ops[0].get("type").unwrap(), "hide");
    assert_eq!(ops[1].get("type").unwrap(), "reorder");
}
