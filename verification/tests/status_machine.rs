use auth_plus_billing::dto::charge::ChargeStatus;
use auth_plus_billing::dto::invoice::InvoiceStatus;
use auth_plus_billing::dto::payment_method::Method;
use auth_plus_billing::gateway::StripePaymentMethod;
use auth_plus_billing::usecase::invoice_update_usecase::InvoiceUpdateUsecase;

fn all_statuses() -> Vec<InvoiceStatus> {
    vec![
        InvoiceStatus::Draft,
        InvoiceStatus::Pending,
        InvoiceStatus::ChargedWithError,
        InvoiceStatus::Paid,
        InvoiceStatus::Cancelled,
        InvoiceStatus::Uncollectible,
        InvoiceStatus::Refunded,
        InvoiceStatus::InProtest,
        InvoiceStatus::Chargeback,
        InvoiceStatus::UnmappedStatus,
    ]
}

fn expected_transition(old: InvoiceStatus, new: InvoiceStatus) -> bool {
    match old {
        InvoiceStatus::Draft => matches!(new, InvoiceStatus::Pending),
        InvoiceStatus::Pending => {
            matches!(new, InvoiceStatus::Paid | InvoiceStatus::ChargedWithError)
        }
        InvoiceStatus::ChargedWithError => {
            matches!(new, InvoiceStatus::Paid | InvoiceStatus::Uncollectible)
        }
        InvoiceStatus::Paid => matches!(
            new,
            InvoiceStatus::Cancelled | InvoiceStatus::Refunded | InvoiceStatus::InProtest
        ),
        InvoiceStatus::InProtest => matches!(new, InvoiceStatus::Chargeback),
        _ => false,
    }
}

#[test]
fn transition_matrix_is_exactly_the_table() {
    let mut checked = 0;
    for old in all_statuses() {
        for new in all_statuses() {
            assert_eq!(
                InvoiceUpdateUsecase::validate_update_status_change(old, new),
                expected_transition(old, new),
                "pair ({:?}, {:?})",
                old,
                new
            );
            checked += 1;
        }
    }
    assert_eq!(checked, 100);
}

#[test]
fn should_succeed_when_validating_status_update() {
    let old_list = all_statuses();
    let new_list = all_statuses();
    let result_expect = vec![
        // Draft
        [false, true, false, false, false, false, false, false, false, false],
        // Pending
        [false, false, true, true, false, false, false, false, false, false],
        // ChargedWithError
        [false, false, false, true, false, true, false, false, false, false],
        // Paid
        [false, false, false, false, true, false, true, true, false, false],
        // Cancelled
        [false, false, false, false, false, false, false, false, false, false],
        // Uncollectible
        [false, false, false, false, false, false, false, false, false, false],
        // Refunded
        [false, false, false, false, false, false, false, false, false, false],
        // InProtest
        [false, false, false, false, false, false, false, false, true, false],
        // Chargeback
        [false, false, false, false, false, false, false, false, false, false],
        // UnmappedStatus
        [false, false, false, false, false, false, false, false, false, false],
    ];
    for idx in 0..old_list.len() {
        let old = old_list[idx];
        let list: Vec<bool> = new_list
            .clone()
            .into_iter()
            .map(|new| InvoiceUpdateUsecase::validate_update_status_change(old, new))
            .collect();
        assert_eq!(list, result_expect[idx]);
    }
}

#[test]
fn terminal_statuses_have_no_outgoing_transition() {
    let terminals = vec![
        InvoiceStatus::Cancelled,
        InvoiceStatus::Uncollectible,
        InvoiceStatus::Refunded,
        InvoiceStatus::Chargeback,
        InvoiceStatus::UnmappedStatus,
    ];
    for old in terminals {
        for new in all_statuses() {
            assert!(!InvoiceUpdateUsecase::validate_update_status_change(old, new));
        }
    }
}

#[test]
fn invoice_status_strings_round_trip() {
    for status in all_statuses() {
        if !matches!(status, InvoiceStatus::UnmappedStatus) {
            let name = status.as_str();
            assert_eq!(InvoiceStatus::from_str(name), status);
        }
    }
    assert_eq!(InvoiceStatus::from_str("draft"), InvoiceStatus::Draft);
    assert_eq!(InvoiceStatus::from_str("pending"), InvoiceStatus::Pending);
    assert_eq!(
        InvoiceStatus::from_str("charged_with_error"),
        InvoiceStatus::ChargedWithError
    );
    assert_eq!(InvoiceStatus::from_str("paid"), InvoiceStatus::Paid);
    assert_eq!(InvoiceStatus::from_str("cancelled"), InvoiceStatus::Cancelled);
    assert_eq!(
        InvoiceStatus::from_str("uncollectible"),
        InvoiceStatus::Uncollectible
    );
    assert_eq!(InvoiceStatus::from_str("refunded"), InvoiceStatus::Refunded);
    assert_eq!(InvoiceStatus::from_str("in_protest"), InvoiceStatus::InProtest);
    assert_eq!(InvoiceStatus::from_str("chargeback"), InvoiceStatus::Chargeback);
    assert_eq!(
        InvoiceStatus::from_str("something else"),
        InvoiceStatus::UnmappedStatus
    );
    assert_eq!(InvoiceStatus::UnmappedStatus.as_str(), "unknown");
}

#[test]
fn charge_status_strings() {
    assert_eq!(ChargeStatus::Failed.as_str(), "failed");
    assert_eq!(ChargeStatus::Progress.as_str(), "progress");
    assert_eq!(ChargeStatus::Succeed.as_str(), "succeed");
    assert_eq!(ChargeStatus::UnmappedStatus.as_str(), "unknown");
}

#[test]
fn method_strings() {
    assert_eq!(Method::from_str("pix"), Method::Pix);
    assert_eq!(Method::from_str("credit_card"), Method::CreditCard);
    assert_eq!(Method::from_str("cheque"), Method::UnmappedMethod);
    assert_eq!(Method::Pix.as_str(), "pix");
    assert_eq!(Method::CreditCard.as_str(), "credit_card");
    assert_eq!(Method::UnmappedMethod.as_str(), "unknown");
}

#[test]
fn stripe_method_mapping_rejects_unmapped_strings() {
    assert_eq!(
        StripePaymentMethod::from_str("credit_card"),
        Ok(StripePaymentMethod::Card)
    );
    assert_eq!(StripePaymentMethod::from_str("pix"), Ok(StripePaymentMethod::Pix));
    assert!(StripePaymentMethod::from_str("barter").is_err());
    assert_eq!(StripePaymentMethod::Card.as_str(), "card");
    assert_eq!(StripePaymentMethod::Pix.as_str(), "pix");
}
