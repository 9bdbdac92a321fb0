use sequence_rs::model::account::{AccountState, AccountType};
use sequence_rs::model::error::{ApiError, ModelError};
use sequence_rs::model::rule::{RuleExecutionStatus, TriggerType};
use sequence_rs::model::transfer::{
    CreateTransferRequest, TransferDirection, TransferOriginFilter, TransferStatus,
};

fn transfer_req(amount: i64, description: Option<&str>) -> CreateTransferRequest {
    CreateTransferRequest {
        source_account_id: "a".into(),
        destination_account_id: "b".into(),
        amount_in_cents: amount,
        description: description.map(str::to_string),
    }
}

#[test]
fn create_transfer_validation() {
    // Valid: at/above the $1.00 floor, description within limits.
    assert!(transfer_req(100, None).validate().is_ok());
    assert!(transfer_req(5000, Some("Rent May")).validate().is_ok());
    assert!(transfer_req(100, Some("")).validate().is_ok());

    // Below the minimum.
    assert!(matches!(
        transfer_req(99, None).validate(),
        Err(ModelError::Validation(_))
    ));

    // Description too long (>10 chars).
    assert!(matches!(
        transfer_req(5000, Some("12345678901")).validate(),
        Err(ModelError::Validation(_))
    ));

    // Description with a disallowed character.
    assert!(matches!(
        transfer_req(5000, Some("Rent-May")).validate(),
        Err(ModelError::Validation(_))
    ));
}

fn validation_message(req: CreateTransferRequest) -> String {
    match req.validate() {
        Err(ModelError::Validation(m)) => m,
        Err(_) => panic!("expected a validation error"),
        Ok(()) => panic!("expected the request to be rejected"),
    }
}

#[test]
fn validation_messages_name_the_rule_and_the_value() {
    assert_eq!(
        validation_message(transfer_req(99, None)),
        "amount_in_cents must be at least 100 ($1.00); got 99"
    );
    assert_eq!(
        validation_message(transfer_req(-5, Some("x"))),
        "amount_in_cents must be at least 100 ($1.00); got -5"
    );
    assert_eq!(
        validation_message(transfer_req(i64::MIN, None)),
        "amount_in_cents must be at least 100 ($1.00); got -9223372036854775808"
    );
    assert_eq!(
        validation_message(transfer_req(5000, Some("12345678901"))),
        "description must be at most 10 characters; got 11"
    );
    assert_eq!(
        validation_message(transfer_req(5000, Some("Rent-May"))),
        "description may contain only letters, digits, and spaces"
    );
}

#[test]
fn description_limits_count_characters_not_bytes() {
    // Ten characters, exactly at the limit.
    assert!(transfer_req(100, Some("abcdefghij")).validate().is_ok());
    assert!(transfer_req(100, Some("ABC xyz 09")).validate().is_ok());
    // Ten non-ASCII characters: within the length limit, but not letters or digits in ASCII.
    assert_eq!(
        validation_message(transfer_req(100, Some("éééééééééé"))),
        "description may contain only letters, digits, and spaces"
    );
    // Eleven characters fail on length before the character check.
    assert_eq!(
        validation_message(transfer_req(100, Some("-----------"))),
        "description must be at most 10 characters; got 11"
    );
}

#[test]
fn api_error_displays_code_and_message() {
    let e = ApiError {
        code: "ACCOUNT_NOT_FOUND".to_string(),
        message: "no such account".to_string(),
    };
    assert_eq!(e.display_text(), "ACCOUNT_NOT_FOUND: no such account");
}

#[test]
fn enum_filters_render_their_wire_names() {
    assert_eq!(AccountType::IncomeSource.wire_name(), "INCOME_SOURCE");
    assert_eq!(AccountType::Pod.wire_name(), "POD");
    assert_eq!(AccountType::ExternalAccount.wire_name(), "EXTERNAL_ACCOUNT");
    assert_eq!(AccountState::Active.wire_name(), "ACTIVE");
    assert_eq!(AccountState::All.wire_name(), "ALL");
    assert_eq!(TransferDirection::MoneyOut.wire_name(), "MONEY_OUT");
    assert_eq!(TransferStatus::PendingApproval.wire_name(), "PENDING_APPROVAL");
    assert_eq!(TransferOriginFilter::ExternalPull.wire_name(), "EXTERNAL_PULL");
    assert_eq!(RuleExecutionStatus::InProgress.wire_name(), "IN_PROGRESS");
    assert_eq!(TriggerType::OnFundsTransferred.wire_name(), "ON_FUNDS_TRANSFERRED");
}

#[test]
fn decimal_rendering() {
    assert_eq!(sequence_rs::decimal_string(0), "0");
    assert_eq!(sequence_rs::decimal_string(100), "100");
    assert_eq!(sequence_rs::decimal_string(u64::MAX), "18446744073709551615");
    assert_eq!(sequence_rs::decimal_string_i64(-42), "-42");
}
