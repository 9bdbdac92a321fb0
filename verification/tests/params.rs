use sequence_rs::model::account::{AccountState, AccountType};
use sequence_rs::model::rule::{RuleExecutionStatus, TriggerType};
use sequence_rs::model::transfer::{TransferDirection, TransferOriginFilter, TransferStatus};
use sequence_rs::{
    AccountRole, ListAccountTransfersParams, ListAccountsParams, ListRuleExecutionsParams,
    ListRulesParams,
};

fn pairs(q: Vec<(String, String)>) -> Vec<(String, String)> {
    q
}

fn p(k: &str, v: &str) -> (String, String) {
    (k.to_string(), v.to_string())
}

#[test]
fn list_accounts_sends_filter_query_params() {
    let params = ListAccountsParams {
        account_type: Some(AccountType::Pod),
        state: Some(AccountState::All),
        page_size: Some(50),
        ..Default::default()
    };
    assert_eq!(
        pairs(params.query()),
        vec![p("type", "POD"), p("state", "ALL"), p("pageSize", "50")]
    );
    assert!(ListAccountsParams::default().query().is_empty());
}

#[test]
fn account_role_query_values() {
    assert_eq!(AccountRole::Source.as_query(), "source");
    assert_eq!(AccountRole::Destination.as_query(), "destination");
    assert_eq!(AccountRole::Either.as_query(), "either");
    assert_eq!(AccountRole::default().as_query(), "either");
}

#[test]
fn account_transfers_query_lists_every_set_filter_in_order() {
    let params = ListAccountTransfersParams {
        account_role: Some(AccountRole::Source),
        direction: Some(TransferDirection::MoneyOut),
        status: Some(TransferStatus::Complete),
        origin: Some(TransferOriginFilter::Rule),
        from: Some("2024-01-01".to_string()),
        to: Some("2024-02-01".to_string()),
        rule_execution_id: Some("exec-1".to_string()),
        page: Some(3),
        page_size: Some(25),
    };
    assert_eq!(
        params.query(),
        vec![
            p("accountRole", "source"),
            p("direction", "MONEY_OUT"),
            p("status", "COMPLETE"),
            p("origin", "RULE"),
            p("from", "2024-01-01"),
            p("to", "2024-02-01"),
            p("rule_execution_id", "exec-1"),
            p("page", "3"),
            p("pageSize", "25"),
        ]
    );
}

#[test]
fn rules_and_executions_queries() {
    let rules = ListRulesParams {
        source_id: Some("acc-1".to_string()),
        page: Some(1),
        page_size: None,
    };
    assert_eq!(rules.query(), vec![p("sourceId", "acc-1"), p("page", "1")]);
    let execs = ListRuleExecutionsParams {
        status: Some(RuleExecutionStatus::Failed),
        trigger_type: Some(TriggerType::SequenceApi),
        from: None,
        to: Some("2024-05-01".to_string()),
        page: None,
        page_size: Some(100),
    };
    assert_eq!(
        execs.query(),
        vec![
            p("status", "FAILED"),
            p("triggerType", "SEQUENCE_API"),
            p("to", "2024-05-01"),
            p("pageSize", "100"),
        ]
    );
}

#[test]
fn for_page_keeps_filters_and_sets_the_page() {
    let params = ListAccountsParams {
        state: Some(AccountState::All),
        page: Some(9),
        ..Default::default()
    };
    let next = params.for_page(2, 10);
    assert_eq!(
        next.query(),
        vec![p("state", "ALL"), p("page", "2"), p("pageSize", "10")]
    );
    let t = ListAccountTransfersParams {
        from: Some("x".to_string()),
        ..Default::default()
    }
    .for_page(1, 5);
    assert_eq!(t.from.as_deref(), Some("x"));
    assert_eq!((t.page, t.page_size), (Some(1), Some(5)));
    let r = ListRulesParams::default().for_page(4, 2);
    assert_eq!(r.query(), vec![p("page", "4"), p("pageSize", "2")]);
    let e = ListRuleExecutionsParams::default().for_page(1, 1);
    assert_eq!(e.query(), vec![p("page", "1"), p("pageSize", "1")]);
}
