use vstd::prelude::*;
use crate::model::account::AccountNode;
use crate::model::common::{Cents, Paginated};

verus! {

pub type RuleId = String;

pub type RuleExecutionId = String;

/// Compact rule shape from `GET /rules` (list).
#[derive(Debug, Clone)]
pub struct RuleSummary {
    pub id: RuleId,
    pub name: Option<String>,
    pub description: Option<String>,
    pub status: RuleStatus,
    /// `false` for rules this API version can't represent; `GET /rules/{id}`
    /// then returns `INVALID_RULE`.
    pub is_supported: bool,
    pub created_at: String,
    pub updated_at: String,
    pub deleted_at: Option<String>,
}

#[derive(Debug, Clone, Copy, PartialEq, Eq, Structural)]
pub enum RuleStatus {
    Enabled,
    Disabled,
}

/// How a rule fires, discriminated on `type`.
#[derive(Debug, Clone)]
#[allow(inconsistent_fields)]
pub enum Trigger {
    OnFundsTransferred { account_id: String },
    Scheduled { schedule_type: ScheduleType, start_date: String, account_id: Option<String> },
    Manual { account_id: String },
}

#[derive(Debug, Clone, Copy, PartialEq, Eq, Structural)]
pub enum ScheduleType {
    OneTime,
    Daily,
    Weekly,
    BiWeekly,
    Monthly,
    EveryOtherWeek,
}

/// The fields every rule action shares.
#[derive(Debug, Clone)]
pub struct RuleActionBase {
    pub source: AccountNode,
    pub destination: AccountNode,
    /// Actions sharing a `group_index` run as a unit and share one `limit`.
    pub group_index: i32,
    /// Transfer up to the available balance instead of failing on shortfall.
    pub up_to_enabled: bool,
    /// Send as a direct deposit (ACH classified as payroll).
    pub is_direct_deposit: bool,
    pub limit: Option<TransferCap>,
    pub ach_description: Option<String>,
}

#[derive(Debug, Clone, Copy, PartialEq, Eq, Structural)]
pub enum PercentageTarget {
    IncomingAmount,
    SourceAccount,
}

#[derive(Debug, Clone)]
pub struct TransferCap {
    pub period: TransferCapPeriod,
    pub amount_in_cents: Cents,
}

#[derive(Debug, Clone, Copy, PartialEq, Eq, Structural)]
pub enum TransferCapPeriod {
    PerTransfer,
    PerWeek,
    PerMonth,
    PerYear,
}

#[derive(Debug, Clone)]
pub struct RuleConditionParams {
    pub account_id: Option<String>,
}

#[derive(Debug, Clone, Copy, PartialEq, Eq, Structural)]
pub enum RuleConditionFact {
    TransferAmount,
    Balance,
    Date,
}

#[derive(Debug, Clone, Copy, PartialEq, Eq, Structural)]
pub enum RuleConditionValueFact {
    TransferAmount,
    Balance,
    Date,
    LastDayOfMonth,
    NextPaymentMinimumAmount,
    LastStatementBalance,
}

#[derive(Debug, Clone, Copy, PartialEq, Eq, Structural)]
pub enum RuleConditionOperator {
    Equals,
    NotEquals,
    GreaterThan,
    LessThan,
    GreaterThanOrEqual,
    LessThanOrEqual,
}

/// Execution shape from `GET /rules/{id}/executions`.
#[derive(Debug, Clone)]
pub struct RuleExecutionSummary {
    pub id: RuleExecutionId,
    pub rule_id: RuleId,
    pub status: RuleExecutionStatus,
    pub created_at: String,
}

/// Full execution (`GET /rules/{id}/executions/{id}`).
#[derive(Debug, Clone)]
pub struct RuleExecution {
    pub summary: RuleExecutionSummary,
    pub trigger_details: TriggerDetails,
    pub step_index_matched: Option<i32>,
    pub conditions_not_met: bool,
    pub transfers_attempted: i32,
    pub transfers_completed: i32,
    pub transfers_failed: i32,
    pub transfers_pending: i32,
    pub transfer_ids: Vec<String>,
    pub error_message: Option<String>,
    pub next_attempt_at: Option<String>,
}

#[derive(Debug, Clone, Copy, Default, PartialEq, Eq, Structural)]
pub enum RuleExecutionStatus {
    #[default]
    Executed,
    Partial,
    InProgress,
    Failed,
}

impl RuleExecutionStatus {
    /// The value's name on the wire.
    pub open spec fn wire(self) -> Seq<char> {
        match self {
            RuleExecutionStatus::Executed => "EXECUTED"@,
            RuleExecutionStatus::Partial => "PARTIAL"@,
            RuleExecutionStatus::InProgress => "IN_PROGRESS"@,
            RuleExecutionStatus::Failed => "FAILED"@,
        }
    }

    /// The value's name on the wire, as sent in query parameters.
    pub fn wire_name(&self) -> (r: &'static str)
        ensures
            r@ == self.wire(),
    {
        match self {
            RuleExecutionStatus::Executed => "EXECUTED",
            RuleExecutionStatus::Partial => "PARTIAL",
            RuleExecutionStatus::InProgress => "IN_PROGRESS",
            RuleExecutionStatus::Failed => "FAILED",
        }
    }

    /// Each value goes on the wire under its own name (`Executed` as
    /// `EXECUTED`, `Partial` as `PARTIAL`, `InProgress` as `IN_PROGRESS`,
    /// `Failed` as `FAILED`), so distinct values never share a name.
    pub proof fn lemma_wire_names()
        ensures
            RuleExecutionStatus::Executed.wire() == "EXECUTED"@,
            RuleExecutionStatus::Partial.wire() == "PARTIAL"@,
            RuleExecutionStatus::InProgress.wire() == "IN_PROGRESS"@,
            RuleExecutionStatus::Failed.wire() == "FAILED"@,
            forall|a: RuleExecutionStatus, b: RuleExecutionStatus| #[trigger] a.wire() == #[trigger] b.wire() ==> a == b,
    {
        reveal_strlit("EXECUTED");
        reveal_strlit("PARTIAL");
        reveal_strlit("IN_PROGRESS");
        reveal_strlit("FAILED");
        assert forall|a: RuleExecutionStatus, b: RuleExecutionStatus| #[trigger] a.wire() == #[trigger] b.wire() implies a == b by {
            let (s, t) = (a.wire(), b.wire());
            assert(s.len() == t.len() && s[0] == t[0]);
        }
    }
}

/// What triggered an execution, discriminated on `type`.
#[derive(Debug, Clone)]
pub enum TriggerDetails {
    Manual { amount_in_cents: Option<Cents> },
    SequenceApi { amount_in_cents: Option<Cents> },
    Scheduled { scheduled_time: Option<String> },
    OnFundsTransferred { amount_in_cents: Option<Cents> },
    RemoteApi,
}

/// `triggerType` filter values for `listRuleExecutions` (the `type`s of
/// `TriggerDetails`).
#[derive(Debug, Clone, Copy, Default, PartialEq, Eq, Structural)]
pub enum TriggerType {
    #[default]
    Manual,
    SequenceApi,
    Scheduled,
    OnFundsTransferred,
    RemoteApi,
}

impl TriggerType {
    /// The value's name on the wire.
    pub open spec fn wire(self) -> Seq<char> {
        match self {
            TriggerType::Manual => "MANUAL"@,
            TriggerType::SequenceApi => "SEQUENCE_API"@,
            TriggerType::Scheduled => "SCHEDULED"@,
            TriggerType::OnFundsTransferred => "ON_FUNDS_TRANSFERRED"@,
            TriggerType::RemoteApi => "REMOTE_API"@,
        }
    }

    /// The value's name on the wire, as sent in query parameters.
    pub fn wire_name(&self) -> (r: &'static str)
        ensures
            r@ == self.wire(),
    {
        match self {
            TriggerType::Manual => "MANUAL",
            TriggerType::SequenceApi => "SEQUENCE_API",
            TriggerType::Scheduled => "SCHEDULED",
            TriggerType::OnFundsTransferred => "ON_FUNDS_TRANSFERRED",
            TriggerType::RemoteApi => "REMOTE_API",
        }
    }

    /// Each value goes on the wire under its own name (`Manual` as `MANUAL`,
    /// `SequenceApi` as `SEQUENCE_API`, `Scheduled` as `SCHEDULED`,
    /// `OnFundsTransferred` as `ON_FUNDS_TRANSFERRED`, `RemoteApi` as
    /// `REMOTE_API`), so distinct values never share a name.
    pub proof fn lemma_wire_names()
        ensures
            TriggerType::Manual.wire() == "MANUAL"@,
            TriggerType::SequenceApi.wire() == "SEQUENCE_API"@,
            TriggerType::Scheduled.wire() == "SCHEDULED"@,
            TriggerType::OnFundsTransferred.wire() == "ON_FUNDS_TRANSFERRED"@,
            TriggerType::RemoteApi.wire() == "REMOTE_API"@,
            forall|a: TriggerType, b: TriggerType| #[trigger] a.wire() == #[trigger] b.wire() ==> a == b,
    {
        reveal_strlit("MANUAL");
        reveal_strlit("SEQUENCE_API");
        reveal_strlit("SCHEDULED");
        reveal_strlit("ON_FUNDS_TRANSFERRED");
        reveal_strlit("REMOTE_API");
        assert forall|a: TriggerType, b: TriggerType| #[trigger] a.wire() == #[trigger] b.wire() implies a == b by {
            let (s, t) = (a.wire(), b.wire());
            assert(s.len() == t.len() && s[0] == t[0]);
        }
    }
}

/// Body for `POST /rules/{id}/trigger`. `execute_amount` injects a synthetic
/// `TRANSFER_AMOUNT` fact; it does not override fixed-amount transfers.
#[derive(Debug, Clone, Default)]
pub struct TriggerRuleRequest {
    pub execute_amount: Option<i64>,
}

/// The `data` of a `202` from `POST /rules/{id}/trigger`; poll
/// `execution_id` for the outcome.
#[derive(Debug, Clone)]
pub struct TriggerRuleResponse {
    pub execution_id: String,
}

pub type RulesData = Paginated<RuleSummary>;

pub type RuleExecutionsData = Paginated<RuleExecutionSummary>;

} // verus!
