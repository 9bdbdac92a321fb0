use vstd::prelude::*;
use crate::model::account::AccountId;
use crate::model::common::{Cents, Paginated};
use crate::model::error::{ModelError, ModelResult};
use crate::model::rule::{RuleExecutionId, RuleId};
use crate::text::{decimal, decimal_string, decimal_string_i64, signed_decimal};

verus! {

pub type TransferId = String;

/// A single money movement (rule-triggered, user-initiated, incoming, or
/// external). Card transactions are excluded.
#[derive(Debug, Clone)]
pub struct Transfer {
    pub id: TransferId,
    pub amount_in_cents: Cents,
    pub direction: TransferDirection,
    pub origin: TransferOrigin,
    pub source: Option<TransferAccountRef>,
    pub destination: Option<TransferAccountRef>,
    pub status: TransferStatus,
    pub rule_id: Option<RuleId>,
    pub rule_execution_id: Option<RuleExecutionId>,
    pub error_code: Option<String>,
    pub created_at: String,
    pub completed_at: Option<String>,
}

/// A transfer participant. `id` and `is_deleted` are `None` for `EXTERNAL_ENTITY`.
#[derive(Debug, Clone)]
pub struct TransferAccountRef {
    pub id: Option<String>,
    pub name: String,
    pub participant_type: TransferParticipantType,
    pub is_deleted: Option<bool>,
}

#[derive(Debug, Clone, Copy, PartialEq, Eq, Structural)]
pub enum TransferParticipantType {
    IncomeSource,
    Pod,
    ExternalAccount,
    /// External participant with no Sequence record (ATM, external pull).
    ExternalEntity,
}

#[derive(Debug, Clone, Copy, Default, PartialEq, Eq, Structural)]
pub enum TransferDirection {
    #[default]
    MoneyIn,
    MoneyOut,
    Internal,
}

impl TransferDirection {
    /// The value's name on the wire.
    pub open spec fn wire(self) -> Seq<char> {
        match self {
            TransferDirection::MoneyIn => "MONEY_IN"@,
            TransferDirection::MoneyOut => "MONEY_OUT"@,
            TransferDirection::Internal => "INTERNAL"@,
        }
    }

    /// The value's name on the wire, as sent in query parameters.
    pub fn wire_name(&self) -> (r: &'static str)
        ensures
            r@ == self.wire(),
    {
        match self {
            TransferDirection::MoneyIn => "MONEY_IN",
            TransferDirection::MoneyOut => "MONEY_OUT",
            TransferDirection::Internal => "INTERNAL",
        }
    }

    /// Each direction goes on the wire under its own SCREAMING_SNAKE_CASE
    /// name (`MoneyIn` as `MONEY_IN`, `MoneyOut` as `MONEY_OUT`, `Internal` as
    /// `INTERNAL`), so distinct directions never share a name.
    pub proof fn lemma_wire_names()
        ensures
            TransferDirection::MoneyIn.wire() == "MONEY_IN"@,
            TransferDirection::MoneyOut.wire() == "MONEY_OUT"@,
            TransferDirection::Internal.wire() == "INTERNAL"@,
            forall|a: TransferDirection, b: TransferDirection| #[trigger] a.wire() == #[trigger] b.wire() ==> a == b,
    {
        reveal_strlit("MONEY_IN");
        reveal_strlit("MONEY_OUT");
        reveal_strlit("INTERNAL");
        assert forall|a: TransferDirection, b: TransferDirection| #[trigger] a.wire() == #[trigger] b.wire() implies a == b by {
            let (s, t) = (a.wire(), b.wire());
            assert(s.len() == t.len() && s[0] == t[0]);
        }
    }
}

#[derive(Debug, Clone, Copy, PartialEq, Eq, Structural)]
pub enum TransferOrigin {
    DirectDeposit,
    CheckDeposit,
    Cashback,
    UserPull,
    Rule,
    User,
    ExternalPull,
    Unknown,
}

/// `origin` filter values: `TransferOrigin` minus the response-only `UNKNOWN`.
#[derive(Debug, Clone, Copy, Default, PartialEq, Eq, Structural)]
pub enum TransferOriginFilter {
    #[default]
    DirectDeposit,
    CheckDeposit,
    Cashback,
    UserPull,
    Rule,
    User,
    ExternalPull,
}

impl TransferOriginFilter {
    /// The value's name on the wire.
    pub open spec fn wire(self) -> Seq<char> {
        match self {
            TransferOriginFilter::DirectDeposit => "DIRECT_DEPOSIT"@,
            TransferOriginFilter::CheckDeposit => "CHECK_DEPOSIT"@,
            TransferOriginFilter::Cashback => "CASHBACK"@,
            TransferOriginFilter::UserPull => "USER_PULL"@,
            TransferOriginFilter::Rule => "RULE"@,
            TransferOriginFilter::User => "USER"@,
            TransferOriginFilter::ExternalPull => "EXTERNAL_PULL"@,
        }
    }

    /// The value's name on the wire, as sent in query parameters.
    pub fn wire_name(&self) -> (r: &'static str)
        ensures
            r@ == self.wire(),
    {
        match self {
            TransferOriginFilter::DirectDeposit => "DIRECT_DEPOSIT",
            TransferOriginFilter::CheckDeposit => "CHECK_DEPOSIT",
            TransferOriginFilter::Cashback => "CASHBACK",
            TransferOriginFilter::UserPull => "USER_PULL",
            TransferOriginFilter::Rule => "RULE",
            TransferOriginFilter::User => "USER",
            TransferOriginFilter::ExternalPull => "EXTERNAL_PULL",
        }
    }

    /// Each value goes on the wire under its own name (`DirectDeposit` as
    /// `DIRECT_DEPOSIT`, `CheckDeposit` as `CHECK_DEPOSIT`, `Cashback` as
    /// `CASHBACK`, `UserPull` as `USER_PULL`, `Rule` as `RULE`, `User` as
    /// `USER`, `ExternalPull` as `EXTERNAL_PULL`), so distinct values never
    /// share a name.
    pub proof fn lemma_wire_names()
        ensures
            TransferOriginFilter::DirectDeposit.wire() == "DIRECT_DEPOSIT"@,
            TransferOriginFilter::CheckDeposit.wire() == "CHECK_DEPOSIT"@,
            TransferOriginFilter::Cashback.wire() == "CASHBACK"@,
            TransferOriginFilter::UserPull.wire() == "USER_PULL"@,
            TransferOriginFilter::Rule.wire() == "RULE"@,
            TransferOriginFilter::User.wire() == "USER"@,
            TransferOriginFilter::ExternalPull.wire() == "EXTERNAL_PULL"@,
            forall|a: TransferOriginFilter, b: TransferOriginFilter| #[trigger] a.wire() == #[trigger] b.wire() ==> a == b,
    {
        reveal_strlit("DIRECT_DEPOSIT");
        reveal_strlit("CHECK_DEPOSIT");
        reveal_strlit("CASHBACK");
        reveal_strlit("USER_PULL");
        reveal_strlit("RULE");
        reveal_strlit("USER");
        reveal_strlit("EXTERNAL_PULL");
        assert forall|a: TransferOriginFilter, b: TransferOriginFilter| #[trigger] a.wire() == #[trigger] b.wire() implies a == b by {
            let (s, t) = (a.wire(), b.wire());
            assert(s.len() == t.len() && s[0] == t[0]);
        }
    }
}

#[derive(Debug, Clone, Copy, Default, PartialEq, Eq, Structural)]
pub enum TransferStatus {
    #[default]
    PendingApproval,
    Processing,
    Pending,
    Complete,
    Incomplete,
    Error,
    Cancelled,
}

impl TransferStatus {
    /// The value's name on the wire.
    pub open spec fn wire(self) -> Seq<char> {
        match self {
            TransferStatus::PendingApproval => "PENDING_APPROVAL"@,
            TransferStatus::Processing => "PROCESSING"@,
            TransferStatus::Pending => "PENDING"@,
            TransferStatus::Complete => "COMPLETE"@,
            TransferStatus::Incomplete => "INCOMPLETE"@,
            TransferStatus::Error => "ERROR"@,
            TransferStatus::Cancelled => "CANCELLED"@,
        }
    }

    /// The value's name on the wire, as sent in query parameters.
    pub fn wire_name(&self) -> (r: &'static str)
        ensures
            r@ == self.wire(),
    {
        match self {
            TransferStatus::PendingApproval => "PENDING_APPROVAL",
            TransferStatus::Processing => "PROCESSING",
            TransferStatus::Pending => "PENDING",
            TransferStatus::Complete => "COMPLETE",
            TransferStatus::Incomplete => "INCOMPLETE",
            TransferStatus::Error => "ERROR",
            TransferStatus::Cancelled => "CANCELLED",
        }
    }

    /// Each value goes on the wire under its own name (`PendingApproval` as
    /// `PENDING_APPROVAL`, `Processing` as `PROCESSING`, `Pending` as
    /// `PENDING`, `Complete` as `COMPLETE`, `Incomplete` as `INCOMPLETE`,
    /// `Error` as `ERROR`, `Cancelled` as `CANCELLED`), so distinct values
    /// never share a name.
    pub proof fn lemma_wire_names()
        ensures
            TransferStatus::PendingApproval.wire() == "PENDING_APPROVAL"@,
            TransferStatus::Processing.wire() == "PROCESSING"@,
            TransferStatus::Pending.wire() == "PENDING"@,
            TransferStatus::Complete.wire() == "COMPLETE"@,
            TransferStatus::Incomplete.wire() == "INCOMPLETE"@,
            TransferStatus::Error.wire() == "ERROR"@,
            TransferStatus::Cancelled.wire() == "CANCELLED"@,
            forall|a: TransferStatus, b: TransferStatus| #[trigger] a.wire() == #[trigger] b.wire() ==> a == b,
    {
        reveal_strlit("PENDING_APPROVAL");
        reveal_strlit("PROCESSING");
        reveal_strlit("PENDING");
        reveal_strlit("COMPLETE");
        reveal_strlit("INCOMPLETE");
        reveal_strlit("ERROR");
        reveal_strlit("CANCELLED");
        assert forall|a: TransferStatus, b: TransferStatus| #[trigger] a.wire() == #[trigger] b.wire() implies a == b by {
            let (s, t) = (a.wire(), b.wire());
            assert(s.len() == t.len() && s[0] == t[0]);
        }
    }
}

/// Body for `POST /transfers`.
#[derive(Debug, Clone)]
pub struct CreateTransferRequest {
    pub source_account_id: AccountId,
    pub destination_account_id: AccountId,
    pub amount_in_cents: Cents,
    pub description: Option<String>,
}

/// The smallest transfer the API accepts: $1.00.
pub const MIN_TRANSFER_CENTS: i64 = 100;

/// The longest description the API accepts, in characters.
pub const MAX_DESCRIPTION_CHARS: usize = 10;

/// A character a transfer description may hold: an ASCII letter or digit, or
/// a space.
pub open spec fn description_char_allowed(c: char) -> bool {
    ||| '0' <= c <= '9'
    ||| 'a' <= c <= 'z'
    ||| 'A' <= c <= 'Z'
    ||| c == ' '
}

/// Why a transfer request breaks the API's input rules, checked in this
/// order: the amount is below $1.00; the description is longer than ten
/// characters; the description holds a character other than an ASCII letter,
/// digit or space. `None` when it breaks none.
pub open spec fn transfer_request_violation(
    amount_in_cents: i64,
    description: Option<Seq<char>>,
) -> Option<Seq<char>> {
    if amount_in_cents < MIN_TRANSFER_CENTS {
        Some(
            "amount_in_cents must be at least 100 ($1.00); got "@ + signed_decimal(
                amount_in_cents as int,
            ),
        )
    } else {
        match description {
            Some(d) => if d.len() > MAX_DESCRIPTION_CHARS {
                Some("description must be at most 10 characters; got "@ + decimal(d.len()))
            } else if !(forall|i: int| 0 <= i < d.len() ==> description_char_allowed(#[trigger] d[i])) {
                Some("description may contain only letters, digits, and spaces"@)
            } else {
                None
            },
            None => None,
        }
    }
}

/// The API's input rules for a transfer, written out: at least 100 cents,
/// and a description (when there is one) of at most ten characters, every one
/// of them, the first to the last, an ASCII letter, an ASCII digit or a space.
pub open spec fn meets_input_rules(amount_in_cents: i64, description: Option<Seq<char>>) -> bool {
    &&& amount_in_cents >= 100
    &&& match description {
        Some(d) => d.len() <= 10 && forall|i: int|
            0 <= i < d.len() ==> {
                let c = #[trigger] d[i];
                ('0' <= c <= '9') || ('a' <= c <= 'z') || ('A' <= c <= 'Z') || c == ' '
            },
        None => true,
    }
}

/// A transfer request is rejected exactly when it breaks one of the input
/// rules; in particular a description with any character, at any position,
/// outside ASCII letters, digits and space is rejected, and so is one over
/// ten characters.
pub proof fn lemma_input_rules(amount_in_cents: i64, description: Option<Seq<char>>)
    ensures
        transfer_request_violation(amount_in_cents, description) is None <==> meets_input_rules(
            amount_in_cents,
            description,
        ),
        match description {
            Some(d) => forall|i: int|
                0 <= i < d.len() && !(('0' <= d[i] <= '9') || ('a' <= d[i] <= 'z') || ('A' <= d[i]
                    <= 'Z') || d[i] == ' ') ==> #[trigger] transfer_request_violation(
                    amount_in_cents,
                    Some(d),
                ) is Some,
            None => true,
        },
{
    match description {
        Some(d) => {
            assert forall|i: int|
                0 <= i < d.len() && !(('0' <= d[i] <= '9') || ('a' <= d[i] <= 'z') || ('A' <= d[i]
                    <= 'Z') || d[i] == ' ') implies #[trigger] transfer_request_violation(
                amount_in_cents,
                Some(d),
            ) is Some by {
                assert(!description_char_allowed(d[i]));
            }
        },
        None => {},
    }
}

impl CreateTransferRequest {
    /// The request's description as characters.
    pub open spec fn description_text(self) -> Option<Seq<char>> {
        match self.description {
            Some(d) => Some(d@),
            None => None,
        }
    }

    /// Checks the API's input rules: `amount_in_cents >= 100`, and an
    /// optional `description` of at most ten ASCII letters, digits or spaces.
    /// A violation is reported as `ModelError::Validation` with its message.
    pub fn validate(&self) -> (r: ModelResult<()>)
        ensures
            match transfer_request_violation(self.amount_in_cents, self.description_text()) {
                None => r is Ok,
                Some(msg) => r matches Err(ModelError::Validation(m)) && m@ == msg,
            },
            r is Ok <==> meets_input_rules(self.amount_in_cents, self.description_text()),
    {
        proof {
            lemma_input_rules(self.amount_in_cents, self.description_text());
        }
        if self.amount_in_cents < MIN_TRANSFER_CENTS {
            let mut m = String::from_str("amount_in_cents must be at least 100 ($1.00); got ");
            let amount = decimal_string_i64(self.amount_in_cents);
            m.append(amount.as_str());
            return Err(ModelError::Validation(m));
        }
        match &self.description {
            Some(desc) => {
                let len = desc.as_str().unicode_len();
                if len > MAX_DESCRIPTION_CHARS {
                    let mut m = String::from_str("description must be at most 10 characters; got ");
                    let count = decimal_string(len as u64);
                    m.append(count.as_str());
                    return Err(ModelError::Validation(m));
                }
                let mut i: usize = 0;
                while i < len
                    invariant
                        len == desc@.len(),
                        len <= MAX_DESCRIPTION_CHARS,
                        self.amount_in_cents >= MIN_TRANSFER_CENTS,
                        self.description_text() == Some(desc@),
                        i <= len,
                        forall|j: int| 0 <= j < i ==> description_char_allowed(#[trigger] desc@[j]),
                    decreases len - i,
                {
                    let c = desc.as_str().get_char(i);
                    if !(('0' <= c && c <= '9') || ('a' <= c && c <= 'z') || ('A' <= c && c <= 'Z')
                        || c == ' ') {
                        assert(!description_char_allowed(desc@[i as int]));
                        return Err(
                            ModelError::Validation(
                                String::from_str(
                                    "description may contain only letters, digits, and spaces",
                                ),
                            ),
                        );
                    }
                    i = i + 1;
                }
                Ok(())
            },
            None => Ok(()),
        }
    }
}

pub type TransfersData = Paginated<Transfer>;

} // verus!
