use vstd::prelude::*;
use crate::model::common::Paginated;

verus! {

pub type AccountId = String;

/// Lightweight account shape from `GET /accounts` (list).
#[derive(Debug, Clone)]
pub struct AccountSummary {
    pub id: AccountId,
    pub name: String,
    pub account_type: AccountType,
    pub description: Option<String>,
    pub external_account_type: Option<ExternalAccountType>,
    pub beneficiary_name: Option<String>,
    pub institution_name: Option<String>,
    pub can_be_source: bool,
    pub created_at: String,
    pub updated_at: String,
    pub deleted_at: Option<String>,
}

#[derive(Debug, Clone, Copy, Default, PartialEq, Eq, Structural)]
pub enum AccountType {
    #[default]
    IncomeSource,
    Pod,
    ExternalAccount,
}

impl AccountType {
    /// The value's name on the wire.
    pub open spec fn wire(self) -> Seq<char> {
        match self {
            AccountType::IncomeSource => "INCOME_SOURCE"@,
            AccountType::Pod => "POD"@,
            AccountType::ExternalAccount => "EXTERNAL_ACCOUNT"@,
        }
    }

    /// The value's name on the wire, as sent in query parameters.
    pub fn wire_name(&self) -> (r: &'static str)
        ensures
            r@ == self.wire(),
    {
        match self {
            AccountType::IncomeSource => "INCOME_SOURCE",
            AccountType::Pod => "POD",
            AccountType::ExternalAccount => "EXTERNAL_ACCOUNT",
        }
    }

    /// Each value goes on the wire under its own name (`IncomeSource` as
    /// `INCOME_SOURCE`, `Pod` as `POD`, `ExternalAccount` as
    /// `EXTERNAL_ACCOUNT`), so distinct values never share a name.
    pub proof fn lemma_wire_names()
        ensures
            AccountType::IncomeSource.wire() == "INCOME_SOURCE"@,
            AccountType::Pod.wire() == "POD"@,
            AccountType::ExternalAccount.wire() == "EXTERNAL_ACCOUNT"@,
            forall|a: AccountType, b: AccountType| #[trigger] a.wire() == #[trigger] b.wire() ==> a == b,
    {
        reveal_strlit("INCOME_SOURCE");
        reveal_strlit("POD");
        reveal_strlit("EXTERNAL_ACCOUNT");
        assert forall|a: AccountType, b: AccountType| #[trigger] a.wire() == #[trigger] b.wire() implies a == b by {
            let (s, t) = (a.wire(), b.wire());
            assert(s.len() == t.len() && s[0] == t[0]);
        }
    }
}

#[derive(Debug, Clone, Copy, PartialEq, Eq, Structural)]
pub enum ExternalAccountType {
    Depository,
    Investment,
    Liability,
}

/// State filter for `GET /accounts`; defaults to `ACTIVE` (excludes deleted).
#[derive(Debug, Clone, Copy, Default, PartialEq, Eq, Structural)]
pub enum AccountState {
    #[default]
    Active,
    All,
}

impl AccountState {
    /// The value's name on the wire.
    pub open spec fn wire(self) -> Seq<char> {
        match self {
            AccountState::Active => "ACTIVE"@,
            AccountState::All => "ALL"@,
        }
    }

    /// The value's name on the wire, as sent in query parameters.
    pub fn wire_name(&self) -> (r: &'static str)
        ensures
            r@ == self.wire(),
    {
        match self {
            AccountState::Active => "ACTIVE",
            AccountState::All => "ALL",
        }
    }

    /// Each value goes on the wire under its own name (`Active` as `ACTIVE`,
    /// `All` as `ALL`), so distinct values never share a name.
    pub proof fn lemma_wire_names()
        ensures
            AccountState::Active.wire() == "ACTIVE"@,
            AccountState::All.wire() == "ALL"@,
            forall|a: AccountState, b: AccountState| #[trigger] a.wire() == #[trigger] b.wire() ==> a == b,
    {
        reveal_strlit("ACTIVE");
        reveal_strlit("ALL");
        assert forall|a: AccountState, b: AccountState| #[trigger] a.wire() == #[trigger] b.wire() implies a == b by {
            let (s, t) = (a.wire(), b.wire());
            assert(s.len() == t.len() && s[0] == t[0]);
        }
    }
}

/// A reference to an account, used inside rule actions.
#[derive(Debug, Clone)]
pub struct AccountNode {
    pub id: String,
    pub account_type: AccountType,
    pub name: Option<String>,
}

pub type AccountsData = Paginated<AccountSummary>;

} // verus!
