//! Query parameters of the list endpoints. Each set of filters renders to an
//! ordered list of `(name, value)` pairs in which an unset filter is absent;
//! enum filters use their wire names and numbers are written in decimal.

use vstd::prelude::*;
use crate::model::account::{AccountState, AccountType};
use crate::model::rule::{RuleExecutionStatus, TriggerType};
use crate::model::transfer::{TransferDirection, TransferOriginFilter, TransferStatus};
use crate::text::{decimal, decimal_string};

verus! {

/// Query parameters as owned, ordered `(name, value)` pairs, so request URLs
/// are deterministic.
pub type Query = Vec<(String, String)>;

/// The pairs of a query as text.
pub open spec fn query_view(q: Seq<(String, String)>) -> Seq<(Seq<char>, Seq<char>)> {
    q.map_values(|p: (String, String)| (p.0@, p.1@))
}

/// The pair `(key, value)` when the value is present, nothing otherwise.
pub open spec fn entry(key: Seq<char>, value: Option<Seq<char>>) -> Seq<(Seq<char>, Seq<char>)> {
    match value {
        Some(v) => seq![(key, v)],
        None => Seq::empty(),
    }
}

pub open spec fn number_text(n: Option<u32>) -> Option<Seq<char>> {
    match n {
        Some(v) => Some(decimal(v as nat)),
        None => None,
    }
}

pub open spec fn string_text(s: Option<String>) -> Option<Seq<char>> {
    match s {
        Some(v) => Some(v@),
        None => None,
    }
}

fn push_entry(q: &mut Query, key: &str, value: Option<String>)
    ensures
        query_view(final(q)@) == query_view(old(q)@) + entry(key@, string_text(value)),
{
    match value {
        Some(v) => {
            let ghost before = q@;
            q.push((String::from_str(key), v));
            assert(query_view(q@) =~= query_view(before) + entry(key@, string_text(value)));
        },
        None => {
            assert(query_view(q@) =~= query_view(q@) + entry(key@, string_text(value)));
        },
    }
}

fn number(n: Option<u32>) -> (r: Option<String>)
    ensures
        string_text(r) == number_text(n),
{
    match n {
        Some(v) => Some(decimal_string(v as u64)),
        None => None,
    }
}

fn wire(s: Option<&'static str>) -> (r: Option<String>)
    ensures
        string_text(r) == match s {
            Some(t) => Some(t@),
            None => None::<Seq<char>>,
        },
{
    match s {
        Some(t) => Some(String::from_str(t)),
        None => None,
    }
}

fn copy_text(s: &Option<String>) -> (r: Option<String>)
    ensures
        string_text(r) == string_text(*s),
{
    match s {
        Some(t) => Some(t.clone()),
        None => None,
    }
}

fn empty_query() -> (q: Query)
    ensures
        query_view(q@) == Seq::<(Seq<char>, Seq<char>)>::empty(),
{
    let q: Query = Vec::new();
    assert(query_view(q@) =~= Seq::<(Seq<char>, Seq<char>)>::empty());
    q
}

/// Controls how the `accountId` is matched in
/// `GET /accounts/{accountId}/transfers`.
#[derive(Debug, Clone, Copy, Default, PartialEq, Eq, Structural)]
pub enum AccountRole {
    Source,
    Destination,
    /// The API's default when the filter is omitted.
    #[default]
    Either,
}

impl AccountRole {
    /// The filter's value on the wire.
    pub open spec fn query_value(self) -> Seq<char> {
        match self {
            AccountRole::Source => "source"@,
            AccountRole::Destination => "destination"@,
            AccountRole::Either => "either"@,
        }
    }

    /// The filter's value on the wire.
    pub fn as_query(&self) -> (r: &'static str)
        ensures
            r@ == self.query_value(),
    {
        match self {
            AccountRole::Source => "source",
            AccountRole::Destination => "destination",
            AccountRole::Either => "either",
        }
    }

    /// Each value goes on the wire under its own name (`Source` as `source`,
    /// `Destination` as `destination`, `Either` as `either`), so distinct
    /// values never share a name.
    pub proof fn lemma_wire_names()
        ensures
            AccountRole::Source.query_value() == "source"@,
            AccountRole::Destination.query_value() == "destination"@,
            AccountRole::Either.query_value() == "either"@,
            forall|a: AccountRole, b: AccountRole| #[trigger] a.query_value() == #[trigger] b.query_value() ==> a == b,
    {
        reveal_strlit("source");
        reveal_strlit("destination");
        reveal_strlit("either");
        assert forall|a: AccountRole, b: AccountRole| #[trigger] a.query_value() == #[trigger] b.query_value() implies a == b by {
            let (s, t) = (a.query_value(), b.query_value());
            assert(s.len() == t.len() && s[0] == t[0]);
        }
    }
}

/// Query parameters for `GET /accounts`.
#[derive(Debug, Default, Clone)]
pub struct ListAccountsParams {
    pub account_type: Option<AccountType>,
    pub state: Option<AccountState>,
    pub page: Option<u32>,
    pub page_size: Option<u32>,
}

impl ListAccountsParams {
    /// `type`, `state`, `page`, `pageSize`, in that order, each when set.
    pub open spec fn query_spec(self) -> Seq<(Seq<char>, Seq<char>)> {
        Seq::empty() + entry(
            "type"@,
            match self.account_type {
                Some(t) => Some(t.wire()),
                None => None,
            },
        ) + entry(
            "state"@,
            match self.state {
                Some(s) => Some(s.wire()),
                None => None,
            },
        ) + entry("page"@, number_text(self.page)) + entry(
            "pageSize"@,
            number_text(self.page_size),
        )
    }

    /// The query string pairs of the request.
    pub fn query(&self) -> (q: Query)
        ensures
            query_view(q@) == self.query_spec(),
    {
        let mut q = empty_query();
        push_entry(
            &mut q,
            "type",
            wire(
                match self.account_type {
                    Some(t) => Some(t.wire_name()),
                    None => None,
                },
            ),
        );
        push_entry(
            &mut q,
            "state",
            wire(
                match self.state {
                    Some(s) => Some(s.wire_name()),
                    None => None,
                },
            ),
        );
        push_entry(&mut q, "page", number(self.page));
        push_entry(&mut q, "pageSize", number(self.page_size));
        q
    }

    /// These filters, asking for `page` of `page_size` items.
    pub fn for_page(&self, page: u32, page_size: u32) -> (p: Self)
        ensures
            p == (ListAccountsParams { page: Some(page), page_size: Some(page_size), ..*self }),
    {
        ListAccountsParams {
            account_type: self.account_type,
            state: self.state,
            page: Some(page),
            page_size: Some(page_size),
        }
    }
}

/// Query parameters for `GET /accounts/{accountId}/transfers`.
#[derive(Debug, Default, Clone)]
pub struct ListAccountTransfersParams {
    pub account_role: Option<AccountRole>,
    pub direction: Option<TransferDirection>,
    pub status: Option<TransferStatus>,
    /// Filter by origin. `TransferOriginFilter` has no response-only
    /// `UNKNOWN`, so an invalid filter value can't be constructed.
    pub origin: Option<TransferOriginFilter>,
    pub from: Option<String>,
    pub to: Option<String>,
    pub rule_execution_id: Option<String>,
    pub page: Option<u32>,
    pub page_size: Option<u32>,
}

impl ListAccountTransfersParams {
    /// `accountRole`, `direction`, `status`, `origin`, `from`, `to`,
    /// `rule_execution_id`, `page`, `pageSize`, in that order, each when set.
    pub open spec fn query_spec(self) -> Seq<(Seq<char>, Seq<char>)> {
        Seq::empty() + entry(
            "accountRole"@,
            match self.account_role {
                Some(r) => Some(r.query_value()),
                None => None,
            },
        ) + entry(
            "direction"@,
            match self.direction {
                Some(d) => Some(d.wire()),
                None => None,
            },
        ) + entry(
            "status"@,
            match self.status {
                Some(s) => Some(s.wire()),
                None => None,
            },
        ) + entry(
            "origin"@,
            match self.origin {
                Some(o) => Some(o.wire()),
                None => None,
            },
        ) + entry("from"@, string_text(self.from)) + entry("to"@, string_text(self.to)) + entry(
            "rule_execution_id"@,
            string_text(self.rule_execution_id),
        ) + entry("page"@, number_text(self.page)) + entry(
            "pageSize"@,
            number_text(self.page_size),
        )
    }

    /// The query string pairs of the request.
    pub fn query(&self) -> (q: Query)
        ensures
            query_view(q@) == self.query_spec(),
    {
        let mut q = empty_query();
        push_entry(
            &mut q,
            "accountRole",
            wire(
                match self.account_role {
                    Some(r) => Some(r.as_query()),
                    None => None,
                },
            ),
        );
        push_entry(
            &mut q,
            "direction",
            wire(
                match self.direction {
                    Some(d) => Some(d.wire_name()),
                    None => None,
                },
            ),
        );
        push_entry(
            &mut q,
            "status",
            wire(
                match self.status {
                    Some(s) => Some(s.wire_name()),
                    None => None,
                },
            ),
        );
        push_entry(
            &mut q,
            "origin",
            wire(
                match self.origin {
                    Some(o) => Some(o.wire_name()),
                    None => None,
                },
            ),
        );
        push_entry(&mut q, "from", copy_text(&self.from));
        push_entry(&mut q, "to", copy_text(&self.to));
        push_entry(&mut q, "rule_execution_id", copy_text(&self.rule_execution_id));
        push_entry(&mut q, "page", number(self.page));
        push_entry(&mut q, "pageSize", number(self.page_size));
        q
    }

    /// These filters, asking for `page` of `page_size` items.
    pub fn for_page(&self, page: u32, page_size: u32) -> (p: Self)
        ensures
            string_text(p.from) == string_text(self.from),
            string_text(p.to) == string_text(self.to),
            string_text(p.rule_execution_id) == string_text(self.rule_execution_id),
            p.account_role == self.account_role,
            p.direction == self.direction,
            p.status == self.status,
            p.origin == self.origin,
            p.page == Some(page),
            p.page_size == Some(page_size),
    {
        ListAccountTransfersParams {
            account_role: self.account_role,
            direction: self.direction,
            status: self.status,
            origin: self.origin,
            from: copy_text(&self.from),
            to: copy_text(&self.to),
            rule_execution_id: copy_text(&self.rule_execution_id),
            page: Some(page),
            page_size: Some(page_size),
        }
    }
}

/// A transfer listing filtered by direction asks for that direction by its
/// wire name: the pair `("direction", name)` comes right after the optional
/// `accountRole` pair, a listing with no other filter sends that pair alone,
/// and listings that differ only in their direction send different queries.
pub proof fn lemma_direction_filter_query(p: ListAccountTransfersParams, d: TransferDirection)
    requires
        p.direction == Some(d),
    ensures
        p.query_spec()[if p.account_role is Some { 1int } else { 0int }] == ("direction"@, d.wire()),
        d == TransferDirection::MoneyIn ==> p.query_spec()[if p.account_role is Some { 1int } else { 0int }].1 == "MONEY_IN"@,
        d == TransferDirection::MoneyOut ==> p.query_spec()[if p.account_role is Some { 1int } else { 0int }].1 == "MONEY_OUT"@,
        d == TransferDirection::Internal ==> p.query_spec()[if p.account_role is Some { 1int } else { 0int }].1 == "INTERNAL"@,
        (p.account_role is None && p.status is None && p.origin is None && p.from is None
            && p.to is None && p.rule_execution_id is None && p.page is None && p.page_size is None)
            ==> p.query_spec() == seq![("direction"@, d.wire())],
        forall|e: TransferDirection| e != d ==> (#[trigger] (ListAccountTransfersParams { direction: Some(e), ..p }).query_spec()) != p.query_spec(),
{
    TransferDirection::lemma_wire_names();
    let k: int = if p.account_role is Some { 1int } else { 0int };
    let head = Seq::<(Seq<char>, Seq<char>)>::empty() + entry(
        "accountRole"@,
        match p.account_role {
            Some(r) => Some(r.query_value()),
            None => None,
        },
    );
    assert(head.len() == k);
    assert(p.query_spec()[k] == ("direction"@, d.wire()));
    if p.account_role is None && p.status is None && p.origin is None && p.from is None
        && p.to is None && p.rule_execution_id is None && p.page is None && p.page_size is None {
        assert(p.query_spec() =~= seq![("direction"@, d.wire())]);
    }
    assert forall|e: TransferDirection| e != d implies (#[trigger] (ListAccountTransfersParams { direction: Some(e), ..p }).query_spec()) != p.query_spec() by {
        let q = ListAccountTransfersParams { direction: Some(e), ..p };
        assert(q.query_spec()[k] == ("direction"@, e.wire()));
    }
}

/// Query parameters for `GET /rules`.
#[derive(Debug, Default, Clone)]
pub struct ListRulesParams {
    pub source_id: Option<String>,
    pub page: Option<u32>,
    pub page_size: Option<u32>,
}

impl ListRulesParams {
    /// `sourceId`, `page`, `pageSize`, in that order, each when set.
    pub open spec fn query_spec(self) -> Seq<(Seq<char>, Seq<char>)> {
        Seq::empty() + entry("sourceId"@, string_text(self.source_id)) + entry(
            "page"@,
            number_text(self.page),
        ) + entry("pageSize"@, number_text(self.page_size))
    }

    /// The query string pairs of the request.
    pub fn query(&self) -> (q: Query)
        ensures
            query_view(q@) == self.query_spec(),
    {
        let mut q = empty_query();
        push_entry(&mut q, "sourceId", copy_text(&self.source_id));
        push_entry(&mut q, "page", number(self.page));
        push_entry(&mut q, "pageSize", number(self.page_size));
        q
    }

    /// These filters, asking for `page` of `page_size` items.
    pub fn for_page(&self, page: u32, page_size: u32) -> (p: Self)
        ensures
            string_text(p.source_id) == string_text(self.source_id),
            p.page == Some(page),
            p.page_size == Some(page_size),
    {
        ListRulesParams { source_id: copy_text(&self.source_id), page: Some(page), page_size: Some(page_size) }
    }
}

/// Query parameters for `GET /rules/{ruleId}/executions`.
#[derive(Debug, Default, Clone)]
pub struct ListRuleExecutionsParams {
    pub status: Option<RuleExecutionStatus>,
    pub trigger_type: Option<TriggerType>,
    pub from: Option<String>,
    pub to: Option<String>,
    pub page: Option<u32>,
    pub page_size: Option<u32>,
}

impl ListRuleExecutionsParams {
    /// `status`, `triggerType`, `from`, `to`, `page`, `pageSize`, in that
    /// order, each when set.
    pub open spec fn query_spec(self) -> Seq<(Seq<char>, Seq<char>)> {
        Seq::empty() + entry(
            "status"@,
            match self.status {
                Some(s) => Some(s.wire()),
                None => None,
            },
        ) + entry(
            "triggerType"@,
            match self.trigger_type {
                Some(t) => Some(t.wire()),
                None => None,
            },
        ) + entry("from"@, string_text(self.from)) + entry("to"@, string_text(self.to)) + entry(
            "page"@,
            number_text(self.page),
        ) + entry("pageSize"@, number_text(self.page_size))
    }

    /// The query string pairs of the request.
    pub fn query(&self) -> (q: Query)
        ensures
            query_view(q@) == self.query_spec(),
    {
        let mut q = empty_query();
        push_entry(
            &mut q,
            "status",
            wire(
                match self.status {
                    Some(s) => Some(s.wire_name()),
                    None => None,
                },
            ),
        );
        push_entry(
            &mut q,
            "triggerType",
            wire(
                match self.trigger_type {
                    Some(t) => Some(t.wire_name()),
                    None => None,
                },
            ),
        );
        push_entry(&mut q, "from", copy_text(&self.from));
        push_entry(&mut q, "to", copy_text(&self.to));
        push_entry(&mut q, "page", number(self.page));
        push_entry(&mut q, "pageSize", number(self.page_size));
        q
    }

    /// These filters, asking for `page` of `page_size` items.
    pub fn for_page(&self, page: u32, page_size: u32) -> (p: Self)
        ensures
            p.status == self.status,
            p.trigger_type == self.trigger_type,
            string_text(p.from) == string_text(self.from),
            string_text(p.to) == string_text(self.to),
            p.page == Some(page),
            p.page_size == Some(page_size),
    {
        ListRuleExecutionsParams {
            status: self.status,
            trigger_type: self.trigger_type,
            from: copy_text(&self.from),
            to: copy_text(&self.to),
            page: Some(page),
            page_size: Some(page_size),
        }
    }
}

} // verus!
