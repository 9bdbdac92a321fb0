//! A verified client library for the Sequence Platform API: typed models,
//! request construction, pagination, retry decisions and client-side rate
//! limiting. Sending requests and decoding JSON happen around this crate;
//! every decision they rely on is made, and proved, here.

pub mod client;
pub mod http;
pub mod model;
mod text;

pub use client::credentials::{build_headers, Credentials, SecretText};
pub use client::error::{ClientError, ClientResult};
pub use client::paging::{next_page, resolve_page_size, Paginator, DEFAULT_PAGE_SIZE};
pub use client::params::{
    AccountRole, ListAccountTransfersParams, ListAccountsParams, ListRuleExecutionsParams,
    ListRulesParams, Query,
};
pub use client::url::{api_url, DEFAULT_API_BASE_URL};
pub use http::error::{HttpError, ReqwestError};
pub use http::retry::{RateLimit, DEFAULT_RATE_LIMIT_PER_MINUTE};
pub use http::transport::build_client;
pub use text::{decimal_string, decimal_string_i64};
