//! The credential record and the state that request handling starts from.

use vstd::prelude::*;

verus! {

/// The persisted credential record. Every field may be absent.
#[derive(Clone, Debug, PartialEq)]
pub struct CodexTokens {
    pub id_token: Option<String>,
    pub access_token: Option<String>,
    pub refresh_token: Option<String>,
    pub account_id: Option<String>,
    pub last_refresh: Option<String>,
    pub api_key: Option<String>,
}

/// The mathematical model of [`CodexTokens`].
pub struct TokensModel {
    pub id_token: Option<Seq<char>>,
    pub access_token: Option<Seq<char>>,
    pub refresh_token: Option<Seq<char>>,
    pub account_id: Option<Seq<char>>,
    pub last_refresh: Option<Seq<char>>,
    pub api_key: Option<Seq<char>>,
}

impl DeepView for CodexTokens {
    type V = TokensModel;

    open spec fn deep_view(&self) -> TokensModel {
        TokensModel {
            id_token: self.id_token.deep_view(),
            access_token: self.access_token.deep_view(),
            refresh_token: self.refresh_token.deep_view(),
            account_id: self.account_id.deep_view(),
            last_refresh: self.last_refresh.deep_view(),
            api_key: self.api_key.deep_view(),
        }
    }
}

/// The record with every field absent.
pub open spec fn no_tokens() -> TokensModel {
    TokensModel {
        id_token: None,
        access_token: None,
        refresh_token: None,
        account_id: None,
        last_refresh: None,
        api_key: None,
    }
}

/// A copy of an optional text.
pub fn copy_text(o: &Option<String>) -> (r: Option<String>)
    ensures
        r.deep_view() == o.deep_view(),
{
    match o {
        Some(s) => Some(s.clone()),
        None => None,
    }
}

impl Default for CodexTokens {
    fn default() -> (t: CodexTokens)
        ensures
            t.deep_view() == no_tokens(),
    {
        CodexTokens {
            id_token: None,
            access_token: None,
            refresh_token: None,
            account_id: None,
            last_refresh: None,
            api_key: None,
        }
    }
}

impl CodexTokens {
    /// A copy of the record.
    pub fn snapshot(&self) -> (t: CodexTokens)
        ensures
            t.deep_view() == self.deep_view(),
    {
        CodexTokens {
            id_token: copy_text(&self.id_token),
            access_token: copy_text(&self.access_token),
            refresh_token: copy_text(&self.refresh_token),
            account_id: copy_text(&self.account_id),
            last_refresh: copy_text(&self.last_refresh),
            api_key: copy_text(&self.api_key),
        }
    }
}

/// What request handling works from: a snapshot of the credential record.
#[derive(Clone, Debug, PartialEq)]
pub struct CodexState {
    pub tokens: CodexTokens,
}

impl CodexState {
    /// The state for a snapshot of the credential record.
    pub fn new(tokens: CodexTokens) -> (s: CodexState)
        ensures
            s.tokens == tokens,
    {
        CodexState { tokens }
    }
}

} // verus!
