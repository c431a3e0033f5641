//! The rows of the token table and their mathematical values.

use vstd::prelude::*;

verus! {

/// One row of the token table.
///
/// The secret handed to the user is not part of the row: `token` holds the
/// SHA-256 digest of it. Timestamps are seconds since the Unix epoch.
#[derive(Debug, PartialEq, Eq)]
pub struct Token {
    pub id: u128,
    pub user_id: u128,
    pub friendly_name: String,
    pub token: Vec<u8>,
    pub expires_at: Option<u64>,
    pub created_at: u64,
}

/// What a [`Token`] stands for in contracts.
pub struct TokenView {
    pub id: u128,
    pub user_id: u128,
    pub friendly_name: Seq<char>,
    pub token: Seq<u8>,
    pub expires_at: Option<u64>,
    pub created_at: u64,
}

impl View for Token {
    type V = TokenView;

    open spec fn view(&self) -> TokenView {
        TokenView {
            id: self.id,
            user_id: self.user_id,
            friendly_name: self.friendly_name@,
            token: self.token@,
            expires_at: self.expires_at,
            created_at: self.created_at,
        }
    }
}

impl DeepView for Token {
    type V = TokenView;

    open spec fn deep_view(&self) -> TokenView {
        self@
    }
}

impl Clone for Token {
    fn clone(&self) -> (copy: Token)
        ensures
            copy@ == self@,
    {
        Token {
            id: self.id,
            user_id: self.user_id,
            friendly_name: self.friendly_name.clone(),
            token: self.token.clone(),
            expires_at: self.expires_at,
            created_at: self.created_at,
        }
    }
}

/// The columns that the caller supplies for a new row; the table adds the
/// identifier and the creation time.
#[derive(Debug, PartialEq, Eq)]
pub struct NewToken {
    pub user_id: u128,
    pub friendly_name: String,
    pub token: Vec<u8>,
    pub expires_at: Option<u64>,
}

/// What a [`NewToken`] stands for in contracts.
pub struct NewTokenView {
    pub user_id: u128,
    pub friendly_name: Seq<char>,
    pub token: Seq<u8>,
    pub expires_at: Option<u64>,
}

impl View for NewToken {
    type V = NewTokenView;

    open spec fn view(&self) -> NewTokenView {
        NewTokenView {
            user_id: self.user_id,
            friendly_name: self.friendly_name@,
            token: self.token@,
            expires_at: self.expires_at,
        }
    }
}

/// A row as it is shown in a listing: every column but the digest.
#[derive(Debug, PartialEq, Eq)]
pub struct TokenSummary {
    pub id: u128,
    pub user_id: u128,
    pub friendly_name: String,
    pub expires_at: Option<u64>,
    pub created_at: u64,
}

/// What a [`TokenSummary`] stands for in contracts.
pub struct TokenSummaryView {
    pub id: u128,
    pub user_id: u128,
    pub friendly_name: Seq<char>,
    pub expires_at: Option<u64>,
    pub created_at: u64,
}

impl View for TokenSummary {
    type V = TokenSummaryView;

    open spec fn view(&self) -> TokenSummaryView {
        TokenSummaryView {
            id: self.id,
            user_id: self.user_id,
            friendly_name: self.friendly_name@,
            expires_at: self.expires_at,
            created_at: self.created_at,
        }
    }
}

impl DeepView for TokenSummary {
    type V = TokenSummaryView;

    open spec fn deep_view(&self) -> TokenSummaryView {
        self@
    }
}

impl TokenView {
    /// The row without its digest.
    pub open spec fn summary(self) -> TokenSummaryView {
        TokenSummaryView {
            id: self.id,
            user_id: self.user_id,
            friendly_name: self.friendly_name,
            expires_at: self.expires_at,
            created_at: self.created_at,
        }
    }

    /// Whether the row's expiry lies before `now`. A row without an expiry
    /// never expires.
    pub open spec fn expired_at(self, now: u64) -> bool {
        self.expires_at matches Some(deadline) && deadline < now
    }
}

impl Token {
    /// The row without its digest.
    pub fn summary(&self) -> (shown: TokenSummary)
        ensures
            shown@ == self@.summary(),
    {
        TokenSummary {
            id: self.id,
            user_id: self.user_id,
            friendly_name: self.friendly_name.clone(),
            expires_at: self.expires_at,
            created_at: self.created_at,
        }
    }

    /// Whether the row's expiry lies before `now`.
    pub fn expired_at(&self, now: u64) -> (gone: bool)
        ensures
            gone == self@.expired_at(now),
    {
        match self.expires_at {
            Some(deadline) => deadline < now,
            None => false,
        }
    }
}

} // verus!
