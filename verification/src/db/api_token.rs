//! Issuing, verifying, revoking and listing API tokens.
//!
//! Each operation is a method of [`DbConn`]. What an operation decides, it
//! decides in a free function that takes the storage's answer as a plain
//! value, so that the same rules can be driven against a table that is kept
//! elsewhere.

use crate::crypto::DIGEST_LENGTH;
use crate::db::error::{DatabaseError, DatabaseErrorView};
use crate::db::laws::law_issue_then_verify;
use crate::db::{listing_of, owned_by, string_to_uuid, verified_row, DbConn, Table};
use crate::filtering::{lemma_filter_all, lemma_filter_next, lemma_filter_none};
use crate::ident::{uuid_parse, uuid_text, uuid_to_string};
use crate::models::{NewToken, NewTokenView, Token, TokenSummary};
use crate::secret::{
    digests_match, generate_token, hash_token, is_plain_token, lemma_plain_token_bytes,
    token_digest,
};
use vstd::prelude::*;
use vstd::utf8::*;

verus! {

/// The row that is asked for when `user_id` is issued the secret
/// `plain_token` under the name `friendly_name`: it holds the secret's
/// digest, never the secret, and no expiry.
pub open spec fn issue_request(
    user_id: u128,
    friendly_name: Seq<char>,
    plain_token: Seq<char>,
) -> NewTokenView {
    NewTokenView { user_id, friendly_name, token: token_digest(plain_token), expires_at: None }
}

/// The error, if any, with which a result ends.
pub open spec fn error_of<T>(outcome: Result<T, DatabaseError>) -> Option<DatabaseErrorView> {
    match outcome {
        Ok(_) => None,
        Err(error) => Some(error@),
    }
}

/// The error with which `user_id`'s request to delete the token written as
/// `token_id` ends on `table`, if it fails: text that is no UUID is turned
/// away, and so is a token that the user does not own, whether it exists or
/// not.
pub open spec fn revoke_error(table: Table, user_id: u128, token_id: Seq<char>) -> Option<
    DatabaseErrorView,
> {
    match uuid_parse(token_id) {
        None => Some(DatabaseErrorView::MalformedIdentifier(token_id)),
        Some(id) => if table.owns(user_id, id) {
            None
        } else {
            Some(DatabaseErrorView::NotFound(token_id))
        },
    }
}

/// The table after `user_id` asked to delete the token written as
/// `token_id`.
pub open spec fn revoke(table: Table, user_id: u128, token_id: Seq<char>) -> Table {
    match uuid_parse(token_id) {
        None => table,
        Some(id) => table.delete(user_id, id),
    }
}

/// Makes a fresh secret for `user_id` and the row to store for it.
pub fn prepare_token(user_id: u128, friendly_name: String) -> (prepared: (NewToken, String))
    ensures
        is_plain_token(prepared.1@),
        prepared.0@ == issue_request(user_id, friendly_name@, prepared.1@),
        prepared.0@.token.len() == DIGEST_LENGTH,
        prepared.0@.token != encode_utf8(prepared.1@),
{
    let plain_token = generate_token();
    let token = hash_token(plain_token.as_str());
    proof {
        lemma_plain_token_bytes(plain_token@);
    }
    (NewToken { user_id, friendly_name, token, expires_at: None }, plain_token)
}

/// Ends an issuance: hands out the row that storage wrote together with the
/// secret, or reports the failure without a word of its cause.
pub fn token_issued(user_id: u128, inserted: Option<Token>, plain_token: String) -> (issued: Result<
    (Token, String),
    DatabaseError,
>)
    ensures
        match issued {
            Ok((row, secret)) => inserted.deep_view() == Some(row@) && secret@ == plain_token@,
            Err(error) => inserted is None && error@ == DatabaseErrorView::InsertTokenFailed(
                uuid_text(user_id),
            ),
        },
{
    match inserted {
        Some(row) => Ok((row, plain_token)),
        None => Err(DatabaseError::InsertTokenFailed(uuid_to_string(user_id))),
    }
}

/// Ends a revocation: `affected` is the number of rows that storage
/// deleted, or `None` where storage failed. Anything but a deleted row is
/// reported as not found.
pub fn token_deleted(token_id: String, affected: Option<usize>) -> (deleted: Result<
    (),
    DatabaseError,
>)
    ensures
        error_of(deleted) == match affected {
            Some(count) if count > 0 => None,
            _ => Some(DatabaseErrorView::NotFound(token_id@)),
        },
{
    match affected {
        Some(count) => {
            if count > 0 {
                Ok(())
            } else {
                Err(DatabaseError::NotFound(token_id))
            }
        },
        None => Err(DatabaseError::NotFound(token_id)),
    }
}

/// Ends a listing: of the rows that storage read, or `None` where it
/// failed, shows those that `user_id` owns, each without its digest.
pub fn tokens_listed(user_id: u128, fetched: Option<Vec<Token>>) -> (listed: Result<
    Vec<TokenSummary>,
    DatabaseError,
>)
    ensures
        match listed {
            Ok(shown) => fetched matches Some(rows) && shown.deep_view() == listing_of(
                rows.deep_view(),
                user_id,
            ),
            Err(error) => fetched is None && error@ == DatabaseErrorView::NotFound(
                uuid_text(user_id),
            ),
        },
{
    match fetched {
        Some(rows) => {
            let ghost all = rows.deep_view();
            let ghost owned = owned_by(user_id);
            let mut shown: Vec<TokenSummary> = Vec::new();
            let mut at: usize = 0;
            proof {
                lemma_filter_none(all.take(0), owned);
                assert(shown.deep_view() =~= listing_of(all.take(0), user_id));
            }
            while at < rows.len()
                invariant
                    at <= rows.len(),
                    all == rows.deep_view(),
                    owned == owned_by(user_id),
                    shown.deep_view() == listing_of(all.take(at as int), user_id),
                decreases rows.len() - at,
            {
                let ghost before = shown.deep_view();
                proof {
                    lemma_filter_next(all, owned, at as int);
                }
                if rows[at].user_id == user_id {
                    shown.push(rows[at].summary());
                    assert(shown.deep_view() =~= before.push(all[at as int].summary()));
                    assert(listing_of(all.take(at + 1), user_id) =~= before.push(
                        all[at as int].summary(),
                    ));
                }
                at = at + 1;
            }
            assert(all.take(at as int) == all);
            Ok(shown)
        },
        None => Err(DatabaseError::NotFound(uuid_to_string(user_id))),
    }
}

/// Ends a verification: `found` is what storage holds under `digest`, the
/// digest of the secret that was presented. The row is handed out if it is
/// stored under this digest and has not expired at `now`; every other case
/// is reported alike.
pub fn token_verified(found: Option<Token>, digest: &[u8], now: u64) -> (verified: Result<
    Token,
    DatabaseError,
>)
    ensures
        match verified {
            Ok(row) => verified_row(found.deep_view(), digest@, now) == Some(row@),
            Err(error) => verified_row(found.deep_view(), digest@, now) is None && error@
                == DatabaseErrorView::Unauthenticated,
        },
{
    match found {
        Some(row) => {
            let same = digests_match(row.token.as_slice(), digest);
            let live = !row.expired_at(now);
            if same && live {
                Ok(row)
            } else {
                Err(DatabaseError::Unauthenticated)
            }
        },
        None => Err(DatabaseError::Unauthenticated),
    }
}

impl DbConn {
    /// Creates an API token for the user and returns the row together with
    /// the secret. The secret is not kept: this is the one time it is seen.
    pub fn new_token(&mut self, user_id: u128, friendly_name: String) -> (issued: Result<
        (Token, String),
        DatabaseError,
    >)
        ensures
            final(self)@.valid(),
            old(self)@.rows.len() == 0 && old(self)@.next_id < u128::MAX ==> issued is Ok,
            match issued {
                Ok((row, plain_token)) => {
                    let request = issue_request(user_id, friendly_name@, plain_token@);
                    &&& is_plain_token(plain_token@)
                    &&& old(self)@.accepts(request.token)
                    &&& row@ == old(self)@.row_for(request)
                    &&& final(self)@ == old(self)@.insert(request)
                    &&& final(self)@.authenticate(request.token) == Some(row@)
                    &&& row@.token != encode_utf8(plain_token@)
                },
                Err(error) => {
                    &&& final(self)@ == old(self)@
                    &&& error@ == DatabaseErrorView::InsertTokenFailed(uuid_text(user_id))
                    &&& exists|plain_token: Seq<char>|
                        is_plain_token(plain_token) && !old(self)@.accepts(
                            #[trigger] token_digest(plain_token),
                        )
                },
            },
    {
        proof {
            use_type_invariant(&*self);
        }
        let (new_token, plain_token) = prepare_token(user_id, friendly_name);
        let inserted = self.insert_token(new_token);
        proof {
            if inserted is Some {
                law_issue_then_verify(old(self)@, user_id, friendly_name@, plain_token@);
            }
        }
        token_issued(user_id, inserted, plain_token)
    }

    /// Deletes an API token of the user. A token of somebody else is
    /// reported as not found, and stays. The identifier is read as
    /// [`string_to_uuid`] reads it; written as [`uuid_to_string`] writes it,
    /// it names the token with that identifier.
    pub fn delete_token(&mut self, user_id: u128, token_id: String) -> (deleted: Result<
        (),
        DatabaseError,
    >)
        ensures
            final(self)@.valid(),
            final(self)@ == revoke(old(self)@, user_id, token_id@),
            error_of(deleted) == revoke_error(old(self)@, user_id, token_id@),
            forall|id: u128| token_id@ == #[trigger] uuid_text(id) ==> uuid_parse(token_id@) == Some(id),
    {
        proof {
            use_type_invariant(&*self);
        }
        let id = match string_to_uuid(token_id.clone()) {
            Ok(id) => id,
            Err(error) => {
                return Err(error);
            },
        };
        let affected = self.delete_token_row(user_id, id);
        token_deleted(token_id, Some(affected))
    }

    /// Fetches all tokens of the given user, expired or not, each without
    /// its digest. A user without tokens gets an empty list.
    pub fn get_tokens_for_user(&mut self, user_id: u128) -> (listed: Result<
        Vec<TokenSummary>,
        DatabaseError,
    >)
        ensures
            final(self)@ == old(self)@,
            listed matches Ok(shown) && shown.deep_view() == old(self)@.listing(user_id),
    {
        let rows = self.find_tokens_by_user(user_id);
        proof {
            let owned = owned_by(user_id);
            let all = self@.rows;
            assert forall|i: int| 0 <= i < all.filter(owned).len() implies owned(
                #[trigger] all.filter(owned)[i],
            ) by {
                all.lemma_filter_pred(owned, i);
            }
            lemma_filter_all(all.filter(owned), owned);
        }
        tokens_listed(user_id, Some(rows))
    }

    /// Verifies a presented secret at the table's time, and returns the row
    /// that it proves.
    pub fn verify_token(&self, plain_token: &str) -> (verified: Result<Token, DatabaseError>)
        ensures
            match verified {
                Ok(row) => self@.authenticate(token_digest(plain_token@)) == Some(row@),
                Err(error) => self@.authenticate(token_digest(plain_token@)) is None && error@
                    == DatabaseErrorView::Unauthenticated,
            },
    {
        let digest = hash_token(plain_token);
        let found = self.find_token_by_digest(digest.as_slice());
        token_verified(found, digest.as_slice(), self.time())
    }
}

} // verus!
