//! The token table and the operations on it.
//!
//! [`DbConn`] holds the table in memory. [`Table`] is its mathematical
//! value; the contracts of every operation, and the laws in [`laws`], are
//! stated over it.

pub mod api_token;
pub mod error;
pub mod laws;

use crate::db::error::{DatabaseError, DatabaseErrorView};
use crate::ident::{parse_uuid, uuid_parse, uuid_text};
use crate::filtering::{
    lemma_filter_all, lemma_filter_next, lemma_filter_none, lemma_filter_one_out,
};
use crate::models::{NewToken, NewTokenView, Token, TokenSummaryView, TokenView};
use crate::secret::digests_match;
use vstd::prelude::*;

verus! {

/// The token table as contracts see it: the rows in the order in which they
/// were written, the identifier that the next row gets, and the table's
/// clock in seconds since the Unix epoch.
pub struct Table {
    pub rows: Seq<TokenView>,
    pub next_id: u128,
    pub now: u64,
}

impl Table {
    /// What every table that [`DbConn`] holds satisfies: no two rows share
    /// an identifier or a digest, and every identifier in use lies below
    /// the next to be given out.
    pub open spec fn valid(self) -> bool {
        &&& forall|i: int, j: int|
            #![trigger self.rows[i], self.rows[j]]
            0 <= i < j < self.rows.len() ==> self.rows[i].id != self.rows[j].id
        &&& forall|i: int, j: int|
            #![trigger self.rows[i], self.rows[j]]
            0 <= i < j < self.rows.len() ==> self.rows[i].token != self.rows[j].token
        &&& forall|i: int| 0 <= i < self.rows.len() ==> (#[trigger] self.rows[i]).id < self.next_id
    }

    /// Whether some row is stored under `digest`.
    pub open spec fn holds_digest(self, digest: Seq<u8>) -> bool {
        exists|i: int| 0 <= i < self.rows.len() && (#[trigger] self.rows[i]).token == digest
    }

    /// Whether a row with this digest can be written: the digest is new to
    /// the table and an identifier is left.
    pub open spec fn accepts(self, digest: Seq<u8>) -> bool {
        !self.holds_digest(digest) && self.next_id < u128::MAX
    }

    /// The row that the table makes of `new`: it adds the next identifier
    /// and the time of its clock.
    pub open spec fn row_for(self, new: NewTokenView) -> TokenView {
        TokenView {
            id: self.next_id,
            user_id: new.user_id,
            friendly_name: new.friendly_name,
            token: new.token,
            expires_at: new.expires_at,
            created_at: self.now,
        }
    }

    /// The table after `new` was written to it.
    pub open spec fn insert(self, new: NewTokenView) -> Table {
        Table {
            rows: self.rows.push(self.row_for(new)),
            next_id: (self.next_id + 1) as u128,
            now: self.now,
        }
    }

    /// Whether `user_id` owns a row whose identifier is `token_id`.
    pub open spec fn owns(self, user_id: u128, token_id: u128) -> bool {
        exists|i: int|
            0 <= i < self.rows.len() && (#[trigger] self.rows[i]).id == token_id
                && self.rows[i].user_id == user_id
    }

    /// The table after the row that is named `token_id` and owned by
    /// `user_id` was deleted; the same table where there is no such row.
    pub open spec fn delete(self, user_id: u128, token_id: u128) -> Table {
        Table { rows: self.rows.filter(kept_by_delete(user_id, token_id)), ..self }
    }

    /// What a listing for `user_id` shows: the user's rows in the order of
    /// the table, each without its digest.
    pub open spec fn listing(self, user_id: u128) -> Seq<TokenSummaryView> {
        listing_of(self.rows, user_id)
    }

    /// The row stored under `digest`, if there is one.
    pub open spec fn find(self, digest: Seq<u8>) -> Option<TokenView> {
        if self.holds_digest(digest) {
            Some(
                self.rows[choose|i: int|
                    0 <= i < self.rows.len() && (#[trigger] self.rows[i]).token == digest],
            )
        } else {
            None
        }
    }

    /// The row that a secret with this digest proves at the table's time:
    /// the row stored under the digest, unless it has expired.
    pub open spec fn authenticate(self, digest: Seq<u8>) -> Option<TokenView> {
        verified_row(self.find(digest), digest, self.now)
    }

    /// A delete that names no row of the user changes nothing.
    pub proof fn lemma_delete_of_none(self, user_id: u128, token_id: u128)
        requires
            !self.owns(user_id, token_id),
        ensures
            self.delete(user_id, token_id) == self,
    {
        let keep = kept_by_delete(user_id, token_id);
        assert forall|i: int| 0 <= i < self.rows.len() implies keep(#[trigger] self.rows[i]) by {
            if !keep(self.rows[i]) {
                assert(self.owns(user_id, token_id));
            }
        }
        lemma_filter_all(self.rows, keep);
    }

    /// A delete that names a row of the user takes out that row and no
    /// other.
    pub proof fn lemma_delete_of_row(self, user_id: u128, token_id: u128, at: int)
        requires
            self.valid(),
            0 <= at < self.rows.len(),
            self.rows[at].id == token_id,
            self.rows[at].user_id == user_id,
        ensures
            self.owns(user_id, token_id),
            self.delete(user_id, token_id).rows == self.rows.remove(at),
    {
        let keep = kept_by_delete(user_id, token_id);
        assert forall|i: int| 0 <= i < self.rows.len() && i != at implies keep(
            #[trigger] self.rows[i],
        ) by {
            assert(self.rows[i].id != self.rows[at].id);
        }
        lemma_filter_one_out(self.rows, keep, at);
    }

    /// Deleting leaves the table valid.
    pub proof fn lemma_delete_keeps_valid(self, user_id: u128, token_id: u128)
        requires
            self.valid(),
        ensures
            self.delete(user_id, token_id).valid(),
    {
        if self.owns(user_id, token_id) {
            let at = choose|i: int|
                0 <= i < self.rows.len() && (#[trigger] self.rows[i]).id == token_id
                    && self.rows[i].user_id == user_id;
            self.lemma_delete_of_row(user_id, token_id, at);
            self.rows.remove_ensures(at);
        } else {
            self.lemma_delete_of_none(user_id, token_id);
        }
    }

    /// Writing a row that the table accepts leaves the table valid.
    pub proof fn lemma_insert_keeps_valid(self, new: NewTokenView)
        requires
            self.valid(),
            self.accepts(new.token),
        ensures
            self.insert(new).valid(),
    {
        let after = self.insert(new);
        assert forall|i: int, j: int|
            #![trigger after.rows[i], after.rows[j]]
            0 <= i < j < after.rows.len() implies after.rows[i].token != after.rows[j].token by {
            if j == self.rows.len() {
                assert(self.rows[i].token != new.token);
            }
        }
    }
}

/// The rows that a delete by `user_id` of `token_id` leaves in place: all but
/// the one that has this identifier and this owner.
pub open spec fn kept_by_delete(user_id: u128, token_id: u128) -> spec_fn(TokenView) -> bool {
    |row: TokenView| !(row.id == token_id && row.user_id == user_id)
}

/// The rows that `user_id` owns.
pub open spec fn owned_by(user_id: u128) -> spec_fn(TokenView) -> bool {
    |row: TokenView| row.user_id == user_id
}

/// What is shown to `user_id` of `rows`: the rows that the user owns, in
/// their order, each without its digest.
pub open spec fn listing_of(rows: Seq<TokenView>, user_id: u128) -> Seq<TokenSummaryView> {
    rows.filter(owned_by(user_id)).map_values(|row: TokenView| row.summary())
}

/// The row that is proved by a secret with digest `digest` when a lookup by
/// that digest gave `found`: the row found, provided that it is stored under
/// this very digest and has not expired at `now`.
pub open spec fn verified_row(found: Option<TokenView>, digest: Seq<u8>, now: u64) -> Option<
    TokenView,
> {
    match found {
        Some(row) if row.token == digest && !row.expired_at(now) => Some(row),
        _ => None,
    }
}

/// Reads a UUID from text, in any of the forms that the `uuid` crate reads;
/// the hyphenated form that [`uuid_to_string`](crate::ident::uuid_to_string)
/// writes is one of them.
pub fn string_to_uuid(text: String) -> (parsed: Result<u128, DatabaseError>)
    ensures
        match parsed {
            Ok(id) => uuid_parse(text@) == Some(id),
            Err(error) => uuid_parse(text@) is None && error@
                == DatabaseErrorView::MalformedIdentifier(text@),
        },
        forall|id: u128| text@ == #[trigger] uuid_text(id) ==> uuid_parse(text@) == Some(id),
{
    match parse_uuid(text.as_str()) {
        Ok(id) => Ok(id),
        Err(_) => Err(DatabaseError::MalformedIdentifier(text)),
    }
}

/// A connection to the token table. The table lives in memory, behind the
/// connection; [`Table`] is what it holds.
pub struct DbConn {
    rows: Vec<Token>,
    next_id: u128,
    now: u64,
}

impl View for DbConn {
    type V = Table;

    closed spec fn view(&self) -> Table {
        Table {
            rows: self.rows@.map_values(|row: Token| row@),
            next_id: self.next_id,
            now: self.now,
        }
    }
}

impl DbConn {
    #[verifier::type_invariant]
    spec fn well_formed(self) -> bool {
        self@.valid()
    }

    /// Opens a connection to an empty table whose clock stands at zero.
    pub fn new() -> (conn: DbConn)
        ensures
            conn@ == (Table { rows: Seq::empty(), next_id: 0, now: 0 }),
            conn@.valid(),
    {
        let conn = DbConn { rows: Vec::new(), next_id: 0, now: 0 };
        assert(conn@.rows =~= Seq::empty());
        conn
    }

    /// Sets the table's clock, in seconds since the Unix epoch.
    pub fn set_time(&mut self, now: u64)
        ensures
            final(self)@ == (Table { now, ..old(self)@ }),
            final(self)@.valid(),
    {
        proof {
            use_type_invariant(&*self);
        }
        self.now = now;
    }

    /// The table's clock, in seconds since the Unix epoch.
    pub fn time(&self) -> (now: u64)
        ensures
            now == self@.now,
    {
        self.now
    }

    /// Whether some row is stored under `digest`.
    pub fn holds_digest(&self, digest: &[u8]) -> (held: bool)
        ensures
            held == self@.holds_digest(digest@),
    {
        let mut at: usize = 0;
        let mut held = false;
        while at < self.rows.len()
            invariant
                at <= self.rows.len(),
                held == exists|i: int| 0 <= i < at && (#[trigger] self@.rows[i]).token == digest@,
            decreases self.rows.len() - at,
        {
            assert(self@.rows[at as int] == self.rows[at as int]@);
            if digests_match(self.rows[at].token.as_slice(), digest) {
                held = true;
            }
            at = at + 1;
        }
        held
    }

    /// Looks a row up by its digest.
    pub fn find_token_by_digest(&self, digest: &[u8]) -> (found: Option<Token>)
        ensures
            found.deep_view() == self@.find(digest@),
    {
        proof {
            use_type_invariant(self);
        }
        let mut at: usize = 0;
        while at < self.rows.len()
            invariant
                at <= self.rows.len(),
                self@.valid(),
                forall|i: int| 0 <= i < at ==> (#[trigger] self@.rows[i]).token != digest@,
            decreases self.rows.len() - at,
        {
            assert(self@.rows[at as int] == self.rows[at as int]@);
            if digests_match(self.rows[at].token.as_slice(), digest) {
                let found = self.rows[at].clone();
                proof {
                    let chosen = choose|i: int|
                        0 <= i < self@.rows.len() && (#[trigger] self@.rows[i]).token == digest@;
                    assert(chosen == at);
                }
                return Some(found);
            }
            at = at + 1;
        }
        None
    }

    /// Reads the rows that `user_id` owns, in the order of the table.
    pub fn find_tokens_by_user(&self, user_id: u128) -> (found: Vec<Token>)
        ensures
            found.deep_view() == self@.rows.filter(owned_by(user_id)),
    {
        let mut found: Vec<Token> = Vec::new();
        let mut at: usize = 0;
        assert(self@.rows.take(0).filter(owned_by(user_id)) =~= Seq::empty()) by {
            lemma_filter_none(self@.rows.take(0), owned_by(user_id));
        }
        while at < self.rows.len()
            invariant
                at <= self.rows.len(),
                found.deep_view() == self@.rows.take(at as int).filter(owned_by(user_id)),
            decreases self.rows.len() - at,
        {
            let ghost before = found.deep_view();
            proof {
                assert(self@.rows[at as int] == self.rows[at as int]@);
                lemma_filter_next(self@.rows, owned_by(user_id), at as int);
            }
            if self.rows[at].user_id == user_id {
                found.push(self.rows[at].clone());
                assert(found.deep_view() =~= before.push(self@.rows[at as int]));
            }
            at = at + 1;
        }
        assert(self@.rows.take(at as int) == self@.rows);
        found
    }

    /// Deletes the row that has the identifier `token_id` and the owner
    /// `user_id`, and tells how many rows that were: one or none.
    pub fn delete_token_row(&mut self, user_id: u128, token_id: u128) -> (affected: usize)
        ensures
            final(self)@.valid(),
            final(self)@ == old(self)@.delete(user_id, token_id),
            affected == if old(self)@.owns(user_id, token_id) { 1usize } else { 0usize },
    {
        proof {
            use_type_invariant(&*self);
        }
        let mut at: usize = 0;
        while at < self.rows.len()
            invariant
                at <= self.rows.len(),
                *self == *old(self),
                self@.valid(),
                forall|i: int|
                    0 <= i < at ==> !((#[trigger] self@.rows[i]).id == token_id
                        && self@.rows[i].user_id == user_id),
            decreases self.rows.len() - at,
        {
            assert(self@.rows[at as int] == self.rows[at as int]@);
            if self.rows[at].id == token_id && self.rows[at].user_id == user_id {
                let mut rows: Vec<Token> = Vec::new();
                core::mem::swap(&mut self.rows, &mut rows);
                rows.remove(at);
                proof {
                    let left = rows@.map_values(|row: Token| row@);
                    assert(left =~= old(self)@.rows.remove(at as int));
                    old(self)@.lemma_delete_of_row(user_id, token_id, at as int);
                    old(self)@.lemma_delete_keeps_valid(user_id, token_id);
                }
                core::mem::swap(&mut self.rows, &mut rows);
                return 1;
            }
            at = at + 1;
        }
        proof {
            self@.lemma_delete_of_none(user_id, token_id);
        }
        0
    }

    /// Writes a row. The table refuses a digest that it already holds, and
    /// it refuses every row once its identifiers are used up.
    pub fn insert_token(&mut self, new: NewToken) -> (inserted: Option<Token>)
        ensures
            final(self)@.valid(),
            match inserted {
                Some(row) => {
                    &&& old(self)@.accepts(new@.token)
                    &&& row@ == old(self)@.row_for(new@)
                    &&& final(self)@ == old(self)@.insert(new@)
                },
                None => !old(self)@.accepts(new@.token) && final(self)@ == old(self)@,
            },
    {
        proof {
            use_type_invariant(&*self);
        }
        if self.next_id == u128::MAX || self.holds_digest(new.token.as_slice()) {
            return None;
        }
        let row = Token {
            id: self.next_id,
            user_id: new.user_id,
            friendly_name: new.friendly_name,
            token: new.token,
            expires_at: new.expires_at,
            created_at: self.now,
        };
        let copy = row.clone();
        let mut rows: Vec<Token> = Vec::new();
        core::mem::swap(&mut self.rows, &mut rows);
        rows.push(row);
        self.next_id = self.next_id + 1;
        proof {
            let written = rows@.map_values(|row: Token| row@);
            assert(written =~= old(self)@.rows.push(copy@));
            old(self)@.lemma_insert_keeps_valid(new@);
        }
        core::mem::swap(&mut self.rows, &mut rows);
        Some(copy)
    }
}

} // verus!
