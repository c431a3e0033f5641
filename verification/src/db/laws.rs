//! What holds between the operations, proved over [`Table`].
//!
//! Each law speaks in the terms of the operations' own contracts: a caller
//! who holds the postcondition of one call can apply the law to learn what
//! the next call returns.

use crate::db::api_token::{issue_request, revoke, revoke_error};
use crate::db::error::DatabaseErrorView;
use crate::db::{owned_by, Table};
use crate::filtering::lemma_filter_none;
use crate::ident::uuid_parse;
use crate::models::TokenSummaryView;
use crate::secret::token_digest;
use vstd::prelude::*;

verus! {

/// In a valid table the row stored under a digest is the only row with that
/// digest.
pub proof fn lemma_find_is_the_row(table: Table, at: int)
    requires
        table.valid(),
        0 <= at < table.rows.len(),
    ensures
        table.find(table.rows[at].token) == Some(table.rows[at]),
{
    let digest = table.rows[at].token;
    let chosen = choose|i: int|
        0 <= i < table.rows.len() && (#[trigger] table.rows[i]).token == digest;
    assert(chosen == at);
}

/// A secret verifies right after it was issued, and proves the row that was
/// written for it: a row of the user it was issued to.
pub proof fn law_issue_then_verify(
    table: Table,
    user_id: u128,
    friendly_name: Seq<char>,
    plain_token: Seq<char>,
)
    requires
        table.valid(),
        table.accepts(token_digest(plain_token)),
    ensures
        ({
            let request = issue_request(user_id, friendly_name, plain_token);
            let row = table.row_for(request);
            &&& table.insert(request).authenticate(token_digest(plain_token)) == Some(row)
            &&& row.user_id == user_id
        }),
{
    let request = issue_request(user_id, friendly_name, plain_token);
    let after = table.insert(request);
    table.lemma_insert_keeps_valid(request);
    assert(after.rows[table.rows.len() as int] == table.row_for(request));
    lemma_find_is_the_row(after, table.rows.len() as int);
}

/// Issuing a token changes no row that was there: a digest that was held
/// before is held after, by the same row.
pub proof fn law_issue_keeps_rows(
    table: Table,
    user_id: u128,
    friendly_name: Seq<char>,
    plain_token: Seq<char>,
    at: int,
)
    requires
        table.valid(),
        table.accepts(token_digest(plain_token)),
        0 <= at < table.rows.len(),
    ensures
        table.insert(issue_request(user_id, friendly_name, plain_token)).find(table.rows[at].token)
            == Some(table.rows[at]),
{
    let request = issue_request(user_id, friendly_name, plain_token);
    let after = table.insert(request);
    table.lemma_insert_keeps_valid(request);
    assert(after.rows[at] == table.rows[at]);
    lemma_find_is_the_row(after, at);
}

/// Two tokens issued one after the other, to the same user or not, differ
/// in their identifiers, in their stored digests and in their secrets.
pub proof fn law_issued_twice_differ(
    table: Table,
    first_user: u128,
    first_name: Seq<char>,
    first_plain: Seq<char>,
    second_user: u128,
    second_name: Seq<char>,
    second_plain: Seq<char>,
)
    requires
        table.valid(),
        table.accepts(token_digest(first_plain)),
        table.insert(issue_request(first_user, first_name, first_plain)).accepts(
            token_digest(second_plain),
        ),
    ensures
        ({
            let first = issue_request(first_user, first_name, first_plain);
            let second = issue_request(second_user, second_name, second_plain);
            let first_row = table.row_for(first);
            let second_row = table.insert(first).row_for(second);
            &&& first_row.id != second_row.id
            &&& first_row.token != second_row.token
            &&& first_plain != second_plain
        }),
{
    let first = issue_request(first_user, first_name, first_plain);
    let after = table.insert(first);
    assert(after.rows[table.rows.len() as int].token == token_digest(first_plain));
}

/// After its owner revoked a token, the secret of that token verifies no
/// more.
pub proof fn law_revoke_then_verify(
    table: Table,
    user_id: u128,
    token_id: Seq<char>,
    plain_token: Seq<char>,
)
    requires
        table.valid(),
        table.find(token_digest(plain_token)) matches Some(row) && row.user_id == user_id
            && uuid_parse(token_id) == Some(row.id),
    ensures
        revoke_error(table, user_id, token_id) is None,
        revoke(table, user_id, token_id).authenticate(token_digest(plain_token)) is None,
{
    let digest = token_digest(plain_token);
    let at = choose|i: int| 0 <= i < table.rows.len() && (#[trigger] table.rows[i]).token == digest;
    table.lemma_delete_of_row(user_id, table.rows[at].id, at);
    table.rows.remove_ensures(at);
}

/// Revoking a token changes no other row: the digest of another token is
/// held after as before, by the same row.
pub proof fn law_revoke_keeps_other_rows(table: Table, user_id: u128, token_id: Seq<char>, at: int)
    requires
        table.valid(),
        0 <= at < table.rows.len(),
        uuid_parse(token_id) != Some(table.rows[at].id),
    ensures
        revoke(table, user_id, token_id).find(table.rows[at].token) == Some(table.rows[at]),
{
    lemma_find_is_the_row(table, at);
    if uuid_parse(token_id) is Some {
        let id = uuid_parse(token_id)->0;
        table.lemma_delete_keeps_valid(user_id, id);
        if table.owns(user_id, id) {
            let out = choose|i: int|
                0 <= i < table.rows.len() && (#[trigger] table.rows[i]).id == id
                    && table.rows[i].user_id == user_id;
            table.lemma_delete_of_row(user_id, id, out);
            table.rows.remove_ensures(out);
            let left = table.delete(user_id, id);
            if at < out {
                assert(left.rows[at] == table.rows[at]);
                lemma_find_is_the_row(left, at);
            } else {
                assert(left.rows[at - 1] == table.rows[at]);
                lemma_find_is_the_row(left, at - 1);
            }
        } else {
            table.lemma_delete_of_none(user_id, id);
        }
    }
}

/// A user who asks to revoke somebody else's token is told that there is no
/// such token, and the table stays as it is.
pub proof fn law_revoke_by_other_user(table: Table, user_id: u128, token_id: Seq<char>, at: int)
    requires
        table.valid(),
        0 <= at < table.rows.len(),
        uuid_parse(token_id) == Some(table.rows[at].id),
        table.rows[at].user_id != user_id,
    ensures
        revoke_error(table, user_id, token_id) == Some(DatabaseErrorView::NotFound(token_id)),
        revoke(table, user_id, token_id) == table,
{
    let id = table.rows[at].id;
    if table.owns(user_id, id) {
        let other = choose|i: int|
            0 <= i < table.rows.len() && (#[trigger] table.rows[i]).id == id
                && table.rows[i].user_id == user_id;
        assert(table.rows[other].id == table.rows[at].id);
    }
    table.lemma_delete_of_none(user_id, id);
}

/// A listing shows no row of another user.
pub proof fn law_listing_shows_owner_only(table: Table, user_id: u128)
    ensures
        forall|i: int|
            0 <= i < table.listing(user_id).len() ==> (#[trigger] table.listing(
                user_id,
            )[i]).user_id == user_id,
{
    let owned = table.rows.filter(owned_by(user_id));
    assert forall|i: int| 0 <= i < table.listing(user_id).len() implies (#[trigger] table.listing(
        user_id,
    )[i]).user_id == user_id by {
        table.rows.lemma_filter_pred(owned_by(user_id), i);
        assert(table.listing(user_id)[i] == owned[i].summary());
    }
}

/// A listing shows every row of the user.
pub proof fn law_listing_shows_every_row(table: Table, user_id: u128, at: int)
    requires
        0 <= at < table.rows.len(),
        table.rows[at].user_id == user_id,
    ensures
        table.listing(user_id).contains(table.rows[at].summary()),
{
    let owned = table.rows.filter(owned_by(user_id));
    table.rows.lemma_filter_contains(owned_by(user_id), at);
    let i = choose|i: int| 0 <= i < owned.len() && owned[i] == table.rows[at];
    assert(table.listing(user_id)[i] == table.rows[at].summary());
}

/// The listing of a user without tokens is empty.
pub proof fn law_listing_of_no_tokens(table: Table, user_id: u128)
    requires
        forall|i: int| 0 <= i < table.rows.len() ==> (#[trigger] table.rows[i]).user_id != user_id,
    ensures
        table.listing(user_id) == Seq::<TokenSummaryView>::empty(),
{
    lemma_filter_none(table.rows, owned_by(user_id));
}

} // verus!
