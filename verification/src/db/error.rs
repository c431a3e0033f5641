//! The errors that the token operations report.

use vstd::prelude::*;

verus! {

/// Why a token operation failed. No variant carries text from the storage
/// layer: the payload, where there is one, is the identifier that the caller
/// gave.
#[derive(Debug, PartialEq, Eq)]
pub enum DatabaseError {
    /// The row for a new token could not be written; holds the user's
    /// identifier in hyphenated form.
    InsertTokenFailed(String),
    /// No row matches, or the row belongs to somebody else; holds the
    /// identifier that was asked for, as the caller wrote it.
    NotFound(String),
    /// The presented secret matches no row that is still valid.
    Unauthenticated,
    /// The text given as a token identifier is no UUID; holds that text.
    MalformedIdentifier(String),
}

/// What a [`DatabaseError`] stands for in contracts.
pub enum DatabaseErrorView {
    InsertTokenFailed(Seq<char>),
    NotFound(Seq<char>),
    Unauthenticated,
    MalformedIdentifier(Seq<char>),
}

impl View for DatabaseError {
    type V = DatabaseErrorView;

    open spec fn view(&self) -> DatabaseErrorView {
        match self {
            DatabaseError::InsertTokenFailed(id) => DatabaseErrorView::InsertTokenFailed(id@),
            DatabaseError::NotFound(id) => DatabaseErrorView::NotFound(id@),
            DatabaseError::Unauthenticated => DatabaseErrorView::Unauthenticated,
            DatabaseError::MalformedIdentifier(text) => DatabaseErrorView::MalformedIdentifier(text@),
        }
    }
}

impl Clone for DatabaseError {
    fn clone(&self) -> (copy: DatabaseError)
        ensures
            copy@ == self@,
    {
        match self {
            DatabaseError::InsertTokenFailed(id) => DatabaseError::InsertTokenFailed(id.clone()),
            DatabaseError::NotFound(id) => DatabaseError::NotFound(id.clone()),
            DatabaseError::Unauthenticated => DatabaseError::Unauthenticated,
            DatabaseError::MalformedIdentifier(text) => DatabaseError::MalformedIdentifier(
                text.clone(),
            ),
        }
    }
}

} // verus!
