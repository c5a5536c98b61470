//! What can go wrong, in three kinds: a value that the domain cannot hold, a
//! statement that cannot be built, and a failure of the store.

use vstd::prelude::*;

verus! {

/// An error of the mapper.
#[derive(Debug, PartialEq, Eq)]
pub enum Error {
    /// An entity did not decompose into a flat set of fields. Holds the
    /// description of the entity.
    NotFlat(String),
    /// The value of a column has no representation in the value domain.
    /// Holds the name of the column.
    Unrepresentable(String),
    /// A column has the empty name.
    UnnamedColumn,
    /// No column is left to write.
    NoColumns,
    /// An upsert names no conflict column.
    NoConflictColumn,
    /// The store found no row where one was expected.
    RowNotFound,
    /// Any other failure of the store, in the store's words.
    Store(String),
}

/// The three kinds of error.
#[derive(Clone, Copy, Debug, PartialEq, Eq, Structural)]
pub enum ErrorKind {
    /// A value cannot be represented in the value domain.
    Coercion,
    /// An invariant of the statement builder is violated.
    Configuration,
    /// The store failed.
    Store,
}

/// The mathematical value that an `Error` stands for.
pub enum Failure {
    NotFlat(Seq<char>),
    Unrepresentable(Seq<char>),
    UnnamedColumn,
    NoColumns,
    NoConflictColumn,
    RowNotFound,
    Store(Seq<char>),
}

impl Failure {
    /// The kind that a failure belongs to.
    pub open spec fn kind(self) -> ErrorKind {
        match self {
            Failure::NotFlat(_) | Failure::Unrepresentable(_) => ErrorKind::Coercion,
            Failure::UnnamedColumn | Failure::NoColumns | Failure::NoConflictColumn =>
                ErrorKind::Configuration,
            Failure::RowNotFound | Failure::Store(_) => ErrorKind::Store,
        }
    }

    /// The transport status that a failure is reported with: 404 where a
    /// row was not found, 500 for everything else.
    pub open spec fn status(self) -> u16 {
        if self == Failure::RowNotFound {
            404
        } else {
            500
        }
    }
}

impl View for Error {
    type V = Failure;

    open spec fn view(&self) -> Failure {
        match self {
            Error::NotFlat(entity) => Failure::NotFlat(entity@),
            Error::Unrepresentable(column) => Failure::Unrepresentable(column@),
            Error::UnnamedColumn => Failure::UnnamedColumn,
            Error::NoColumns => Failure::NoColumns,
            Error::NoConflictColumn => Failure::NoConflictColumn,
            Error::RowNotFound => Failure::RowNotFound,
            Error::Store(message) => Failure::Store(message@),
        }
    }
}

impl Error {
    /// The kind of this error.
    pub fn kind(&self) -> (kind: ErrorKind)
        ensures
            kind == self@.kind(),
    {
        match self {
            Error::NotFlat(_) | Error::Unrepresentable(_) => ErrorKind::Coercion,
            Error::UnnamedColumn | Error::NoColumns | Error::NoConflictColumn =>
                ErrorKind::Configuration,
            Error::RowNotFound | Error::Store(_) => ErrorKind::Store,
        }
    }

    /// The transport status to report this error with.
    pub fn status_code(&self) -> (code: u16)
        ensures
            code == self@.status(),
    {
        match self {
            Error::RowNotFound => 404,
            _ => 500,
        }
    }
}

} // verus!
