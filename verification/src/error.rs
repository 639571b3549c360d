//! What can go wrong.

use vstd::prelude::*;
use vstd::string::*;

verus! {

/// The failures of this library. A rejection of a request is none of them: it
/// is an action like any other.
#[derive(Clone, Copy, Debug, PartialEq, Eq, Structural)]
pub enum Error {
    /// The request resolves to no action at all.
    Undetermined,
    /// Something other than a table lies on the table path.
    TableBlocked,
    /// The request has no value to write, or the key holds another type.
    NotSet,
    /// The key does not hold what the request says it holds.
    NotRemoved,
    /// The transaction was cancelled while it waited for a lock.
    Cancelled,
    /// A file could not be opened or locked.
    LockFailed,
    /// Only an empty transaction can become a read transaction.
    ReadFromNonEmpty,
    /// Only an empty transaction can become a write transaction.
    WriteFromNonEmpty,
    /// The write transaction has lost its journal file. No step admits such a
    /// transaction; the failure is there for callers that cannot keep to that.
    NoJournal,
    /// Only a write transaction can become a commit transaction.
    CommitFromNonWrite,
    /// A journal is committed under a write or a commit transaction only.
    NotCommittable,
}

impl Error {
    /// The message of each failure.
    pub open spec fn text(self) -> Seq<char> {
        match self {
            Error::Undetermined => "Could not evaluate table action from arguments"@,
            Error::TableBlocked => "Could not create table"@,
            Error::NotSet => "Could not set item"@,
            Error::NotRemoved => "Cannot remove item"@,
            Error::Cancelled => "Transaction cancelled"@,
            Error::LockFailed => "Could not lock file"@,
            Error::ReadFromNonEmpty =>
                "Cannot pivot to a read transaction from a non-empty transaction"@,
            Error::WriteFromNonEmpty =>
                "Cannot pivot to a write transaction from a non-empty transaction"@,
            Error::NoJournal => "Cannot commit without a journal file pointer"@,
            Error::CommitFromNonWrite => "Can only commit from a write transaction"@,
            Error::NotCommittable => "Expecting tx to be either in the Commit or Write state"@,
        }
    }

    /// The message, for a person to read.
    pub fn to_string(&self) -> (s: String)
        ensures
            s@ == self.text(),
    {
        match self {
            Error::Undetermined => String::from_str("Could not evaluate table action from arguments"),
            Error::TableBlocked => String::from_str("Could not create table"),
            Error::NotSet => String::from_str("Could not set item"),
            Error::NotRemoved => String::from_str("Cannot remove item"),
            Error::Cancelled => String::from_str("Transaction cancelled"),
            Error::LockFailed => String::from_str("Could not lock file"),
            Error::ReadFromNonEmpty => String::from_str(
                "Cannot pivot to a read transaction from a non-empty transaction",
            ),
            Error::WriteFromNonEmpty => String::from_str(
                "Cannot pivot to a write transaction from a non-empty transaction",
            ),
            Error::NoJournal => String::from_str("Cannot commit without a journal file pointer"),
            Error::CommitFromNonWrite => String::from_str("Can only commit from a write transaction"),
            Error::NotCommittable => String::from_str(
                "Expecting tx to be either in the Commit or Write state",
            ),
        }
    }
}

} // verus!
