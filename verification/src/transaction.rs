//! The states of a transaction, the steps between them, and the locks that
//! each step takes. Opening, locking and unlocking the files is the caller's
//! part: it asks which lock a step needs, and tells what came of it.

use vstd::prelude::*;
use crate::error::Error;
use crate::journal::Journal;
use crate::args::{Action, Request};
use crate::toml::Entries;

verus! {

/// The two files of a database.
#[derive(Clone, Copy, Debug, PartialEq, Eq, Structural)]
pub enum File {
    /// The data file: the document, rewritten in full on commit.
    Data,
    /// The journal file: one record appended for each committed action.
    Journal,
}

/// How a file is to be opened and locked.
#[derive(Clone, Copy, Debug, PartialEq, Eq, Structural)]
pub struct Lock {
    pub file: File,
    /// Shared with other readers, or exclusive.
    pub shared: bool,
    pub read: bool,
    pub write: bool,
    pub append: bool,
    pub truncate: bool,
}

/// What came of an attempt to lock a file.
#[derive(Clone, Copy, Debug, PartialEq, Eq, Structural)]
pub enum Locking {
    /// The file is open and locked.
    Granted,
    /// The file could not be opened or locked.
    Refused,
    /// The transaction was cancelled first.
    Cancelled,
}

/// What a transaction gives up when it ends.
#[derive(Debug)]
pub struct Release {
    /// Whether to signal cancellation: nothing was locked yet.
    pub cancel: bool,
    /// The files to unlock, in order.
    pub unlock: Vec<File>,
}

/// The states of a transaction. A transaction is empty, then reads or writes;
/// one that writes may go on to commit. Each state but the empty one stands
/// for locks that its owner holds.
#[derive(Debug)]
pub enum Transaction {
    /// Nothing is locked.
    Empty,
    /// The data file is locked, shared.
    Read,
    /// The journal file is locked, exclusive, as long as `journal` is set.
    Write { journal: bool },
    /// The journal file and the data file are locked, exclusive.
    Commit,
}

impl Default for Transaction {
    fn default() -> (tx: Self)
        ensures
            tx is Empty,
    {
        Transaction::Empty
    }
}

/// The steps a transaction can make.
#[derive(Clone, Copy, Debug, PartialEq, Eq, Structural)]
pub enum Step {
    /// From empty to reading.
    Read,
    /// From empty to writing.
    Write,
    /// From writing on to committing.
    Commit,
}

impl Step {
    /// The lock that the step takes. A read locks the data file, shared, open
    /// for reading. A write locks the journal file, exclusive, open for
    /// reading, writing and appending. A commit locks the data file,
    /// exclusive, open for writing and cut to nothing.
    pub open spec fn lock(self) -> Lock {
        match self {
            Step::Read => Lock {
                file: File::Data,
                shared: true,
                read: true,
                write: false,
                append: false,
                truncate: false,
            },
            Step::Write => Lock {
                file: File::Journal,
                shared: false,
                read: true,
                write: true,
                append: true,
                truncate: false,
            },
            Step::Commit => Lock {
                file: File::Data,
                shared: false,
                read: false,
                write: true,
                append: false,
                truncate: true,
            },
        }
    }

    /// The state that the step leads to.
    pub open spec fn target(self) -> Transaction {
        match self {
            Step::Read => Transaction::Read,
            Step::Write => Transaction::Write { journal: true },
            Step::Commit => Transaction::Commit,
        }
    }
}

impl Transaction {
    /// The locks that the owner of a transaction in this state holds, in the
    /// order in which they were taken.
    pub open spec fn held(self) -> Seq<Lock> {
        match self {
            Transaction::Empty => Seq::empty(),
            Transaction::Read => seq![Step::Read.lock()],
            Transaction::Write { journal } => if journal {
                seq![Step::Write.lock()]
            } else {
                Seq::empty()
            },
            Transaction::Commit => seq![Step::Write.lock(), Step::Commit.lock()],
        }
    }

    /// Whether this is a write transaction that has lost its journal file.
    /// To commit from such a state is a mistake of the caller, not a failure:
    /// no step to a commit admits it.
    pub open spec fn lost_journal(self) -> bool {
        self matches Transaction::Write { journal } && !journal
    }

    /// Tells whether this is a write transaction that has lost its journal
    /// file.
    pub fn has_lost_journal(&self) -> (r: bool)
        ensures
            r == self.lost_journal(),
    {
        match self {
            Transaction::Write { journal: false } => true,
            _ => false,
        }
    }

    /// Why the step cannot be made from this state, if it cannot: reading and
    /// writing start from the empty state only, committing from a write that
    /// still has its journal file.
    pub open spec fn refusal(self, step: Step) -> Option<Error> {
        match step {
            Step::Read => if self is Empty {
                None
            } else {
                Some(Error::ReadFromNonEmpty)
            },
            Step::Write => if self is Empty {
                None
            } else {
                Some(Error::WriteFromNonEmpty)
            },
            Step::Commit => match self {
                Transaction::Write { journal } => if journal {
                    None
                } else {
                    Some(Error::NoJournal)
                },
                _ => Some(Error::CommitFromNonWrite),
            },
        }
    }

    /// The state after the step, given what came of its lock: the step is made
    /// where the state allows it and the lock was granted.
    pub open spec fn after(self, step: Step, locking: Locking) -> Result<Transaction, Error> {
        match self.refusal(step) {
            Some(e) => Err(e),
            None => match locking {
                Locking::Granted => Ok(step.target()),
                Locking::Refused => Err(Error::LockFailed),
                Locking::Cancelled => Err(Error::Cancelled),
            },
        }
    }

    /// The lock to ask for before the step is made, or why the step cannot be
    /// made from this state. A commit must not be asked for from a write
    /// transaction that has lost its journal file.
    pub fn lock_for(&self, step: Step) -> (r: Result<Lock, Error>)
        requires
            step is Commit ==> !self.lost_journal(),
        ensures
            r == match self.refusal(step) {
                Some(e) => Err::<Lock, Error>(e),
                None => Ok::<Lock, Error>(step.lock()),
            },
    {
        match step {
            Step::Read => match self {
                Transaction::Empty => Ok(
                    Lock {
                        file: File::Data,
                        shared: true,
                        read: true,
                        write: false,
                        append: false,
                        truncate: false,
                    },
                ),
                _ => Err(Error::ReadFromNonEmpty),
            },
            Step::Write => match self {
                Transaction::Empty => Ok(
                    Lock {
                        file: File::Journal,
                        shared: false,
                        read: true,
                        write: true,
                        append: true,
                        truncate: false,
                    },
                ),
                _ => Err(Error::WriteFromNonEmpty),
            },
            Step::Commit => match self {
                Transaction::Write { journal: true } => Ok(
                    Lock {
                        file: File::Data,
                        shared: false,
                        read: false,
                        write: true,
                        append: false,
                        truncate: true,
                    },
                ),
                Transaction::Write { journal: false } => Err(Error::NoJournal),
                _ => Err(Error::CommitFromNonWrite),
            },
        }
    }

    /// The outcome of a step whose lock was asked for.
    fn advance(next: Transaction, locking: Locking) -> (r: Result<Transaction, Error>)
        ensures
            r == match locking {
                Locking::Granted => Ok::<Transaction, Error>(next),
                Locking::Refused => Err::<Transaction, Error>(Error::LockFailed),
                Locking::Cancelled => Err::<Transaction, Error>(Error::Cancelled),
            },
    {
        match locking {
            Locking::Granted => Ok(next),
            Locking::Refused => Err(Error::LockFailed),
            Locking::Cancelled => Err(Error::Cancelled),
        }
    }

    /// Consumes an empty transaction to create a read transaction
    ///
    /// `locking` says what came of asking for the shared lock on the data
    /// file while watching for cancellation.
    pub fn read(self, locking: Locking) -> (r: Result<Transaction, Error>)
        ensures
            r == self.after(Step::Read, locking),
    {
        match self {
            Transaction::Empty => Transaction::advance(Transaction::Read, locking),
            _ => Err(Error::ReadFromNonEmpty),
        }
    }

    /// Consumes an empty transaction to create a write transaction
    ///
    /// `locking` says what came of asking for the exclusive lock on the
    /// journal file while watching for cancellation. A write transaction
    /// comes with a fresh journal.
    pub fn write(self, locking: Locking) -> (r: Result<(Transaction, Journal), Error>)
        ensures
            match r {
                Ok((next, journal)) => {
                    &&& self.after(Step::Write, locking) == Ok::<Transaction, Error>(next)
                    &&& journal.wf()
                    &&& journal.tree() == Entries::empty()
                    &&& journal.text() == Seq::<char>::empty()
                    &&& journal.queue() == Seq::<Request>::empty()
                    &&& journal.log() == Seq::<(Action, Request)>::empty()
                },
                Err(e) => self.after(Step::Write, locking) == Err::<Transaction, Error>(e),
            },
    {
        match self {
            Transaction::Empty => match locking {
                Locking::Granted => Ok((Transaction::Write { journal: true }, Journal::default())),
                Locking::Refused => Err(Error::LockFailed),
                Locking::Cancelled => Err(Error::Cancelled),
            },
            _ => Err(Error::WriteFromNonEmpty),
        }
    }

    /// Consumes a write transaction and tries to convert to a commit transaction
    ///
    /// `locking` says what came of asking for the exclusive lock on the data
    /// file. The lock on the journal file is kept. The transaction must not
    /// have lost its journal file.
    pub fn commit(self, locking: Locking) -> (r: Result<Transaction, Error>)
        requires
            !self.lost_journal(),
        ensures
            r == self.after(Step::Commit, locking),
    {
        match self {
            Transaction::Write { journal: true } => Transaction::advance(
                Transaction::Commit,
                locking,
            ),
            Transaction::Write { journal: false } => Err(Error::NoJournal),
            _ => Err(Error::CommitFromNonWrite),
        }
    }

    /// What to give up when the transaction ends, in whatever state: an empty
    /// one signals cancellation; any other unlocks each file it holds a lock
    /// on, the journal file first.
    pub fn release(&self) -> (r: Release)
        ensures
            r.cancel == (self is Empty),
            r.unlock@ == self.held().map_values(|lock: Lock| lock.file),
    {
        let mut unlock: Vec<File> = Vec::new();
        match self {
            Transaction::Empty => {},
            Transaction::Read => {
                unlock.push(File::Data);
            },
            Transaction::Write { journal: true } => {
                unlock.push(File::Journal);
            },
            Transaction::Write { journal: false } => {},
            Transaction::Commit => {
                unlock.push(File::Journal);
                unlock.push(File::Data);
            },
        }
        let cancel = match self {
            Transaction::Empty => true,
            _ => false,
        };
        Release { cancel, unlock }
    }
}

/// Reading and committing are final: no step leads on from either.
pub proof fn read_and_commit_are_final(from: Transaction, step: Step, locking: Locking)
    requires
        from is Read || from is Commit,
    ensures
        from.after(step, locking) is Err,
{
}

/// A step is made only where its lock was granted, and only from the empty
/// state to reading or writing, or from writing to committing. It adds its
/// lock to those held and gives up none: a commit still holds the lock on the
/// journal file.
pub proof fn a_step_adds_its_lock(from: Transaction, step: Step, locking: Locking)
    requires
        from.after(step, locking) is Ok,
    ensures
        locking is Granted,
        from.after(step, locking) == Ok::<Transaction, Error>(step.target()),
        step is Commit <==> from is Write,
        !(step is Commit) <==> from is Empty,
        step.target().held() == from.held().push(step.lock()),
{
}

} // verus!
