//! The database: the two files that a transaction works on.

use vstd::prelude::*;
use std::path::PathBuf;
use crate::transaction::{File, Transaction};

verus! {

#[verifier::external_type_specification]
#[verifier::external_body]
pub struct ExPathBuf(PathBuf);

/// A database: where its data file and its journal file lie.
pub struct Database {
    /// Path to a data file
    data_path: PathBuf,
    /// Path to a journal file
    journal_path: PathBuf,
}

impl Database {
    /// A database on the two files.
    pub fn new(data_path: PathBuf, journal_path: PathBuf) -> (db: Self)
        ensures
            db.path(File::Data) == data_path,
            db.path(File::Journal) == journal_path,
    {
        Database { data_path, journal_path }
    }

    /// Where a file of the database lies.
    pub closed spec fn path(&self, file: File) -> PathBuf {
        match file {
            File::Data => self.data_path,
            File::Journal => self.journal_path,
        }
    }

    /// Where a file of the database lies.
    pub fn path_of(&self, file: File) -> (path: &PathBuf)
        ensures
            *path == self.path(file),
    {
        match file {
            File::Data => &self.data_path,
            File::Journal => &self.journal_path,
        }
    }

    /// Starts a transaction
    pub fn start_transaction(&self) -> (tx: Transaction)
        ensures
            tx is Empty,
    {
        Transaction::default()
    }
}

} // verus!
