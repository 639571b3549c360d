use std::path::PathBuf;
use toml_edit::{value, DocumentMut, Item};
use tomldb::{
    Database, Error, File, FileWrite, Journal, Locking, Report, Step, TableAction, Transaction,
    Types,
};

fn database() -> Database {
    Database::new(PathBuf::from("config.toml"), PathBuf::from("config.toml.journal"))
}

fn records(writes: &[FileWrite]) -> Vec<String> {
    let mut lines = Vec::new();
    for write in writes {
        if let FileWrite::Journal(record) = write {
            lines.push(record.clone());
        }
    }
    lines
}

#[test]
fn test_empty_db() {
    let db = database();
    assert_eq!(db.path_of(File::Data), &PathBuf::from("config.toml"));
    assert_eq!(db.path_of(File::Journal), &PathBuf::from("config.toml.journal"));

    let tx = db.start_transaction();
    let (tx, mut journal) = tx.write(Locking::Granted).unwrap();
    let tx = tx.commit(Locking::Granted).unwrap();
    {
        journal.table("test").set_kvp("value-2", value(3.14f32 as f64));
        journal.table("test").set_kvp("value", "hello world");
        let to_remove = journal.table("test");
        to_remove.set_kvp("value", "hello world");
        to_remove.set_remove(true);
    }
    assert_eq!(journal.iter_pending().len(), 3);
    let reports = journal.evaluate_args();
    assert!(reports.is_empty());
    assert!(journal.iter_pending().is_empty());
    let log = journal.iter_evaluated();
    assert_eq!(log.len(), 3);
    assert!(matches!(log[0].0, TableAction::Insert(..)));
    assert!(matches!(log[1].0, TableAction::Insert(..)));
    assert!(matches!(log[2].0, TableAction::WouldRemove));
    assert_eq!(log[0].1.value_type(), Types::Float);
    assert_eq!(log[2].1.key(), "value");
    assert!(log[2].1.remove());

    let text = journal.document().to_string();
    assert_eq!(text, "[test]\nvalue-2 = 3.140000104904175\nvalue = \"hello world\"\n");
    let writes = journal.commit(tx).unwrap();
    assert_eq!(writes.len(), 4);
    assert_eq!(
        records(&writes),
        vec![
            "insert -t 'test' -X float 'value-2' -- 3.140000104904175\n".to_string(),
            "insert -t 'test' -X str 'value' -- \"hello world\"\n".to_string(),
            "\n".to_string(),
        ]
    );
    assert!(matches!(&writes[3], FileWrite::Data(data) if *data == text));
}

#[test]
fn the_journal_is_written_before_the_data() {
    let (tx, mut journal) = Transaction::default().write(Locking::Granted).unwrap();
    for i in 0..5u32 {
        journal.table("numbers").set_kvp(format!("n{}", i).as_str(), i);
    }
    let view = journal.table("numbers");
    view.set_key("n3");
    view.set_value_ty(Types::Integer);
    view.set_modify(true);
    let reports = journal.evaluate_args();
    assert_eq!(reports.len(), 1);
    assert!(matches!(&reports[0], Report::Viewed(text) if text == "3"));
    let tx = tx.commit(Locking::Granted).unwrap();
    let text = journal.document().to_string();
    assert_eq!(text, "[numbers]\nn0 = 0\nn1 = 1\nn2 = 2\nn3 = 3\nn4 = 4\n");
    let log: Vec<String> =
        journal.iter_evaluated().iter().map(|(action, _)| action.to_string()).collect();
    let writes = journal.commit(tx).unwrap();
    assert_eq!(writes.len(), 7);
    for (i, write) in writes.iter().enumerate() {
        match write {
            FileWrite::Journal(record) => {
                assert!(i < 6);
                assert!(record.ends_with('\n'));
                assert_eq!(record[..record.len() - 1], log[i]);
                assert_eq!(record.matches('\n').count(), 1);
            }
            FileWrite::Data(data) => {
                assert_eq!(i, 6);
                assert_eq!(*data, text);
            }
        }
    }
    assert_eq!(records(&writes)[3], "insert -t 'numbers' -X int 'n3' -- 3\n");
    assert_eq!(records(&writes)[5], "view --modify -t 'numbers' -X int 'n3'\n");
}

#[test]
fn a_journal_starts_empty_and_well_formed() {
    let journal = Journal::default();
    assert!(journal.is_well_formed());
    assert!(journal.iter_pending().is_empty());
    assert!(journal.iter_evaluated().is_empty());
    assert_eq!(journal.document().to_string(), "");
    let (_, mut journal) = Transaction::Empty.write(Locking::Granted).unwrap();
    journal.table("a.b").set_kvp("k", "v");
    journal.evaluate_args();
    assert!(journal.is_well_formed());
}

#[test]
fn a_commit_under_a_write_transaction_writes_nothing() {
    let (tx, mut journal) = Transaction::default().write(Locking::Granted).unwrap();
    journal.table("t").set_kvp("k", "v");
    journal.evaluate_args();
    let writes = journal.commit(tx).unwrap();
    assert!(writes.is_empty());
}

#[test]
fn a_commit_under_any_other_transaction_fails() {
    assert_eq!(Journal::default().commit(Transaction::Empty).err(), Some(Error::NotCommittable));
    assert_eq!(Journal::default().commit(Transaction::Read).err(), Some(Error::NotCommittable));
    assert!(Journal::default().commit(Transaction::Write { journal: false }).unwrap().is_empty());
    let writes = Journal::default().commit(Transaction::Commit).unwrap();
    assert_eq!(writes.len(), 1);
    assert!(matches!(&writes[0], FileWrite::Data(data) if data.is_empty()));
}

#[test]
fn dropped_requests_are_reported_and_not_logged() {
    let mut journal = Journal::default();
    journal.table("t").set_kvp("k", 1u64);
    // Nothing fits a request that modifies a key that is not there.
    let absent = journal.table("t");
    absent.set_key("j");
    absent.set_modify(true);
    // `t.k` is a value, so no table can lie below it.
    journal.table("t.k.x").set_kvp("y", 2usize);
    // An insert without a value.
    journal.table("t").set_key("z");
    journal.table("t").set_kvp("k", 1u64);
    let reports = journal.evaluate_args();
    assert_eq!(reports.len(), 3);
    assert!(matches!(reports[0], Report::Failed(Error::Undetermined)));
    assert!(matches!(reports[1], Report::Failed(Error::TableBlocked)));
    assert!(matches!(reports[2], Report::Failed(Error::NotSet)));
    let log = journal.iter_evaluated();
    assert_eq!(log.len(), 2);
    assert!(matches!(log[0].0, TableAction::Insert(..)));
    assert!(matches!(log[1].0, TableAction::Exists(..)));
    assert_eq!(journal.document().to_string(), "[t]\nk = 1\n");
}

#[test]
fn requests_are_evaluated_in_the_order_they_were_pushed() {
    let mut journal = Journal::default();
    journal.table("t").set_kvp("k", "first");
    let force = journal.table("t");
    force.set_kvp("k", "second");
    force.set_remove(true);
    force.set_modify(true);
    let check = journal.table("t");
    check.set_kvp("k", "second");
    journal.push_change(check_first());
    assert_eq!(journal.iter_pending().len(), 4);
    journal.evaluate_args();
    let log = journal.iter_evaluated();
    assert_eq!(log.len(), 4);
    assert!(matches!(log[0].0, TableAction::Insert(..)));
    assert!(matches!(log[1].0, TableAction::Replace(..)));
    assert!(matches!(log[2].0, TableAction::Exists(..)));
    assert!(matches!(log[3].0, TableAction::RejectExistingValueMismatch));
    assert_eq!(journal.document().to_string(), "[t]\nk = \"second\"\n");
}

fn check_first() -> tomldb::TableArgs {
    let mut args = tomldb::TableArgs::default();
    args.set_table("t");
    args.set_kvp("k", String::from("first"));
    args
}

#[test]
fn a_transaction_reads_or_writes_then_commits() {
    let db = database();
    assert!(matches!(db.start_transaction(), Transaction::Empty));
    assert!(matches!(Transaction::default().read(Locking::Granted), Ok(Transaction::Read)));
    assert!(matches!(
        Transaction::default().write(Locking::Granted),
        Ok((Transaction::Write { journal: true }, _))
    ));
    assert!(matches!(
        Transaction::Write { journal: true }.commit(Locking::Granted),
        Ok(Transaction::Commit)
    ));
}

#[test]
fn a_lock_that_is_not_granted_ends_the_step() {
    assert_eq!(Transaction::Empty.read(Locking::Refused).err(), Some(Error::LockFailed));
    assert_eq!(Transaction::Empty.read(Locking::Cancelled).err(), Some(Error::Cancelled));
    assert_eq!(Transaction::Empty.write(Locking::Refused).err(), Some(Error::LockFailed));
    assert_eq!(Transaction::Empty.write(Locking::Cancelled).err(), Some(Error::Cancelled));
    let write = Transaction::Write { journal: true };
    assert_eq!(write.commit(Locking::Refused).err(), Some(Error::LockFailed));
}

#[test]
fn no_other_step_is_made() {
    for locking in [Locking::Granted, Locking::Refused, Locking::Cancelled] {
        assert_eq!(Transaction::Read.read(locking).err(), Some(Error::ReadFromNonEmpty));
        assert_eq!(Transaction::Commit.read(locking).err(), Some(Error::ReadFromNonEmpty));
        let write = Transaction::Write { journal: true };
        assert_eq!(write.read(locking).err(), Some(Error::ReadFromNonEmpty));
        assert_eq!(Transaction::Read.write(locking).err(), Some(Error::WriteFromNonEmpty));
        assert_eq!(Transaction::Commit.write(locking).err(), Some(Error::WriteFromNonEmpty));
        let write = Transaction::Write { journal: true };
        assert_eq!(write.write(locking).err(), Some(Error::WriteFromNonEmpty));
        assert_eq!(Transaction::Empty.commit(locking).err(), Some(Error::CommitFromNonWrite));
        assert_eq!(Transaction::Read.commit(locking).err(), Some(Error::CommitFromNonWrite));
        assert_eq!(Transaction::Commit.commit(locking).err(), Some(Error::CommitFromNonWrite));
    }
}

#[test]
fn a_write_transaction_can_tell_that_it_lost_its_journal() {
    assert!(Transaction::Write { journal: false }.has_lost_journal());
    assert!(!Transaction::Write { journal: true }.has_lost_journal());
    assert!(!Transaction::Empty.has_lost_journal());
    assert!(!Transaction::Read.has_lost_journal());
    assert!(!Transaction::Commit.has_lost_journal());
    let lost = Transaction::Write { journal: false };
    assert_eq!(lost.lock_for(Step::Read).err(), Some(Error::ReadFromNonEmpty));
    assert_eq!(lost.lock_for(Step::Write).err(), Some(Error::WriteFromNonEmpty));
}

#[test]
fn each_step_asks_for_its_lock() {
    let read = Transaction::Empty.lock_for(Step::Read).unwrap();
    assert_eq!(read.file, File::Data);
    assert!(read.shared && read.read && !read.write && !read.append && !read.truncate);
    let write = Transaction::Empty.lock_for(Step::Write).unwrap();
    assert_eq!(write.file, File::Journal);
    assert!(!write.shared && write.read && write.write && write.append && !write.truncate);
    let commit = Transaction::Write { journal: true }.lock_for(Step::Commit).unwrap();
    assert_eq!(commit.file, File::Data);
    assert!(!commit.shared && !commit.read && commit.write && !commit.append && commit.truncate);
    assert_eq!(Transaction::Read.lock_for(Step::Read).err(), Some(Error::ReadFromNonEmpty));
    assert_eq!(Transaction::Commit.lock_for(Step::Write).err(), Some(Error::WriteFromNonEmpty));
    assert_eq!(Transaction::Empty.lock_for(Step::Commit).err(), Some(Error::CommitFromNonWrite));
}

#[test]
fn every_state_releases_what_it_holds() {
    let empty = Transaction::Empty.release();
    assert!(empty.cancel && empty.unlock.is_empty());
    let read = Transaction::Read.release();
    assert!(!read.cancel);
    assert_eq!(read.unlock, vec![File::Data]);
    let write = Transaction::Write { journal: true }.release();
    assert!(!write.cancel);
    assert_eq!(write.unlock, vec![File::Journal]);
    let lost = Transaction::Write { journal: false }.release();
    assert!(!lost.cancel && lost.unlock.is_empty());
    let commit = Transaction::Commit.release();
    assert!(!commit.cancel);
    assert_eq!(commit.unlock, vec![File::Journal, File::Data]);
}

#[test]
fn a_document_survives_a_round_trip() {
    let mut journal = Journal::default();
    journal.table("a.b").set_kvp("k", "v");
    journal.table("a").set_kvp("n", 5u32);
    journal.table("c").set_kvp("list", "[1, 2, 3]".parse::<Item>().unwrap());
    journal.table("c").set_kvp("point", "{ x = 1, y = 2 }".parse::<Item>().unwrap());
    journal.evaluate_args();
    let text = journal.document().to_string();
    let again = text.parse::<DocumentMut>().unwrap().to_string();
    assert_eq!(again, text);
    let twice = again.parse::<DocumentMut>().unwrap().to_string();
    assert_eq!(twice, text);
    let written = "# a comment\n[a]\nn = 5 # five\n\n[a.b]\nk = 'v'\n";
    assert_eq!(written.parse::<DocumentMut>().unwrap().to_string(), written);
}

#[test]
fn error_messages() {
    let expected = [
        (Error::Undetermined, "Could not evaluate table action from arguments"),
        (Error::TableBlocked, "Could not create table"),
        (Error::NotSet, "Could not set item"),
        (Error::NotRemoved, "Cannot remove item"),
        (Error::Cancelled, "Transaction cancelled"),
        (Error::LockFailed, "Could not lock file"),
        (
            Error::ReadFromNonEmpty,
            "Cannot pivot to a read transaction from a non-empty transaction",
        ),
        (
            Error::WriteFromNonEmpty,
            "Cannot pivot to a write transaction from a non-empty transaction",
        ),
        (Error::NoJournal, "Cannot commit without a journal file pointer"),
        (Error::CommitFromNonWrite, "Can only commit from a write transaction"),
        (Error::NotCommittable, "Expecting tx to be either in the Commit or Write state"),
    ];
    for (error, message) in expected {
        assert_eq!(error.to_string(), message);
    }
}
