//! The journal of a transaction: a document in memory, the requests that
//! wait to be evaluated against it, the log of those that were, and the writes
//! that commit it.

use vstd::prelude::*;
use vstd::string::*;
use toml_edit::DocumentMut;
use crate::args::{Action, Request, TableAction, TableArgs};
use crate::error::Error;
use crate::eval::{evaluate, missing_table_is_never_final, outcome_ignores_texts};
use crate::resolve::is_document;
use crate::toml::{
    doc_entries, doc_rooted, doc_text, doc_to_string, item_to_string, new_document, Entries,
};
use crate::transaction::Transaction;
use crate::tree::entry_at;

verus! {

/// What an evaluation tells its caller, besides the log it keeps.
#[derive(Debug)]
pub enum Report {
    /// The serialized form of the item that a view found.
    Viewed(String),
    /// A request that was dropped, with the reason.
    Failed(Error),
}

/// A report, as the contracts see it.
pub enum Told {
    Viewed(Seq<char>),
    Failed(Error),
}

impl View for Report {
    type V = Told;

    open spec fn view(&self) -> Told {
        match self {
            Report::Viewed(text) => Told::Viewed(text@),
            Report::Failed(e) => Told::Failed(*e),
        }
    }
}

/// The views of the requests of `v`.
pub open spec fn requests(v: Seq<TableArgs>) -> Seq<Request> {
    v.map_values(|args: TableArgs| args@)
}

/// The views of the entries of a log.
pub open spec fn entries(v: Seq<(TableAction, TableArgs)>) -> Seq<(Action, Request)> {
    v.map_values(|entry: (TableAction, TableArgs)| (entry.0@, entry.1@))
}

/// The views of the reports of `v`.
pub open spec fn told(v: Seq<Report>) -> Seq<Told> {
    v.map_values(|report: Report| report@)
}

/// What evaluating requests one after the other gives.
pub struct Run {
    /// The tree afterwards.
    pub tree: Entries,
    /// Each request that was evaluated, behind its action, in order.
    pub log: Seq<(Action, Request)>,
    /// What the views found and which requests were dropped, in order.
    pub told: Seq<Told>,
}

/// Evaluates `queue` in order against `tree`, each request against the tree
/// that the one before it left. A request whose evaluation fails is dropped
/// and reported; every other is logged behind its action, and a view also
/// reports the item it found. `texts` says, for each request, how the tables
/// along its path render afterwards.
pub open spec fn run(tree: Entries, queue: Seq<Request>, texts: Seq<Seq<Seq<char>>>) -> Run
    decreases queue.len(),
{
    if queue.len() == 0 {
        Run { tree, log: Seq::empty(), told: Seq::empty() }
    } else {
        let before = run(tree, queue.drop_last(), texts.drop_last());
        let req = queue.last();
        let step = evaluate(before.tree, req, texts.last());
        match step.result {
            Ok(action) => Run {
                tree: step.tree,
                log: before.log.push((action, req)),
                told: match (action, entry_at(step.tree, req.path(), req.key)) {
                    (Action::View(_), Some(found)) => before.told.push(Told::Viewed(found.text())),
                    _ => before.told,
                },
            },
            Err(e) => Run { tree: step.tree, log: before.log, told: before.told.push(Told::Failed(e)) },
        }
    }
}

/// The number of requests that `told` reports as dropped.
pub open spec fn dropped(told: Seq<Told>) -> nat
    decreases told.len(),
{
    if told.len() == 0 {
        0
    } else {
        dropped(told.drop_last()) + if told.last() is Failed {
            1nat
        } else {
            0nat
        }
    }
}

/// Every request of the queue is logged or dropped, and none is both: the
/// log and the failures together are as many as the requests.
pub proof fn every_request_is_logged_or_dropped(
    tree: Entries,
    queue: Seq<Request>,
    texts: Seq<Seq<Seq<char>>>,
)
    ensures
        run(tree, queue, texts).log.len() + dropped(run(tree, queue, texts).told) == queue.len(),
    decreases queue.len(),
{
    if queue.len() > 0 {
        every_request_is_logged_or_dropped(tree, queue.drop_last(), texts.drop_last());
        let before = run(tree, queue.drop_last(), texts.drop_last());
        let after = run(tree, queue, texts);
        if after.told != before.told {
            assert(after.told.drop_last() == before.told);
        }
    }
}

/// Every entry of the log holds the request that it came from: behind its
/// action and, where the action has a request, inside it.
pub proof fn the_log_pairs_actions_with_their_requests(
    tree: Entries,
    queue: Seq<Request>,
    texts: Seq<Seq<Seq<char>>>,
    i: int,
)
    requires
        0 <= i < run(tree, queue, texts).log.len(),
    ensures
        match run(tree, queue, texts).log[i].0 {
            Action::Insert(req)
            | Action::Replace(req)
            | Action::Remove(req)
            | Action::View(req)
            | Action::Exists(req) => req == run(tree, queue, texts).log[i].1,
            _ => true,
        },
        run(tree, queue, texts).log[i].0 != Action::InternalRejectMissingTable,
    decreases queue.len(),
{
    if queue.len() > 0 {
        let before = run(tree, queue.drop_last(), texts.drop_last());
        if i < before.log.len() {
            the_log_pairs_actions_with_their_requests(
                tree,
                queue.drop_last(),
                texts.drop_last(),
                i,
            );
        } else {
            let req = queue.last();
            outcome_ignores_texts(before.tree, req, texts.last());
            missing_table_is_never_final(before.tree, req);
        }
    }
}

/// Whether `texts` has a text for each key of the path of each request.
pub open spec fn texts_fit(queue: Seq<Request>, texts: Seq<Seq<Seq<char>>>) -> bool {
    &&& texts.len() == queue.len()
    &&& forall|i: int| 0 <= i < queue.len() ==> (#[trigger] texts[i]).len() == queue[i].path().len()
}

/// One write of a commit.
#[derive(Debug)]
pub enum FileWrite {
    /// Append this record to the journal file.
    Journal(String),
    /// Overwrite the data file with this text.
    Data(String),
}

/// A write, as the contracts see it.
pub enum Written {
    Journal(Seq<char>),
    Data(Seq<char>),
}

impl View for FileWrite {
    type V = Written;

    open spec fn view(&self) -> Written {
        match self {
            FileWrite::Journal(record) => Written::Journal(record@),
            FileWrite::Data(text) => Written::Data(text@),
        }
    }
}

/// The views of the writes of `v`.
pub open spec fn written(v: Seq<FileWrite>) -> Seq<Written> {
    v.map_values(|write: FileWrite| write@)
}

/// The writes of a full commit: for each entry of the log, in order, the
/// record of its action and a newline, to the journal file; then the text of
/// the document, to the data file.
pub open spec fn commit_writes(log: Seq<(Action, Request)>, text: Seq<char>) -> Seq<Written> {
    Seq::new(log.len(), |i: int| Written::Journal(log[i].0.text() + "\n"@)).push(
        Written::Data(text),
    )
}

/// The journal is written ahead of the data: a full commit writes one record
/// for each entry of the log, in the order of the log, each ended by a
/// newline, and only then, once, the data file.
pub proof fn journal_is_written_ahead(log: Seq<(Action, Request)>, text: Seq<char>, i: int)
    requires
        0 <= i < log.len(),
    ensures
        commit_writes(log, text).len() == log.len() + 1,
        commit_writes(log, text)[i] == Written::Journal(log[i].0.text() + "\n"@),
        commit_writes(log, text).last() == Written::Data(text),
{
}

/// A document in memory, the requests that wait to be evaluated against it,
/// and the log of those that were.
pub struct Journal {
    /// Document being modified
    doc: DocumentMut,
    /// Requests that wait, in the order they were pushed
    pending: Vec<TableArgs>,
    /// Requests that were evaluated, each behind its action
    evaluated: Vec<(TableAction, TableArgs)>,
}

impl Journal {
    /// Whether the journal is well formed: the root of its document is a
    /// table. Every journal that this library hands out is, and stays so.
    pub closed spec fn wf(&self) -> bool {
        doc_rooted(self.doc)
    }

    /// Tells whether the journal is well formed.
    pub fn is_well_formed(&self) -> (r: bool)
        ensures
            r == self.wf(),
    {
        is_document(&self.doc)
    }

    /// The tree of the document.
    pub closed spec fn tree(&self) -> Entries {
        doc_entries(self.doc)
    }

    /// The text that the document serializes to.
    pub closed spec fn text(&self) -> Seq<char> {
        doc_text(self.doc)
    }

    /// The requests that wait.
    pub closed spec fn queue(&self) -> Seq<Request> {
        requests(self.pending@)
    }

    /// The log.
    pub closed spec fn log(&self) -> Seq<(Action, Request)> {
        entries(self.evaluated@)
    }

    /// Pushes a change
    pub fn push_change(&mut self, args: TableArgs)
        requires
            old(self).wf(),
        ensures
            final(self).wf(),
            final(self).queue() == old(self).queue().push(args@),
            final(self).log() == old(self).log(),
            final(self).tree() == old(self).tree(),
            final(self).text() == old(self).text(),
    {
        proof {
            assert(requests(self.pending@.push(args)) == requests(self.pending@).push(args@));
        }
        self.pending.push(args);
    }

    /// The document as it stands.
    pub fn document(&self) -> (doc: &DocumentMut)
        requires
            self.wf(),
        ensures
            doc_rooted(*doc),
            doc_entries(*doc) == self.tree(),
            doc_text(*doc) == self.text(),
    {
        &self.doc
    }

    /// The requests that wait, in the order they were pushed.
    pub fn iter_pending(&self) -> (waiting: &Vec<TableArgs>)
        ensures
            requests(waiting@) == self.queue(),
    {
        &self.pending
    }

    /// The requests that were evaluated, each behind its action, in order.
    pub fn iter_evaluated(&self) -> (log: &Vec<(TableAction, TableArgs)>)
        ensures
            entries(log@) == self.log(),
    {
        &self.evaluated
    }

    /// Pushes a request for `table` with nothing else set, and hands it out to
    /// be filled in.
    pub fn table(&mut self, table: &str) -> (args: &mut TableArgs)
        requires
            old(self).wf(),
        ensures
            final(self).wf(),
            args@ == (Request { table: table@, ..Request::empty() }),
            final(self).queue() == old(self).queue().push(final(args)@),
            final(self).log() == old(self).log(),
            final(self).tree() == old(self).tree(),
            final(self).text() == old(self).text(),
    {
        let mut args = TableArgs::default();
        args.set_table(table);
        self.push_change(args);
        assert(self.pending@.len() == self.queue().len());
        let last = self.pending.len() - 1;
        let ghost waiting = self.pending@;
        proof {
            assert(waiting[last as int]@ == requests(waiting)[last as int]);
        }
        let args = &mut self.pending[last];
        proof {
            assert(requests(waiting.update(last as int, *final(args))) == requests(
                waiting.drop_last(),
            ).push(final(args)@));
            assert(requests(waiting.drop_last()) == requests(waiting).drop_last());
        }
        args
    }

    /// Consumes the journal and gives the writes that commit it, in the order
    /// in which they are to be made.
    ///
    /// Under a commit transaction these are the records of the log, then the
    /// document. Under a write transaction, which holds no lock on the data
    /// file yet, there is nothing to write. Under any other it fails.
    pub fn commit(self, tx: Transaction) -> (r: Result<Vec<FileWrite>, Error>)
        requires
            self.wf(),
        ensures
            match r {
                Ok(writes) => match tx {
                    Transaction::Commit => written(writes@) == commit_writes(self.log(), self.text()),
                    Transaction::Write { .. } => writes@.len() == 0,
                    _ => false,
                },
                Err(e) => e == Error::NotCommittable && (tx is Empty || tx is Read),
            },
    {
        match tx {
            Transaction::Commit => {
                let mut writes: Vec<FileWrite> = Vec::new();
                let ghost log = self.log();
                let n = self.evaluated.len();
                let mut i: usize = 0;
                while i < n
                    invariant
                        self.wf(),
                        i <= n,
                        n == self.evaluated.len(),
                        log == entries(self.evaluated@),
                        written(writes@) == Seq::new(
                            i as nat,
                            |k: int| Written::Journal(log[k].0.text() + "\n"@),
                        ),
                    decreases n - i,
                {
                    let mut record = self.evaluated[i].0.to_string();
                    record.append("\n");
                    let write = FileWrite::Journal(record);
                    proof {
                        assert(written(writes@.push(write)) == written(writes@).push(write@));
                    }
                    writes.push(write);
                    i += 1;
                }
                let write = FileWrite::Data(doc_to_string(&self.doc));
                proof {
                    assert(written(writes@.push(write)) == written(writes@).push(write@));
                }
                writes.push(write);
                Ok(writes)
            },
            Transaction::Write { .. } => Ok(Vec::new()),
            _ => Err(Error::NotCommittable),
        }
    }

    /// Evaluates the current table args
    ///
    /// Returns what the views found and which requests were dropped. A request
    /// that comes to writing a value and has none is dropped like any other
    /// whose evaluation fails.
    pub fn evaluate_args(&mut self) -> (reports: Vec<Report>)
        requires
            old(self).wf(),
        ensures
            final(self).wf(),
            final(self).queue() == Seq::<Request>::empty(),
            exists|texts: Seq<Seq<Seq<char>>>|
                {
                    &&& texts_fit(old(self).queue(), texts)
                    &&& final(self).tree() == (#[trigger] run(
                        old(self).tree(),
                        old(self).queue(),
                        texts,
                    )).tree
                    &&& final(self).log() == old(self).log() + run(
                        old(self).tree(),
                        old(self).queue(),
                        texts,
                    ).log
                    &&& told(reports@) == run(old(self).tree(), old(self).queue(), texts).told
                },
    {
        let mut queue: Vec<TableArgs> = Vec::new();
        core::mem::swap(&mut self.pending, &mut queue);
        let mut reports: Vec<Report> = Vec::new();
        let ghost start = self.tree();
        let ghost log = self.log();
        let ghost all = requests(queue@);
        let ghost mut texts: Seq<Seq<Seq<char>>> = Seq::empty();
        let ghost mut done: Seq<Request> = Seq::empty();
        proof {
            assert(all.take(0) == done);
            assert(self.log() == log + run(start, done, texts).log);
        }
        for args in it: queue.into_iter()
            invariant
                self.wf(),
                self.pending@ == Seq::<TableArgs>::empty(),
                all == requests(it.seq()),
                done == all.take(it.index() as int),
                texts_fit(done, texts),
                self.tree() == run(start, done, texts).tree,
                self.log() == log + run(start, done, texts).log,
                told(reports@) == run(start, done, texts).told,
        {
            let ghost before = self.tree();
            let ghost old_texts = texts;
            let r = args.attempt(&mut self.doc);
            proof {
                let t = choose|t: Seq<Seq<char>>|
                    t.len() == args@.path().len() && self.tree() == (#[trigger] evaluate(
                        before,
                        args@,
                        t,
                    )).tree;
                outcome_ignores_texts(before, args@, t);
                texts = texts.push(t);
                let next = all.take(it.index() + 1);
                assert(next.drop_last() == done);
                assert(next.last() == args@);
                assert(texts.drop_last() == old_texts);
                assert(texts_fit(next, texts));
                done = next;
            }
            match r {
                Ok(action) => {
                    match &action {
                        TableAction::View(_) => {
                            match args.get_entry(&self.doc) {
                                Some(found) => {
                                    let report = Report::Viewed(item_to_string(found));
                                    proof {
                                        assert(told(reports@.push(report)) == told(reports@).push(
                                            report@,
                                        ));
                                    }
                                    reports.push(report);
                                },
                                None => {},
                            }
                        },
                        _ => {},
                    }
                    proof {
                        assert(entries(self.evaluated@.push((action, args))) == entries(
                            self.evaluated@,
                        ).push((action@, args@)));
                    }
                    self.evaluated.push((action, args));
                },
                Err(e) => {
                    let report = Report::Failed(e);
                    proof {
                        assert(told(reports@.push(report)) == told(reports@).push(report@));
                    }
                    reports.push(report);
                },
            }
        }
        proof {
            assert(all.take(all.len() as int) == all);
            assert(done == all);
            assert(self.queue() == Seq::<Request>::empty());
            assert(all == old(self).queue());
            assert(start == old(self).tree());
            assert(log == old(self).log());
            assert(texts_fit(old(self).queue(), texts) && self.tree() == run(
                old(self).tree(),
                old(self).queue(),
                texts,
            ).tree);
        }
        reports
    }
}

impl Default for Journal {
    /// A journal on an empty document, with nothing pending and nothing
    /// evaluated.
    fn default() -> (journal: Self)
        ensures
            journal.wf(),
            journal.tree() == Entries::empty(),
            journal.text() == Seq::<char>::empty(),
            journal.queue() == Seq::<Request>::empty(),
            journal.log() == Seq::<(Action, Request)>::empty(),
    {
        let journal = Journal { doc: new_document(), pending: Vec::new(), evaluated: Vec::new() };
        proof {
            assert(requests(journal.pending@) == Seq::<Request>::empty());
            assert(entries(journal.evaluated@) == Seq::<(Action, Request)>::empty());
        }
        journal
    }
}

} // verus!
