//! Evaluation: a request is resolved and its action applied.

use vstd::prelude::*;
use toml_edit::DocumentMut;
use crate::apply::{
    no_texts, opened, opened_keeps_table, put_result, put_tree, take_result, take_tree,
};
use crate::args::{Action, Request, TableAction, TableArgs};
use crate::error::Error;
use crate::resolve::{resolve, resolve_never_removes};
use crate::toml::{doc_entries, doc_rooted, Entries};
use crate::tree::{
    blocked, created_tables_hold_only_the_path, entry_at, has_table, missing_table_is_empty,
    table_at, with_table, with_table_has_tables, with_table_twice,
};

verus! {

/// The tree that a request is resolved against: `root` where its table
/// exists, else `root` with the tables of its path.
pub open spec fn ready(root: Entries, req: Request, texts: Seq<Seq<char>>) -> Entries {
    if has_table(root, req.path()) {
        root
    } else {
        opened(root, req.path(), texts)
    }
}

/// What evaluating a request gives: the tree afterwards, and the action that
/// was applied or the failure.
pub struct Evaluation {
    pub tree: Entries,
    pub result: Result<Action, Error>,
}

/// Evaluates `req` against the tree `root`.
///
/// Where the table of the request is missing, the tables of its path are
/// created first, and the evaluation fails where that cannot be done. Then the
/// request is resolved: to nothing is a failure; an insert or a replace writes
/// the value; a remove takes the key out; any other action leaves the tree as
/// it is. `texts` says how the tables along the path render afterwards.
pub open spec fn evaluate(root: Entries, req: Request, texts: Seq<Seq<char>>) -> Evaluation {
    if !has_table(root, req.path()) && blocked(root, req.path()) {
        Evaluation { tree: root, result: Err(Error::TableBlocked) }
    } else {
        let ready = ready(root, req, texts);
        match resolve(ready, req) {
            None => Evaluation { tree: ready, result: Err(Error::Undetermined) },
            Some(action) => match action {
                Action::Insert(_) | Action::Replace(_) => Evaluation {
                    tree: put_tree(ready, req, texts),
                    result: match put_result(ready, req) {
                        Ok(_) => Ok(action),
                        Err(e) => Err(e),
                    },
                },
                Action::Remove(_) => Evaluation {
                    tree: take_tree(ready, req, texts),
                    result: match take_result(ready, req) {
                        Ok(_) => Ok(action),
                        Err(e) => Err(e),
                    },
                },
                _ => Evaluation { tree: ready, result: Ok(action) },
            },
        }
    }
}

/// What evaluating `req` against `root` returns: the action that was applied,
/// or the failure.
pub open spec fn outcome(root: Entries, req: Request) -> Result<Action, Error> {
    evaluate(root, req, no_texts(req.path())).result
}

/// What an evaluation returns does not depend on how the tables render.
pub proof fn outcome_ignores_texts(root: Entries, req: Request, texts: Seq<Seq<char>>)
    ensures
        evaluate(root, req, texts).result == outcome(root, req),
{
    let path = req.path();
    opened_keeps_table(root, path, texts);
    opened_keeps_table(root, path, no_texts(path));
    let one = ready(root, req, texts);
    let two = ready(root, req, no_texts(path));
    assert(resolve(one, req) == resolve(two, req));
    assert(put_result(one, req) == put_result(two, req));
    assert(take_result(one, req) == take_result(two, req));
}

/// Whether evaluating `req` leaves the document untouched: its table cannot
/// exist; or its table exists, and no insert, replace or remove is applied.
pub open spec fn leaves_untouched(root: Entries, req: Request) -> bool {
    if has_table(root, req.path()) {
        !(outcome(root, req) matches Ok(action) && (action is Insert || action is Replace
            || action is Remove))
    } else {
        blocked(root, req.path())
    }
}

/// Whether evaluating `req` comes to writing its value: the tables of its
/// path exist or can be created, and it then resolves to an insert or a
/// replace.
pub open spec fn writes_value(root: Entries, req: Request) -> bool {
    &&& has_table(root, req.path()) || !blocked(root, req.path())
    &&& resolve(ready(root, req, no_texts(req.path())), req) matches Some(action) && (action
        is Insert || action is Replace)
}

/// A request whose table is missing and can be created comes to writing if
/// and only if it is plain: it then inserts.
pub proof fn a_missing_table_takes_plain_requests(root: Entries, req: Request)
    requires
        !has_table(root, req.path()),
    ensures
        writes_value(root, req) <==> !blocked(root, req.path()) && !req.remove && !req.modify,
{
    opened_keeps_table(root, req.path(), no_texts(req.path()));
    missing_table_is_empty(root, req.path());
}

/// Writing after the path was opened is one evaluation: the tables along the
/// path render as the write left them, or, where the write failed, as the
/// opening did.
proof fn lemma_evaluate_put(
    root: Entries,
    req: Request,
    first: Seq<Seq<char>>,
    second: Seq<Seq<char>>,
) -> (texts: Seq<Seq<char>>)
    requires
        first.len() == req.path().len(),
        second.len() == req.path().len(),
        has_table(root, req.path()) || !blocked(root, req.path()),
        resolve(ready(root, req, first), req) matches Some(action) && (action is Insert
            || action is Replace),
    ensures
        texts.len() == req.path().len(),
        evaluate(root, req, texts).tree == put_tree(ready(root, req, first), req, second),
        evaluate(root, req, texts).result == match put_result(ready(root, req, first), req) {
            Ok(_) => Ok::<Action, Error>(resolve(ready(root, req, first), req)->0),
            Err(e) => Err::<Action, Error>(e),
        },
{
    let path = req.path();
    if has_table(root, path) {
        second
    } else {
        opened_keeps_table(root, path, first);
        opened_keeps_table(root, path, second);
        let one = opened(root, path, first);
        let two = opened(root, path, second);
        assert(resolve(one, req) == resolve(two, req));
        assert(put_result(one, req) == put_result(two, req));
        if put_result(one, req) is Err {
            first
        } else {
            let inner = table_at(root, path);
            with_table_twice(root, path, first, inner, second, inner.insert(req.key, req.value->0));
            with_table_twice(root, path, second, inner, second, inner.insert(req.key, req.value->0));
            assert(put_tree(one, req, second) == put_tree(two, req, second));
            second
        }
    }
}

impl TableArgs {
    /// Tells whether evaluating the request comes to writing its value, so
    /// that it must have one.
    pub fn wants_value(&self, doc: &DocumentMut) -> (r: bool)
        requires
            doc_rooted(*doc),
        ensures
            r == writes_value(doc_entries(*doc), self@),
    {
        proof {
            if !has_table(doc_entries(*doc), self@.path()) {
                a_missing_table_takes_plain_requests(doc_entries(*doc), self@);
            }
        }
        match self.action(doc) {
            Some(TableAction::InternalRejectMissingTable) => !self.remove() && !self.modify()
                && !self.is_blocked(doc),
            Some(TableAction::Insert(_)) => true,
            Some(TableAction::Replace(_)) => true,
            _ => false,
        }
    }

    /// Evaluates the current action w/ this
    ///
    /// The request must have a value where its evaluation comes to writing
    /// one; [`TableArgs::wants_value`] tells. A request that views returns its
    /// action; what it shows is [`TableArgs::view_item`].
    pub fn eval(&self, doc: &mut DocumentMut) -> (r: Result<TableAction, Error>)
        requires
            doc_rooted(*old(doc)),
            writes_value(doc_entries(*old(doc)), self@) ==> self@.value is Some,
        ensures
            doc_rooted(*final(doc)),
            match r {
                Ok(action) => outcome(doc_entries(*old(doc)), self@) == Ok::<Action, Error>(action@),
                Err(e) => outcome(doc_entries(*old(doc)), self@) == Err::<Action, Error>(e),
            },
            exists|texts: Seq<Seq<char>>|
                texts.len() == self@.path().len() && doc_entries(*final(doc)) == (
                #[trigger] evaluate(doc_entries(*old(doc)), self@, texts)).tree,
            leaves_untouched(doc_entries(*old(doc)), self@) ==> *final(doc) == *old(doc),
    {
        self.attempt(doc)
    }

    /// Evaluates the request, with or without a value: one that comes to
    /// writing a value and has none fails, after the tables of its path were
    /// created.
    pub(crate) fn attempt(&self, doc: &mut DocumentMut) -> (r: Result<TableAction, Error>)
        requires
            doc_rooted(*old(doc)),
        ensures
            doc_rooted(*final(doc)),
            match r {
                Ok(action) => outcome(doc_entries(*old(doc)), self@) == Ok::<Action, Error>(action@),
                Err(e) => outcome(doc_entries(*old(doc)), self@) == Err::<Action, Error>(e),
            },
            exists|texts: Seq<Seq<char>>|
                texts.len() == self@.path().len() && doc_entries(*final(doc)) == (
                #[trigger] evaluate(doc_entries(*old(doc)), self@, texts)).tree,
            leaves_untouched(doc_entries(*old(doc)), self@) ==> *final(doc) == *old(doc),
    {
        let ghost before = doc_entries(*old(doc));
        let ghost after = doc_entries(*final(doc));
        let ghost path = self@.path();
        let ghost mut first = no_texts(path);
        let mut action = self.action(doc);
        if let Some(TableAction::InternalRejectMissingTable) = action {
            match self.get_table_mut(doc) {
                Ok(_) => {},
                Err(e) => {
                    assert(after == evaluate(before, self@, first).tree);
                    return Err(e);
                },
            }
            proof {
                first = choose|texts: Seq<Seq<char>>|
                    texts.len() == path.len() && doc_entries(*doc) == #[trigger] with_table(
                        before,
                        path,
                        texts,
                        table_at(before, path),
                    );
            }
            action = self.action(doc);
        }
        let ghost start = doc_entries(*doc);
        proof {
            opened_keeps_table(before, path, first);
            resolve_never_removes(start, self@);
            outcome_ignores_texts(before, self@, first);
            assert(start == ready(before, self@, first));
        }
        match action {
            Some(action) => {
                match &action {
                    TableAction::Remove(_) => {
                        match self.remove_item(doc) {
                            Ok(_) => {},
                            Err(e) => {
                                return Err(e);
                            },
                        }
                    },
                    TableAction::Replace(_) | TableAction::Insert(_) => {
                        let written = self.set_item(doc);
                        proof {
                            let second = choose|texts: Seq<Seq<char>>|
                                texts.len() == path.len() && after == #[trigger] put_tree(
                                    start,
                                    self@,
                                    texts,
                                );
                            let texts = lemma_evaluate_put(before, self@, first, second);
                            outcome_ignores_texts(before, self@, texts);
                            assert(texts.len() == path.len() && after == evaluate(
                                before,
                                self@,
                                texts,
                            ).tree);
                        }
                        match written {
                            Ok(_) => {},
                            Err(e) => {
                                return Err(e);
                            },
                        }
                    },
                    _ => {
                        assert(after == evaluate(before, self@, first).tree);
                    },
                }
                Ok(action)
            },
            None => {
                assert(after == evaluate(before, self@, first).tree);
                Err(Error::Undetermined)
            },
        }
    }
}

/// The signal that a table is missing is never what an evaluation returns:
/// the table is created, or the evaluation fails.
pub proof fn missing_table_is_never_final(root: Entries, req: Request)
    ensures
        outcome(root, req) != Ok::<Action, Error>(Action::InternalRejectMissingTable),
{
    opened_keeps_table(root, req.path(), no_texts(req.path()));
}

/// A plain, well-formed request, once it has inserted, finds that its value
/// exists: against the tree that the insertion left, the same request resolves
/// to `Exists`.
pub proof fn insert_then_exists(root: Entries, req: Request, texts: Seq<Seq<char>>)
    requires
        req.well_formed(),
        outcome(root, req) == Ok::<Action, Error>(Action::Insert(req)),
    ensures
        resolve(evaluate(root, req, texts).tree, req) == Some(Action::Exists(req)),
{
    let path = req.path();
    let start = ready(root, req, texts);
    outcome_ignores_texts(root, req, texts);
    opened_keeps_table(root, path, texts);
    let inner = table_at(start, path).insert(req.key, req.value->0);
    assert(evaluate(root, req, texts).tree == with_table(start, path, texts, inner));
    with_table_has_tables(start, path, texts, inner, path.len() as int);
    assert(path.take(path.len() as int) == path);
}

/// A key that holds an item of another type than the declared one rejects
/// every request, whatever its flags and its value, and the document stays as
/// it is: a key that holds a float never takes a request for a string.
pub proof fn type_mismatch_is_stable(root: Entries, req: Request, texts: Seq<Seq<char>>)
    requires
        entry_at(root, req.path(), req.key) matches Some(found) && !req.value_type.matches(found),
    ensures
        resolve(root, req) == Some(Action::RejectTypeMismatch),
        outcome(root, req) == Ok::<Action, Error>(Action::RejectTypeMismatch),
        evaluate(root, req, texts).tree == root,
{
}

/// A request for a table that does not exist first resolves to the signal
/// that the table is missing. Once the tables of its path are created, the
/// path and each of its beginnings lead to a table; each table that had to be
/// created holds the next table of the path and nothing else, and the last one
/// nothing at all. The request then resolves as against any table without the
/// key: a plain request inserts, any other resolves to nothing.
pub proof fn missing_table_is_created(
    root: Entries,
    req: Request,
    texts: Seq<Seq<char>>,
    n: int,
)
    requires
        !has_table(root, req.path()),
        0 <= n <= req.path().len(),
    ensures
        resolve(root, req) == Some(Action::InternalRejectMissingTable),
        has_table(opened(root, req.path(), texts), req.path().take(n)),
        !has_table(root, req.path().take(n)) && n < req.path().len() ==> table_at(
            opened(root, req.path(), texts),
            req.path().take(n),
        ).dom() == set![req.path()[n]],
        table_at(opened(root, req.path(), texts), req.path()) == Entries::empty(),
        resolve(opened(root, req.path(), texts), req) == if !req.remove && !req.modify {
            Some(Action::Insert(req))
        } else {
            None
        },
{
    let path = req.path();
    let inner = table_at(root, path);
    missing_table_is_empty(root, path);
    opened_keeps_table(root, path, texts);
    with_table_has_tables(root, path, texts, inner, n);
    if !has_table(root, path.take(n)) && n < path.len() {
        created_tables_hold_only_the_path(root, path, texts, inner, n);
    }
}

} // verus!
