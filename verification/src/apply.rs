//! Changes to a document: opening the path of a table, writing a value at a
//! key, taking a key out.

use vstd::prelude::*;
use toml_edit::{DocumentMut, Item, Table};
use crate::args::{Request, TableArgs};
use crate::error::Error;
use crate::path::{split_path, views};
use crate::toml::{
    doc_as_table, doc_as_table_mut, doc_entries, doc_rooted, item_as_table, item_as_table_mut,
    item_clone, item_node, new_table, table_entries, table_get, table_get_mut, table_has_key,
    table_put, table_remove, Entries, Node,
};
use crate::tree::{
    blocked, has_table, missing_table_is_empty, table_at, with_table, with_table_has_tables, Path,
};

verus! {

/// The tree once the tables of `path` exist: what `path` leads to is kept, or
/// empty where it led to no table.
pub open spec fn opened(root: Entries, path: Path, texts: Seq<Seq<char>>) -> Entries {
    with_table(root, path, texts, table_at(root, path))
}

/// What writing the value of `req` at its key returns: the item that was
/// stored at the key, if the key was stored.
///
/// It fails where the request has no value, where the path is blocked, and
/// where the key is stored with anything that has not the declared type.
pub open spec fn put_result(root: Entries, req: Request) -> Result<Option<Node>, Error> {
    let table = table_at(root, req.path());
    if req.value is None {
        Err(Error::NotSet)
    } else if blocked(root, req.path()) {
        Err(Error::TableBlocked)
    } else if !table.contains_key(req.key) {
        Ok(None)
    } else if req.value_type.matches(table[req.key]) {
        Ok(Some(table[req.key]))
    } else {
        Err(Error::NotSet)
    }
}

/// The tree after writing the value of `req` at its key: unchanged where the
/// write fails; else with the tables of the path, and with the value at the
/// key.
pub open spec fn put_tree(root: Entries, req: Request, texts: Seq<Seq<char>>) -> Entries {
    if put_result(root, req) is Ok {
        with_table(
            root,
            req.path(),
            texts,
            table_at(root, req.path()).insert(req.key, req.value->0),
        )
    } else {
        root
    }
}

/// What removing the key of `req` returns: the item that was stored at the
/// key, if the key was stored.
///
/// It fails where the path is blocked, and where the request has a value and
/// the key does not hold an item of the declared type that serializes as the
/// value does.
pub open spec fn take_result(root: Entries, req: Request) -> Result<Option<Node>, Error> {
    let table = table_at(root, req.path());
    if blocked(root, req.path()) {
        Err(Error::TableBlocked)
    } else if req.value is Some && !(table.contains_key(req.key) && req.value_type.matches(
        table[req.key],
    ) && table[req.key].text() == req.value->0.text()) {
        Err(Error::NotRemoved)
    } else if table.contains_key(req.key) {
        Ok(Some(table[req.key]))
    } else {
        Ok(None)
    }
}

/// The tree after removing the key of `req`: unchanged where the path is
/// blocked. Else without the key, where the removal takes it out; as it was,
/// where the table existed and nothing is taken out; and with the tables of
/// the path, where they had to be created although nothing is taken out.
pub open spec fn take_tree(root: Entries, req: Request, texts: Seq<Seq<char>>) -> Entries {
    let table = table_at(root, req.path());
    if blocked(root, req.path()) {
        root
    } else if take_result(root, req) is Ok && table.contains_key(req.key) {
        with_table(root, req.path(), texts, table.remove(req.key))
    } else if has_table(root, req.path()) {
        root
    } else {
        opened(root, req.path(), texts)
    }
}

/// One text, the empty one, for each key of `path`.
pub open spec fn no_texts(path: Path) -> Seq<Seq<char>> {
    Seq::new(path.len(), |i: int| Seq::<char>::empty())
}

/// Once the tables of a path exist, the path leads to what it led to before,
/// however the tables render.
pub proof fn opened_keeps_table(root: Entries, path: Path, texts: Seq<Seq<char>>)
    ensures
        has_table(opened(root, path, texts), path),
        !blocked(opened(root, path, texts), path),
        table_at(opened(root, path, texts), path) == table_at(root, path),
{
    with_table_has_tables(root, path, texts, table_at(root, path), path.len() as int);
    assert(path.take(path.len() as int) == path);
}

/// What was written is found: after a write that succeeds, the table of the
/// request holds what it held, and the value at the key.
pub proof fn written_is_found(root: Entries, req: Request, texts: Seq<Seq<char>>)
    requires
        put_result(root, req) is Ok,
    ensures
        has_table(put_tree(root, req, texts), req.path()),
        table_at(put_tree(root, req, texts), req.path()) == table_at(root, req.path()).insert(
            req.key,
            req.value->0,
        ),
{
    let path = req.path();
    let inner = table_at(root, path).insert(req.key, req.value->0);
    with_table_has_tables(root, path, texts, inner, path.len() as int);
    assert(path.take(path.len() as int) == path);
}

/// What was taken is gone: after a removal that succeeds, the table of the
/// request holds what it held, but for the key.
pub proof fn taken_is_gone(root: Entries, req: Request, texts: Seq<Seq<char>>)
    requires
        take_result(root, req) is Ok,
    ensures
        has_table(take_tree(root, req, texts), req.path()),
        table_at(take_tree(root, req, texts), req.path()) == table_at(root, req.path()).remove(
            req.key,
        ),
{
    let path = req.path();
    let table = table_at(root, path);
    let inner = table.remove(req.key);
    with_table_has_tables(root, path, texts, inner, path.len() as int);
    opened_keeps_table(root, path, texts);
    assert(path.take(path.len() as int) == path);
    if !table.contains_key(req.key) {
        assert(inner == table);
    }
}

/// Whether something other than a table lies on `path`, from its key number
/// `from` on, under `table`.
fn path_blocked(table: &Table, path: &Vec<String>, from: usize) -> (r: bool)
    requires
        from <= path.len(),
    ensures
        r == blocked(table_entries(*table), views(path@).skip(from as int)),
    decreases path.len() - from,
{
    if from == path.len() {
        return false;
    }
    proof {
        let rest = views(path@).skip(from as int);
        assert(rest[0] == path[from as int]@);
        assert(rest.skip(1) == views(path@).skip(from + 1));
    }
    match table_get(table, path[from].as_str()) {
        Some(item) => match item_as_table(item) {
            Some(below) => path_blocked(below, path, from + 1),
            None => true,
        },
        None => false,
    }
}

/// Follows `path` from its key number `from` on, and creates the tables that
/// are missing on the way.
fn open_path<'a>(table: &'a mut Table, path: &Vec<String>, from: usize) -> (r: Result<
    &'a mut Table,
    Error,
>)
    requires
        from <= path.len(),
        !blocked(table_entries(*old(table)), views(path@).skip(from as int)),
    ensures
        match r {
            Ok(t) => {
                &&& table_entries(*t) == table_at(
                    table_entries(*old(table)),
                    views(path@).skip(from as int),
                )
                &&& exists|texts: Seq<Seq<char>>|
                    texts.len() == path.len() - from && table_entries(*final(table))
                        == #[trigger] with_table(
                        table_entries(*old(table)),
                        views(path@).skip(from as int),
                        texts,
                        table_entries(*final(t)),
                    )
                &&& has_table(table_entries(*old(table)), views(path@).skip(from as int))
                    && *final(t) == *t ==> *final(table) == *old(table)
            },
            Err(_) => false,
        },
    decreases path.len() - from,
{
    let ghost rest = views(path@).skip(from as int);
    let ghost before = table_entries(*old(table));
    let ghost after = table_entries(*final(table));
    if from == path.len() {
        let r = Ok(table);
        assert(r matches Ok(t) && table_entries(*final(t)) == after);
        assert(after == with_table(before, rest, Seq::<Seq<char>>::empty(), after));
        return r;
    }
    proof {
        assert(rest[0] == path[from as int]@);
        assert(rest.skip(1) == views(path@).skip(from + 1));
    }
    let key = path[from].as_str();
    if table_get(table, key).is_none() {
        table_put(table, key, new_table());
    }
    let r = match table_get_mut(table, key) {
        Some(item) => {
            let ghost item_after = item_node(*final(item));
            match item_as_table_mut(item) {
                Some(below) => {
                    let ghost below_before = table_entries(*below);
                    let ghost below_after = table_entries(*final(below));
                    match open_path(below, path, from + 1) {
                        Ok(t) => {
                            proof {
                                let inner = table_entries(*final(t));
                                let texts = choose|texts: Seq<Seq<char>>|
                                    texts.len() == path.len() - (from + 1) && below_after
                                        == #[trigger] with_table(
                                        below_before,
                                        rest.skip(1),
                                        texts,
                                        inner,
                                    );
                                let all = seq![item_after.text()] + texts;
                                assert(all.skip(1) == texts);
                                assert(after == with_table(before, rest, all, inner));
                            }
                            Ok(t)
                        },
                        Err(e) => Err(e),
                    }
                },
                None => Err(Error::TableBlocked),
            }
        },
        None => Err(Error::TableBlocked),
    };
    assert(r is Ok);
    r
}

impl TableArgs {
    /// Tells whether something other than a table lies on the table path, so
    /// that the table can neither exist nor be created.
    pub fn is_blocked(&self, doc: &DocumentMut) -> (r: bool)
        requires
            doc_rooted(*doc),
        ensures
            r == blocked(doc_entries(*doc), self@.path()),
    {
        let path = split_path(self.table());
        assert(views(path@).skip(0) == views(path@));
        path_blocked(doc_as_table(doc), &path, 0)
    }

    /// Returns a mutable reference to the table specified by this
    /// configuration, after creating every table of the path that is missing.
    ///
    /// Fails, and leaves the document as it is, where something other than a
    /// table lies on the path. Else the document is what the caller leaves in
    /// the table, under the tables of the path; where the table existed and
    /// the caller leaves it as it was, the document is as it was.
    pub fn get_table_mut<'a>(&self, doc: &'a mut DocumentMut) -> (r: Result<&'a mut Table, Error>)
        requires
            doc_rooted(*old(doc)),
        ensures
            doc_rooted(*final(doc)),
            match r {
                Ok(t) => {
                    &&& !blocked(doc_entries(*old(doc)), self@.path())
                    &&& table_entries(*t) == table_at(doc_entries(*old(doc)), self@.path())
                    &&& exists|texts: Seq<Seq<char>>|
                        texts.len() == self@.path().len() && doc_entries(*final(doc))
                            == #[trigger] with_table(
                            doc_entries(*old(doc)),
                            self@.path(),
                            texts,
                            table_entries(*final(t)),
                        )
                &&& has_table(doc_entries(*old(doc)), self@.path()) && *final(t) == *t
                    ==> *final(doc) == *old(doc)
                },
                Err(e) => {
                    &&& e == Error::TableBlocked
                    &&& blocked(doc_entries(*old(doc)), self@.path())
                    &&& *final(doc) == *old(doc)
                },
            },
    {
        let path = split_path(self.table());
        assert(views(path@).skip(0) == views(path@));
        if path_blocked(doc_as_table(doc), &path, 0) {
            return Err(Error::TableBlocked);
        }
        open_path(doc_as_table_mut(doc), &path, 0)
    }

    /// Write a value to a document
    ///
    /// Returns the previous value if a previous value exists
    ///
    /// **Errors**, each of which leaves the document as it was:
    /// - Returns an error if the request has no value
    /// - Returns an error if the requested table was unable to be created
    /// - Returns an error if the table entry was occupied, and the existing
    ///   value did not match the expected type
    pub fn set_item(&self, doc: &mut DocumentMut) -> (r: Result<Option<Item>, Error>)
        requires
            doc_rooted(*old(doc)),
        ensures
            doc_rooted(*final(doc)),
            match r {
                Ok(Some(prev)) => put_result(doc_entries(*old(doc)), self@) == Ok::<
                    Option<Node>,
                    Error,
                >(Some(item_node(prev))),
                Ok(None) => put_result(doc_entries(*old(doc)), self@) == Ok::<Option<Node>, Error>(
                    None,
                ),
                Err(e) => put_result(doc_entries(*old(doc)), self@) == Err::<Option<Node>, Error>(e),
            },
            exists|texts: Seq<Seq<char>>|
                texts.len() == self@.path().len() && doc_entries(*final(doc)) == #[trigger] put_tree(
                    doc_entries(*old(doc)),
                    self@,
                    texts,
                ),
            r is Err ==> *final(doc) == *old(doc),
    {
        let ghost before = doc_entries(*old(doc));
        let ghost after = doc_entries(*final(doc));
        let ghost path = self@.path();
        let item = match self.value() {
            Some(item) => item_clone(item),
            None => {
                assert(after == put_tree(before, self@, no_texts(path)));
                return Err(Error::NotSet);
            },
        };
        let table = match self.get_table_mut(doc) {
            Ok(table) => table,
            Err(e) => {
                assert(after == put_tree(before, self@, no_texts(path)));
                return Err(e);
            },
        };
        let ghost inner_after = table_entries(*final(table));
        let ghost texts = choose|texts: Seq<Seq<char>>|
            texts.len() == path.len() && after == #[trigger] with_table(
                before,
                path,
                texts,
                inner_after,
            );
        let key = self.key();
        let occupied = table_has_key(table, key);
        let fits = match table_get(table, key) {
            Some(found) => self.value_type().is_type(found),
            None => false,
        };
        if occupied && !fits {
            proof {
                if !has_table(before, path) {
                    missing_table_is_empty(before, path);
                }
                assert(after == put_tree(before, self@, texts));
            }
            return Err(Error::NotSet);
        }
        let prev = table_put(table, key, item);
        assert(after == put_tree(before, self@, texts));
        Ok(prev)
    }

    /// Removes an item from a document
    ///
    /// Returns the item that was stored at the key, if the key was stored.
    ///
    /// Where the table existed and nothing is taken out, the document stays as
    /// it was.
    ///
    /// **Errors**:
    /// - Returns an error if the requested table was unable to be created
    /// - Returns an error if the request has a value, and the key does not
    ///   hold an item of the expected type that serializes as the value does
    pub fn remove_item(&self, doc: &mut DocumentMut) -> (r: Result<Option<Item>, Error>)
        requires
            doc_rooted(*old(doc)),
        ensures
            doc_rooted(*final(doc)),
            match r {
                Ok(Some(prev)) => take_result(doc_entries(*old(doc)), self@) == Ok::<
                    Option<Node>,
                    Error,
                >(Some(item_node(prev))),
                Ok(None) => take_result(doc_entries(*old(doc)), self@) == Ok::<Option<Node>, Error>(
                    None,
                ),
                Err(e) => take_result(doc_entries(*old(doc)), self@) == Err::<Option<Node>, Error>(
                    e,
                ),
            },
            exists|texts: Seq<Seq<char>>|
                texts.len() == self@.path().len() && doc_entries(*final(doc))
                    == #[trigger] take_tree(doc_entries(*old(doc)), self@, texts),
            blocked(doc_entries(*old(doc)), self@.path()) ==> *final(doc) == *old(doc),
            has_table(doc_entries(*old(doc)), self@.path()) && !(r matches Ok(Some(_)))
                ==> *final(doc) == *old(doc),
    {
        let ghost before = doc_entries(*old(doc));
        let ghost after = doc_entries(*final(doc));
        let ghost path = self@.path();
        let table = match self.get_table_mut(doc) {
            Ok(table) => table,
            Err(e) => {
                assert(after == take_tree(before, self@, no_texts(path)));
                return Err(e);
            },
        };
        let ghost inner_after = table_entries(*final(table));
        let ghost texts = choose|texts: Seq<Seq<char>>|
            texts.len() == path.len() && after == #[trigger] with_table(
                before,
                path,
                texts,
                inner_after,
            );
        let key = self.key();
        if self.value().is_some() {
            let agrees = match table_get(table, key) {
                Some(found) => self.value_type().is_type(found) && self.same_text(found),
                None => false,
            };
            if !agrees {
                assert(after == take_tree(before, self@, texts));
                return Err(Error::NotRemoved);
            }
        }
        let prev = table_remove(table, key);
        proof {
            if !has_table(before, path) {
                missing_table_is_empty(before, path);
                assert(table_at(before, path).remove(self@.key) == table_at(before, path));
            }
            assert(after == take_tree(before, self@, texts));
        }
        Ok(prev)
    }
}

} // verus!
