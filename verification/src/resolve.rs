//! Resolution: what a request comes to against a document, without
//! changing it.

use vstd::prelude::*;
use toml_edit::{DocumentMut, Item, Table};
use crate::args::{Action, Request, TableAction, TableArgs};
use crate::path::{split_path, views};
use crate::toml::{
    doc_as_item, doc_as_table, doc_entries, doc_rooted, item_as_table, item_kind, item_node,
    item_to_string, table_entries, table_get, Entries, ItemKind, Node,
};
use crate::tree::{entry_at, has_table, table_at};

verus! {

/// Tells whether `doc` is a document: whether its root is a table.
pub fn is_document(doc: &DocumentMut) -> (r: bool)
    ensures
        r == doc_rooted(*doc),
{
    match item_kind(doc_as_item(doc)) {
        ItemKind::Table => true,
        _ => false,
    }
}

/// What `req` resolves to against the tree `root`; nothing where no action
/// fits.
///
/// A request for a table that does not exist resolves to the internal signal
/// that the table is missing. Else the item at the key decides. Where there is
/// none, a plain request inserts, and one that removes or modifies resolves to
/// nothing. Where the item has another type than the declared one, the request
/// is rejected. A request that removes replaces if it also modifies, and else
/// only says that it would remove. Of the others, one without a value views if
/// it modifies and else does nothing; one whose value serializes as the item
/// does replaces if it modifies and else states that the value exists; any
/// other value is rejected.
pub open spec fn resolve(root: Entries, req: Request) -> Option<Action> {
    if !has_table(root, req.path()) {
        Some(Action::InternalRejectMissingTable)
    } else {
        match entry_at(root, req.path(), req.key) {
            None => if !req.remove && !req.modify {
                Some(Action::Insert(req))
            } else {
                None
            },
            Some(found) => Some(
                if !req.value_type.matches(found) {
                    Action::RejectTypeMismatch
                } else if req.remove {
                    if req.modify {
                        Action::Replace(req)
                    } else {
                        Action::WouldRemove
                    }
                } else if !req.has_value() {
                    if req.modify {
                        Action::View(req)
                    } else {
                        Action::NoOP
                    }
                } else if req.value->0.text() == found.text() {
                    if req.modify {
                        Action::Replace(req)
                    } else {
                        Action::Exists(req)
                    }
                } else {
                    Action::RejectExistingValueMismatch
                },
            ),
        }
    }
}

/// The item that a view of `req` shows: the one at its key, if it has the
/// declared type and, where the request has a value, serializes as it does.
pub open spec fn viewed(root: Entries, req: Request) -> Option<Node> {
    match entry_at(root, req.path(), req.key) {
        Some(found) => if req.value_type.matches(found) && (req.value is None
            || req.value->0.text() == found.text()) {
            Some(found)
        } else {
            None
        },
        None => None,
    }
}

/// Follows `path` from its key number `from` on, through the tables of
/// `table`.
fn walk<'a>(table: &'a Table, path: &Vec<String>, from: usize) -> (r: Option<&'a Table>)
    requires
        from <= path.len(),
    ensures
        match r {
            Some(t) => has_table(table_entries(*table), views(path@).skip(from as int))
                && table_entries(*t) == table_at(
                table_entries(*table),
                views(path@).skip(from as int),
            ),
            None => !has_table(table_entries(*table), views(path@).skip(from as int)),
        },
    decreases path.len() - from,
{
    if from == path.len() {
        return Some(table);
    }
    proof {
        let rest = views(path@).skip(from as int);
        assert(rest[0] == path[from as int]@);
        assert(rest.skip(1) == views(path@).skip(from + 1));
    }
    match table_get(table, path[from].as_str()) {
        Some(item) => match item_as_table(item) {
            Some(below) => walk(below, path, from + 1),
            None => None,
        },
        None => None,
    }
}

impl TableArgs {
    /// Get a reference to the table specified by this configuration
    pub fn get_table<'a>(&self, doc: &'a DocumentMut) -> (r: Option<&'a Table>)
        requires
            doc_rooted(*doc),
        ensures
            match r {
                Some(t) => has_table(doc_entries(*doc), self@.path()) && table_entries(*t)
                    == table_at(doc_entries(*doc), self@.path()),
                None => !has_table(doc_entries(*doc), self@.path()),
            },
    {
        let path = split_path(self.table());
        proof {
            assert(views(path@).skip(0) == views(path@));
        }
        walk(doc_as_table(doc), &path, 0)
    }

    /// Returns true if the document has the table specified by this configuration
    pub fn has_table(&self, doc: &DocumentMut) -> (r: bool)
        requires
            doc_rooted(*doc),
        ensures
            r == has_table(doc_entries(*doc), self@.path()),
    {
        self.get_table(doc).is_some()
    }

    /// Fetches an entry from the document
    pub fn get_entry<'a>(&self, doc: &'a DocumentMut) -> (r: Option<&'a Item>)
        requires
            doc_rooted(*doc),
        ensures
            match r {
                Some(item) => entry_at(doc_entries(*doc), self@.path(), self@.key) == Some(
                    item_node(*item),
                ),
                None => entry_at(doc_entries(*doc), self@.path(), self@.key) is None,
            },
    {
        match self.get_table(doc) {
            Some(table) => table_get(table, self.key()),
            None => None,
        }
    }

    /// Whether the request brings a value to compare or to write.
    pub(crate) fn brings_value(&self) -> (r: bool)
        ensures
            r == self@.has_value(),
    {
        match self.value() {
            Some(item) => match item_kind(item) {
                ItemKind::Empty => false,
                _ => true,
            },
            None => false,
        }
    }

    /// Whether the value of the request serializes as `found` does.
    pub(crate) fn same_text(&self, found: &Item) -> (r: bool)
        requires
            self@.value is Some,
        ensures
            r == (self@.value->0.text() == item_node(*found).text()),
    {
        match self.value() {
            Some(item) => item_to_string(item) == item_to_string(found),
            None => false,
        }
    }

    /// Returns the action the current set of args would apply to a document
    pub fn action(&self, doc: &DocumentMut) -> (r: Option<TableAction>)
        requires
            doc_rooted(*doc),
        ensures
            match r {
                Some(action) => resolve(doc_entries(*doc), self@) == Some(action@),
                None => resolve(doc_entries(*doc), self@) is None,
            },
    {
        if !self.has_table(doc) {
            return Some(TableAction::InternalRejectMissingTable);
        }
        match self.get_entry(doc) {
            None => if !self.remove() && !self.modify() {
                Some(TableAction::Insert(self.clone()))
            } else {
                None
            },
            Some(found) => Some(
                if !self.value_type().is_type(found) {
                    TableAction::RejectTypeMismatch
                } else if self.remove() {
                    if self.modify() {
                        TableAction::Replace(self.clone())
                    } else {
                        TableAction::WouldRemove
                    }
                } else if !self.brings_value() {
                    if self.modify() {
                        TableAction::View(self.clone())
                    } else {
                        TableAction::NoOP
                    }
                } else if self.same_text(found) {
                    if self.modify() {
                        TableAction::Replace(self.clone())
                    } else {
                        TableAction::Exists(self.clone())
                    }
                } else {
                    TableAction::RejectExistingValueMismatch
                },
            ),
        }
    }
}

impl TableArgs {
    /// Returns a view of the item stored in the document
    pub fn view_item<'a>(&self, doc: &'a DocumentMut) -> (r: Option<&'a Item>)
        requires
            doc_rooted(*doc),
        ensures
            match r {
                Some(item) => viewed(doc_entries(*doc), self@) == Some(item_node(*item)),
                None => viewed(doc_entries(*doc), self@) is None,
            },
    {
        match self.get_entry(doc) {
            Some(found) => if self.value_type().is_type(found) && (self.value().is_none()
                || self.same_text(found)) {
                Some(found)
            } else {
                None
            },
            None => None,
        }
    }
}

/// No request resolves to a removal.
pub proof fn resolve_never_removes(root: Entries, req: Request)
    ensures
        !(resolve(root, req) matches Some(Action::Remove(_))),
{
}

/// A request that modifies without removing, on a key that holds an item of
/// the declared type: without a value it views; with a value that serializes
/// as the item does it replaces; with any other value it is rejected.
pub proof fn modify_needs_agreement(root: Entries, req: Request)
    requires
        !req.remove,
        req.modify,
        entry_at(root, req.path(), req.key) matches Some(found) && req.value_type.matches(found),
    ensures
        resolve(root, req) == Some(
            if !req.has_value() {
                Action::View(req)
            } else if req.value->0.text() == entry_at(root, req.path(), req.key)->0.text() {
                Action::Replace(req)
            } else {
                Action::RejectExistingValueMismatch
            },
        ),
{
}

/// A request that modifies and removes, on a key that holds an item of the
/// declared type, replaces, whatever its value.
pub proof fn forced_replace_ignores_value(root: Entries, req: Request)
    requires
        req.remove,
        req.modify,
        entry_at(root, req.path(), req.key) matches Some(found) && req.value_type.matches(found),
    ensures
        resolve(root, req) == Some(Action::Replace(req)),
{
}

} // verus!
