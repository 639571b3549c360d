//! Requests against a document, and the actions they resolve to.

use vstd::prelude::*;
use vstd::string::*;
use toml_edit::Item;
use crate::path::split_on;
use crate::toml::{item_clone, item_node, Node};
use crate::tree::Path;
use crate::types::Types;

verus! {

/// A request, as the contracts see it.
pub struct Request {
    pub remove: bool,
    pub modify: bool,
    /// The table path, dots and all.
    pub table: Seq<char>,
    pub value_type: Types,
    pub extended_value_type: Option<Types>,
    pub key: Seq<char>,
    /// What the new value holds, if the request has one.
    pub value: Option<Node>,
    /// Where the value was imported from, if it was.
    pub import_path: Option<Seq<char>>,
}

impl Request {
    /// The keys of the table path.
    pub open spec fn path(self) -> Path {
        split_on(self.table, '.')
    }

    /// Whether the request brings a value: an item that holds nothing is none.
    pub open spec fn has_value(self) -> bool {
        self.value is Some && self.value->0 !is Empty
    }

    /// Whether the request is well formed: it names a key, and its value, if
    /// it has one, has the declared type.
    pub open spec fn well_formed(self) -> bool {
        self.key.len() > 0 && (self.value is Some ==> self.value_type.matches(self.value->0))
    }

    /// The request that nothing has been set in.
    pub open spec fn empty() -> Request {
        Request {
            remove: false,
            modify: false,
            table: Seq::empty(),
            value_type: Types::String,
            extended_value_type: None,
            key: Seq::empty(),
            value: None,
            import_path: None,
        }
    }
}

/// An action, as the contracts see it.
pub enum Action {
    Insert(Request),
    Replace(Request),
    Remove(Request),
    View(Request),
    Exists(Request),
    WouldRemove,
    WouldReplace,
    RejectTypeMismatch,
    RejectExistingValueMismatch,
    InternalRejectMissingTable,
    NoOP,
}

/// One intended change, or query, against one key of one table.
#[derive(Debug)]
pub struct TableArgs {
    /// Asks to remove the key.
    remove: bool,
    /// Allows to change what exists.
    modify: bool,
    /// The path of the table, its keys separated by dots.
    table: String,
    /// The declared type of the value.
    value_type: Types,
    /// A second type, for expressions such as `-X str -Y append`.
    extended_value_type: Option<Types>,
    /// The key.
    key: String,
    /// The new value.
    value: Option<Item>,
    /// The path that an imported value was read from.
    import_path: Option<String>,
}

/// What a request resolves to.
#[derive(Debug)]
pub enum TableAction {
    /// Inserts a value for a key to a table
    Insert(TableArgs),
    /// Replaces the value of a key from a table
    Replace(TableArgs),
    /// Removes a key from a table
    Remove(TableArgs),
    /// Views the value of a key from a table
    View(TableArgs),
    /// Checks if a key exists in a table
    Exists(TableArgs),
    /// The remove would have been successful
    WouldRemove,
    /// The replace would have been successful
    WouldReplace,
    /// Rejected: the key holds a value of another type
    RejectTypeMismatch,
    /// Rejected: the key holds another value than the one expected
    RejectExistingValueMismatch,
    /// The table is missing; never a final result
    InternalRejectMissingTable,
    /// Nothing to do
    NoOP,
}

impl View for TableArgs {
    type V = Request;

    closed spec fn view(&self) -> Request {
        Request {
            remove: self.remove,
            modify: self.modify,
            table: self.table@,
            value_type: self.value_type,
            extended_value_type: self.extended_value_type,
            key: self.key@,
            value: match self.value {
                Some(item) => Some(item_node(item)),
                None => None,
            },
            import_path: match self.import_path {
                Some(path) => Some(path@),
                None => None,
            },
        }
    }
}

impl View for TableAction {
    type V = Action;

    open spec fn view(&self) -> Action {
        match self {
            TableAction::Insert(args) => Action::Insert(args@),
            TableAction::Replace(args) => Action::Replace(args@),
            TableAction::Remove(args) => Action::Remove(args@),
            TableAction::View(args) => Action::View(args@),
            TableAction::Exists(args) => Action::Exists(args@),
            TableAction::WouldRemove => Action::WouldRemove,
            TableAction::WouldReplace => Action::WouldReplace,
            TableAction::RejectTypeMismatch => Action::RejectTypeMismatch,
            TableAction::RejectExistingValueMismatch => Action::RejectExistingValueMismatch,
            TableAction::InternalRejectMissingTable => Action::InternalRejectMissingTable,
            TableAction::NoOP => Action::NoOP,
        }
    }
}

impl Clone for TableArgs {
    fn clone(&self) -> (copy: Self)
        ensures
            copy@ == self@,
    {
        TableArgs {
            remove: self.remove,
            modify: self.modify,
            table: self.table.clone(),
            value_type: self.value_type,
            extended_value_type: self.extended_value_type,
            key: self.key.clone(),
            value: match &self.value {
                Some(item) => Some(item_clone(item)),
                None => None,
            },
            import_path: match &self.import_path {
                Some(path) => Some(path.clone()),
                None => None,
            },
        }
    }
}

impl Default for TableArgs {
    fn default() -> (args: Self)
        ensures
            args@ == Request::empty(),
    {
        TableArgs {
            remove: false,
            modify: false,
            table: String::new(),
            value_type: Types::String,
            extended_value_type: None,
            key: String::new(),
            value: None,
            import_path: None,
        }
    }
}

impl Clone for TableAction {
    fn clone(&self) -> (copy: Self)
        ensures
            copy@ == self@,
    {
        match self {
            TableAction::Insert(args) => TableAction::Insert(args.clone()),
            TableAction::Replace(args) => TableAction::Replace(args.clone()),
            TableAction::Remove(args) => TableAction::Remove(args.clone()),
            TableAction::View(args) => TableAction::View(args.clone()),
            TableAction::Exists(args) => TableAction::Exists(args.clone()),
            TableAction::WouldRemove => TableAction::WouldRemove,
            TableAction::WouldReplace => TableAction::WouldReplace,
            TableAction::RejectTypeMismatch => TableAction::RejectTypeMismatch,
            TableAction::RejectExistingValueMismatch => TableAction::RejectExistingValueMismatch,
            TableAction::InternalRejectMissingTable => TableAction::InternalRejectMissingTable,
            TableAction::NoOP => TableAction::NoOP,
        }
    }
}

impl TableArgs {
    /// Sets the current table
    pub fn set_table(&mut self, table: &str)
        ensures
            final(self)@ == (Request { table: table@, ..old(self)@ }),
    {
        self.table = String::from_str(table);
    }

    /// Sets the current value ty
    pub fn set_value_ty(&mut self, ty: Types)
        ensures
            final(self)@ == (Request { value_type: ty, ..old(self)@ }),
    {
        self.value_type = ty;
    }

    /// Sets the second value type
    pub fn set_extended_value_ty(&mut self, ty: Option<Types>)
        ensures
            final(self)@ == (Request { extended_value_type: ty, ..old(self)@ }),
    {
        self.extended_value_type = ty;
    }

    /// Sets the current key
    pub fn set_key(&mut self, key: &str)
        ensures
            final(self)@ == (Request { key: key@, ..old(self)@ }),
    {
        self.key = String::from_str(key);
    }

    /// Sets the current value as item
    pub fn set_value(&mut self, item: Item)
        ensures
            final(self)@ == (Request { value: Some(item_node(item)), ..old(self)@ }),
    {
        self.value = Some(item);
    }

    /// Sets the path that the value was imported from
    pub fn set_import_path(&mut self, path: &str)
        ensures
            final(self)@ == (Request { import_path: Some(path@), ..old(self)@ }),
    {
        self.import_path = Some(String::from_str(path));
    }

    /// Sets the value of the modify flag
    pub fn set_modify(&mut self, modify: bool)
        ensures
            final(self)@ == (Request { modify, ..old(self)@ }),
    {
        self.modify = modify;
    }

    /// Sets the value of the remove flag
    pub fn set_remove(&mut self, remove: bool)
        ensures
            final(self)@ == (Request { remove, ..old(self)@ }),
    {
        self.remove = remove;
    }

    /// Tells whether the request is well formed: whether it names a key, and
    /// its value, if it has one, has the declared type.
    pub fn is_well_formed(&self) -> (r: bool)
        ensures
            r == self@.well_formed(),
    {
        let named = self.key.as_str().unicode_len() > 0;
        let typed = match &self.value {
            Some(item) => self.value_type.is_type(item),
            None => true,
        };
        named && typed
    }

    /// The remove flag
    pub fn remove(&self) -> (r: bool)
        ensures
            r == self@.remove,
    {
        self.remove
    }

    /// The modify flag
    pub fn modify(&self) -> (r: bool)
        ensures
            r == self@.modify,
    {
        self.modify
    }

    /// The table path
    pub fn table(&self) -> (r: &str)
        ensures
            r@ == self@.table,
    {
        self.table.as_str()
    }

    /// The declared value type
    pub fn value_type(&self) -> (r: Types)
        ensures
            r == self@.value_type,
    {
        self.value_type
    }

    /// The second value type
    pub fn extended_value_type(&self) -> (r: Option<Types>)
        ensures
            r == self@.extended_value_type,
    {
        self.extended_value_type
    }

    /// The path that the value was imported from
    pub fn import_path(&self) -> (r: Option<&str>)
        ensures
            match r {
                Some(path) => self@.import_path == Some(path@),
                None => self@.import_path is None,
            },
    {
        match &self.import_path {
            Some(path) => Some(path.as_str()),
            None => None,
        }
    }

    /// The key
    pub fn key(&self) -> (r: &str)
        ensures
            r@ == self@.key,
    {
        self.key.as_str()
    }

    /// The new value
    pub fn value(&self) -> (r: Option<&Item>)
        ensures
            match r {
                Some(item) => self@.value == Some(item_node(*item)),
                None => self@.value is None,
            },
    {
        self.value.as_ref()
    }
}

} // verus!
