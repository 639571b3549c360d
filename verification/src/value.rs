//! The values that a request can be given.

use vstd::prelude::*;
use toml_edit::Item;
use crate::args::{Request, TableArgs};
use crate::toml::{
    integer_text, integer_value, item_clone, item_kind, item_node, no_item, parse_root,
    parsed_root, string_text, string_value, ItemKind, Node, ValueKind,
};
use crate::types::Types;

verus! {

/// A value that can be given to a request: it knows its type and its item.
pub trait KeyValueType {
    /// What the item of the value holds.
    spec fn item(&self) -> Node;

    /// The type of the value.
    spec fn ty(&self) -> Types;

    /// The path that the value was imported from, if it was.
    spec fn origin(&self) -> Option<Seq<char>>;

    /// Gives the request this value and its type, and the path where the value
    /// was imported.
    fn configure_args(&self, args: &mut TableArgs)
        ensures
            final(args)@ == (Request {
                value: Some(self.item()),
                value_type: self.ty(),
                import_path: match self.origin() {
                    Some(path) => Some(path),
                    None => old(args)@.import_path,
                },
                ..old(args)@
            }),
    ;

    /// The type of the value.
    fn db_type(&self) -> (ty: Types)
        ensures
            ty == self.ty(),
    ;

    /// The value as an item.
    fn to_toml_item(&self) -> (item: Item)
        ensures
            item_node(item) == self.item(),
    ;
}

/// Whether some type asks for items of the given kind. None does for a
/// date, for an array of tables, or for no item at all.
pub open spec fn typed(kind: ItemKind) -> bool {
    match kind {
        ItemKind::Empty => false,
        ItemKind::Value(ValueKind::Datetime) => false,
        ItemKind::ArrayOfTables => false,
        _ => true,
    }
}

/// The type that an item of the given kind is written with: the type that
/// asks for the kind, where there is one. Of the kinds that no type asks for,
/// a date and no item count as a string, an array of tables as an object.
pub open spec fn type_of(kind: ItemKind) -> Types {
    match kind {
        ItemKind::Empty => Types::String,
        ItemKind::Value(ValueKind::String) => Types::String,
        ItemKind::Value(ValueKind::Integer) => Types::Integer,
        ItemKind::Value(ValueKind::Float) => Types::Float,
        ItemKind::Value(ValueKind::Boolean) => Types::Bool,
        ItemKind::Value(ValueKind::Datetime) => Types::String,
        ItemKind::Value(ValueKind::Array) => Types::Append,
        ItemKind::Value(ValueKind::InlineTable) => Types::Object,
        ItemKind::Table => Types::Import,
        ItemKind::ArrayOfTables => Types::Object,
    }
}

/// The type that an item is written with is the type of the item, for every
/// kind that has a type; and every type is the type of the kind it asks for.
pub proof fn type_of_agrees(kind: ItemKind, ty: Types)
    ensures
        type_of(kind).kind() == kind <==> typed(kind),
        typed(ty.kind()),
        type_of(ty.kind()) == ty,
{
}

impl KeyValueType for Item {
    open spec fn item(&self) -> Node {
        item_node(*self)
    }

    open spec fn ty(&self) -> Types {
        type_of(item_node(*self).kind())
    }

    open spec fn origin(&self) -> Option<Seq<char>> {
        None
    }

    fn configure_args(&self, args: &mut TableArgs) {
        args.set_value(self.to_toml_item());
        args.set_value_ty(self.db_type());
    }

    fn db_type(&self) -> (ty: Types)
        ensures
            ty.matches(item_node(*self)) <==> typed(item_node(*self).kind()),
    {
        match item_kind(self) {
            ItemKind::Empty => Types::String,
            ItemKind::Value(ValueKind::String) => Types::String,
            ItemKind::Value(ValueKind::Integer) => Types::Integer,
            ItemKind::Value(ValueKind::Float) => Types::Float,
            ItemKind::Value(ValueKind::Boolean) => Types::Bool,
            ItemKind::Value(ValueKind::Datetime) => Types::String,
            ItemKind::Value(ValueKind::Array) => Types::Append,
            ItemKind::Value(ValueKind::InlineTable) => Types::Object,
            ItemKind::Table => Types::Import,
            ItemKind::ArrayOfTables => Types::Object,
        }
    }

    fn to_toml_item(&self) -> (item: Item) {
        item_clone(self)
    }
}

impl KeyValueType for String {
    open spec fn item(&self) -> Node {
        Node::Value { kind: ValueKind::String, text: string_text(self@) }
    }

    open spec fn ty(&self) -> Types {
        Types::String
    }

    open spec fn origin(&self) -> Option<Seq<char>> {
        None
    }

    fn configure_args(&self, args: &mut TableArgs) {
        args.set_value(self.to_toml_item());
        args.set_value_ty(self.db_type());
    }

    fn db_type(&self) -> (ty: Types) {
        Types::String
    }

    fn to_toml_item(&self) -> (item: Item) {
        string_value(self.as_str())
    }
}

impl<'a> KeyValueType for &'a str {
    open spec fn item(&self) -> Node {
        Node::Value { kind: ValueKind::String, text: string_text(self@) }
    }

    open spec fn ty(&self) -> Types {
        Types::String
    }

    open spec fn origin(&self) -> Option<Seq<char>> {
        None
    }

    fn configure_args(&self, args: &mut TableArgs) {
        args.set_value(self.to_toml_item());
        args.set_value_ty(self.db_type());
    }

    fn db_type(&self) -> (ty: Types) {
        Types::String
    }

    fn to_toml_item(&self) -> (item: Item) {
        string_value(*self)
    }
}

impl KeyValueType for usize {
    open spec fn item(&self) -> Node {
        Node::Value { kind: ValueKind::Integer, text: integer_text((*self as i64) as int) }
    }

    open spec fn ty(&self) -> Types {
        Types::Integer
    }

    open spec fn origin(&self) -> Option<Seq<char>> {
        None
    }

    fn configure_args(&self, args: &mut TableArgs) {
        args.set_value(self.to_toml_item());
        args.set_value_ty(self.db_type());
    }

    fn db_type(&self) -> (ty: Types) {
        Types::Integer
    }

    fn to_toml_item(&self) -> (item: Item) {
        integer_value(#[verifier::truncate] (*self as i64))
    }
}

impl KeyValueType for u64 {
    open spec fn item(&self) -> Node {
        Node::Value { kind: ValueKind::Integer, text: integer_text((*self as i64) as int) }
    }

    open spec fn ty(&self) -> Types {
        Types::Integer
    }

    open spec fn origin(&self) -> Option<Seq<char>> {
        None
    }

    fn configure_args(&self, args: &mut TableArgs) {
        args.set_value(self.to_toml_item());
        args.set_value_ty(self.db_type());
    }

    fn db_type(&self) -> (ty: Types) {
        Types::Integer
    }

    fn to_toml_item(&self) -> (item: Item) {
        integer_value(#[verifier::truncate] (*self as i64))
    }
}

impl KeyValueType for u32 {
    open spec fn item(&self) -> Node {
        Node::Value { kind: ValueKind::Integer, text: integer_text(*self as int) }
    }

    open spec fn ty(&self) -> Types {
        Types::Integer
    }

    open spec fn origin(&self) -> Option<Seq<char>> {
        None
    }

    fn configure_args(&self, args: &mut TableArgs) {
        args.set_value(self.to_toml_item());
        args.set_value_ty(self.db_type());
    }

    fn db_type(&self) -> (ty: Types) {
        Types::Integer
    }

    fn to_toml_item(&self) -> (item: Item) {
        integer_value(*self as i64)
    }
}

/// A document to import: the path it was read from, and its text where the
/// file could be read.
pub struct Import {
    pub path: String,
    pub contents: Option<String>,
}

impl KeyValueType for Import {
    /// The root table of the document; nothing where the file could not be
    /// read or does not hold a document.
    open spec fn item(&self) -> Node {
        match self.contents {
            Some(text) => match parsed_root(text@) {
                Some(root) => root,
                None => Node::Empty,
            },
            None => Node::Empty,
        }
    }

    open spec fn ty(&self) -> Types {
        Types::Import
    }

    open spec fn origin(&self) -> Option<Seq<char>> {
        Some(self.path@)
    }

    fn configure_args(&self, args: &mut TableArgs) {
        args.set_value(self.to_toml_item());
        args.set_value_ty(self.db_type());
        args.set_import_path(self.path.as_str());
    }

    fn db_type(&self) -> (ty: Types) {
        Types::Import
    }

    fn to_toml_item(&self) -> (item: Item) {
        match &self.contents {
            Some(text) => match parse_root(text.as_str()) {
                Ok(root) => root,
                Err(_) => no_item(),
            },
            None => no_item(),
        }
    }
}

impl TableArgs {
    /// Sets the key/value/value_ty settings
    pub fn set_kvp<KVP: KeyValueType>(&mut self, key: &str, value: KVP)
        ensures
            final(self)@ == (Request {
                key: key@,
                value: Some(value.item()),
                value_type: value.ty(),
                import_path: match value.origin() {
                    Some(path) => Some(path),
                    None => old(self)@.import_path,
                },
                ..old(self)@
            }),
    {
        self.set_key(key);
        value.configure_args(self);
    }
}

} // verus!
