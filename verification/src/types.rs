//! The declared type of a value, and what it takes for an item to match it.

use vstd::prelude::*;
use vstd::string::*;
use toml_edit::Item;
use crate::toml::{item_kind, item_node, ItemKind, Node, ValueKind};

verus! {

/// The value types a request can declare.
#[derive(Clone, Copy, Debug, PartialEq, Eq, Structural)]
pub enum Types {
    /// A TOML string; the default.
    String,
    /// A TOML boolean.
    Bool,
    /// A TOML float.
    Float,
    /// A TOML integer.
    Integer,
    /// A TOML inline table.
    Object,
    /// A TOML array, to append to.
    Append,
    /// A table, taken from another document.
    Import,
}

impl Types {
    /// The kind of item that has this type.
    pub open spec fn kind(self) -> ItemKind {
        match self {
            Types::String => ItemKind::Value(ValueKind::String),
            Types::Bool => ItemKind::Value(ValueKind::Boolean),
            Types::Float => ItemKind::Value(ValueKind::Float),
            Types::Integer => ItemKind::Value(ValueKind::Integer),
            Types::Object => ItemKind::Value(ValueKind::InlineTable),
            Types::Append => ItemKind::Value(ValueKind::Array),
            Types::Import => ItemKind::Table,
        }
    }

    /// Whether an item that holds `node` has this type.
    pub open spec fn matches(self, node: Node) -> bool {
        node.kind() == self.kind()
    }

    /// The token that names this type on a command line and in the journal.
    pub open spec fn token(self) -> Seq<char> {
        match self {
            Types::String => "str"@,
            Types::Bool => "bool"@,
            Types::Float => "float"@,
            Types::Integer => "int"@,
            Types::Object => "obj"@,
            Types::Append => "append"@,
            Types::Import => "import"@,
        }
    }

    /// Tells whether the kind of an item is the one this type asks for.
    pub fn is_kind(&self, kind: ItemKind) -> (r: bool)
        ensures
            r == (kind == self.kind()),
    {
        match self {
            Types::String => kind == ItemKind::Value(ValueKind::String),
            Types::Bool => kind == ItemKind::Value(ValueKind::Boolean),
            Types::Float => kind == ItemKind::Value(ValueKind::Float),
            Types::Integer => kind == ItemKind::Value(ValueKind::Integer),
            Types::Object => kind == ItemKind::Value(ValueKind::InlineTable),
            Types::Append => kind == ItemKind::Value(ValueKind::Array),
            Types::Import => kind == ItemKind::Table,
        }
    }

    /// Returns true if the item matches this type.
    pub fn is_type(&self, value: &Item) -> (r: bool)
        ensures
            r == self.matches(item_node(*value)),
    {
        self.is_kind(item_kind(value))
    }

    /// The token of this type: `str`, `bool`, `float`, `int`, `obj`, `append`
    /// or `import`.
    pub fn to_string(&self) -> (s: String)
        ensures
            s@ == self.token(),
    {
        match self {
            Types::String => String::from_str("str"),
            Types::Bool => String::from_str("bool"),
            Types::Float => String::from_str("float"),
            Types::Integer => String::from_str("int"),
            Types::Object => String::from_str("obj"),
            Types::Append => String::from_str("append"),
            Types::Import => String::from_str("import"),
        }
    }
}

impl Default for Types {
    fn default() -> (r: Self)
        ensures
            r == Types::String,
    {
        Types::String
    }
}

} // verus!
