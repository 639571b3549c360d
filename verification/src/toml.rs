//! The document types of `toml_edit`, and what this library assumes of them.
//!
//! Nothing in this module is proved. Each function below calls into
//! `toml_edit` and does nothing else; its contract states what the call does,
//! in terms of a plain tree, [`Node`], that stands for an item.

use vstd::prelude::*;
use toml_edit::{DocumentMut, Entry, ImDocument, Item, Table, TomlError, Value};

verus! {

#[verifier::external_type_specification]
#[verifier::external_body]
pub struct ExDocumentMut(DocumentMut);

#[verifier::external_type_specification]
#[verifier::external_body]
pub struct ExTable(Table);

#[verifier::external_type_specification]
#[verifier::external_body]
pub struct ExItem(Item);

#[verifier::external_type_specification]
#[verifier::external_body]
pub struct ExTomlError(TomlError);

/// The kinds of value a key of a table can hold.
#[derive(Clone, Copy, Debug, PartialEq, Eq, Structural)]
pub enum ValueKind {
    String,
    Integer,
    Float,
    Boolean,
    Datetime,
    Array,
    InlineTable,
}

/// The kinds of item.
#[derive(Clone, Copy, Debug, PartialEq, Eq, Structural)]
pub enum ItemKind {
    /// No item.
    Empty,
    Value(ValueKind),
    Table,
    ArrayOfTables,
}

/// What an item holds: its kind, how it renders, and, for a table, its entries.
pub enum Node {
    /// No item; an entry that holds it counts as absent.
    Empty,
    Value { kind: ValueKind, text: Seq<char> },
    Table { entries: Map<Seq<char>, Node>, text: Seq<char> },
    ArrayOfTables { text: Seq<char> },
}

/// The entries of a table, by key.
pub type Entries = Map<Seq<char>, Node>;

impl Node {
    /// The kind of the item.
    pub open spec fn kind(self) -> ItemKind {
        match self {
            Node::Empty => ItemKind::Empty,
            Node::Value { kind, .. } => ItemKind::Value(kind),
            Node::Table { .. } => ItemKind::Table,
            Node::ArrayOfTables { .. } => ItemKind::ArrayOfTables,
        }
    }

    /// The serialized form of the item.
    pub open spec fn text(self) -> Seq<char> {
        match self {
            Node::Empty => Seq::empty(),
            Node::Value { text, .. } => text,
            Node::Table { text, .. } => text,
            Node::ArrayOfTables { text } => text,
        }
    }

    /// The entries of a table; of anything else, none.
    pub open spec fn entries(self) -> Entries {
        match self {
            Node::Table { entries, .. } => entries,
            _ => Map::empty(),
        }
    }
}

/// What `item` holds.
pub uninterp spec fn item_node(item: Item) -> Node;

/// What `table` holds, by key. A key that was given [`Item::None`] is in the
/// domain, with [`Node::Empty`].
pub uninterp spec fn table_entries(table: Table) -> Entries;

/// Whether the root of `doc` is a table. It is in every document that was
/// parsed or made empty, and stays so unless another item is put in its place
/// through `DocumentMut::as_item_mut`, which this library never does.
pub uninterp spec fn doc_rooted(doc: DocumentMut) -> bool;

/// What the root table of `doc` holds.
pub uninterp spec fn doc_entries(doc: DocumentMut) -> Entries;

/// The text that `doc` serializes to.
pub uninterp spec fn doc_text(doc: DocumentMut) -> Seq<char>;

/// The root of the document that `text` parses to, if it is a TOML document.
pub uninterp spec fn parsed_root(text: Seq<char>) -> Option<Node>;

/// How a TOML string with the content `s` renders.
pub uninterp spec fn string_text(s: Seq<char>) -> Seq<char>;

/// The decimal digit of value `d`.
pub open spec fn digit(d: int) -> char {
    if d == 0 {
        '0'
    } else if d == 1 {
        '1'
    } else if d == 2 {
        '2'
    } else if d == 3 {
        '3'
    } else if d == 4 {
        '4'
    } else if d == 5 {
        '5'
    } else if d == 6 {
        '6'
    } else if d == 7 {
        '7'
    } else if d == 8 {
        '8'
    } else {
        '9'
    }
}

/// The decimal digits of `n`, without leading zeros.
pub open spec fn digits(n: nat) -> Seq<char>
    decreases n,
{
    if n < 10 {
        seq![digit(n as int)]
    } else {
        digits(n / 10).push(digit((n % 10) as int))
    }
}

/// How a TOML integer of value `i` renders: in decimal digits, behind a minus
/// sign where it is negative.
pub open spec fn integer_text(i: int) -> Seq<char> {
    if i < 0 {
        seq!['-'] + digits((-i) as nat)
    } else {
        digits(i as nat)
    }
}

/// `DocumentMut::new`: a document whose root table has no entries, and which
/// serializes to nothing.
#[verifier::external_body]
pub(crate) fn new_document() -> (doc: DocumentMut)
    ensures
        doc_rooted(doc),
        doc_entries(doc) == Entries::empty(),
        doc_text(doc) == Seq::<char>::empty(),
{
    DocumentMut::new()
}

/// `DocumentMut::as_item`: the root item, table or not.
#[verifier::external_body]
pub(crate) fn doc_as_item(doc: &DocumentMut) -> (root: &Item)
    ensures
        item_node(*root) is Table <==> doc_rooted(*doc),
        doc_rooted(*doc) ==> item_node(*root).entries() == doc_entries(*doc),
{
    doc.as_item()
}

/// `DocumentMut::as_table`: the root table.
#[verifier::external_body]
pub(crate) fn doc_as_table(doc: &DocumentMut) -> (t: &Table)
    requires
        doc_rooted(*doc),
    ensures
        table_entries(*t) == doc_entries(*doc),
{
    doc.as_table()
}

/// `DocumentMut::as_table_mut`: the root table, for writing. What the caller
/// leaves in it is what the document then holds; a caller that leaves the
/// table as it was leaves the document as it was.
#[verifier::external_body]
pub(crate) fn doc_as_table_mut(doc: &mut DocumentMut) -> (t: &mut Table)
    requires
        doc_rooted(*old(doc)),
    ensures
        table_entries(*t) == doc_entries(*old(doc)),
        doc_rooted(*final(doc)),
        doc_entries(*final(doc)) == table_entries(*final(t)),
        *final(t) == *t ==> *final(doc) == *old(doc),
{
    doc.as_table_mut()
}

/// `Display` of a document: its serialized text.
#[verifier::external_body]
pub(crate) fn doc_to_string(doc: &DocumentMut) -> (s: String)
    requires
        doc_rooted(*doc),
    ensures
        s@ == doc_text(*doc),
{
    doc.to_string()
}

/// `Table::get`: the item at `key`, unless the key is absent or holds no item.
#[verifier::external_body]
pub(crate) fn table_get<'a>(t: &'a Table, key: &str) -> (r: Option<&'a Item>)
    ensures
        match r {
            Some(item) => {
                &&& table_entries(*t).contains_key(key@)
                &&& item_node(*item) == table_entries(*t)[key@]
                &&& item_node(*item) !is Empty
            },
            None => !table_entries(*t).contains_key(key@) || table_entries(*t)[key@] is Empty,
        },
{
    t.get(key)
}

/// `Table::get_mut`: as `Table::get`, for writing. What the caller leaves in
/// the item is what the table then holds at `key`; nothing else changes, and
/// nothing at all where the caller leaves the item as it was.
#[verifier::external_body]
pub(crate) fn table_get_mut<'a>(t: &'a mut Table, key: &str) -> (r: Option<&'a mut Item>)
    ensures
        match r {
            Some(item) => {
                &&& table_entries(*old(t)).contains_key(key@)
                &&& item_node(*item) == table_entries(*old(t))[key@]
                &&& item_node(*item) !is Empty
                &&& table_entries(*final(t)) == table_entries(*old(t)).insert(
                    key@,
                    item_node(*final(item)),
                )
                &&& *final(item) == *item ==> *final(t) == *old(t)
            },
            None => {
                &&& !table_entries(*old(t)).contains_key(key@)
                    || table_entries(*old(t))[key@] is Empty
                &&& *final(t) == *old(t)
            },
        },
{
    t.get_mut(key)
}

/// `Table::key`: whether the table stores `key` at all, be it with no item.
#[verifier::external_body]
pub(crate) fn table_has_key(t: &Table, key: &str) -> (r: bool)
    ensures
        r == table_entries(*t).contains_key(key@),
{
    t.key(key).is_some()
}

/// `Table::entry`, then `insert` on the entry, occupied or vacant: puts `item`
/// at `key` and hands back what was stored there.
#[verifier::external_body]
pub(crate) fn table_put(t: &mut Table, key: &str, item: Item) -> (r: Option<Item>)
    ensures
        table_entries(*final(t)) == table_entries(*old(t)).insert(key@, item_node(item)),
        match r {
            Some(prev) => {
                &&& table_entries(*old(t)).contains_key(key@)
                &&& item_node(prev) == table_entries(*old(t))[key@]
            },
            None => !table_entries(*old(t)).contains_key(key@),
        },
{
    match t.entry(key) {
        Entry::Occupied(mut occupied) => Some(occupied.insert(item)),
        Entry::Vacant(vacant) => {
            vacant.insert(item);
            None
        },
    }
}

/// `Table::remove`: takes `key` out and hands back what was stored there;
/// where nothing was stored, the table stays as it was.
#[verifier::external_body]
pub(crate) fn table_remove(t: &mut Table, key: &str) -> (r: Option<Item>)
    ensures
        table_entries(*final(t)) == table_entries(*old(t)).remove(key@),
        r is None ==> *final(t) == *old(t),
        match r {
            Some(prev) => {
                &&& table_entries(*old(t)).contains_key(key@)
                &&& item_node(prev) == table_entries(*old(t))[key@]
            },
            None => !table_entries(*old(t)).contains_key(key@),
        },
{
    t.remove(key)
}

/// `Item::as_table`: the table inside the item, if it is one.
#[verifier::external_body]
pub(crate) fn item_as_table(item: &Item) -> (r: Option<&Table>)
    ensures
        match r {
            Some(t) => item_node(*item) is Table && table_entries(*t) == item_node(*item).entries(),
            None => item_node(*item) !is Table,
        },
{
    item.as_table()
}

/// `Item::as_table_mut`: as `Item::as_table`, for writing. The item stays a
/// table, with the entries the caller leaves; how it then renders is open,
/// but where the caller leaves the table as it was, so is the item.
#[verifier::external_body]
pub(crate) fn item_as_table_mut(item: &mut Item) -> (r: Option<&mut Table>)
    ensures
        match r {
            Some(t) => {
                &&& item_node(*old(item)) is Table
                &&& table_entries(*t) == item_node(*old(item)).entries()
                &&& item_node(*final(item)) is Table
                &&& item_node(*final(item)).entries() == table_entries(*final(t))
                &&& *final(t) == *t ==> *final(item) == *old(item)
            },
            None => item_node(*old(item)) !is Table && *final(item) == *old(item),
        },
{
    item.as_table_mut()
}

/// The variant of the item, and of the value inside it.
#[verifier::external_body]
pub(crate) fn item_kind(item: &Item) -> (kind: ItemKind)
    ensures
        kind == item_node(*item).kind(),
{
    match item {
        Item::None => ItemKind::Empty,
        Item::Value(Value::String(_)) => ItemKind::Value(ValueKind::String),
        Item::Value(Value::Integer(_)) => ItemKind::Value(ValueKind::Integer),
        Item::Value(Value::Float(_)) => ItemKind::Value(ValueKind::Float),
        Item::Value(Value::Boolean(_)) => ItemKind::Value(ValueKind::Boolean),
        Item::Value(Value::Datetime(_)) => ItemKind::Value(ValueKind::Datetime),
        Item::Value(Value::Array(_)) => ItemKind::Value(ValueKind::Array),
        Item::Value(Value::InlineTable(_)) => ItemKind::Value(ValueKind::InlineTable),
        Item::Table(_) => ItemKind::Table,
        Item::ArrayOfTables(_) => ItemKind::ArrayOfTables,
    }
}

/// `Display` of an item: its serialized form.
#[verifier::external_body]
pub(crate) fn item_to_string(item: &Item) -> (s: String)
    ensures
        s@ == item_node(*item).text(),
{
    item.to_string()
}

/// `Clone` of an item: a copy that holds the same.
#[verifier::external_body]
pub(crate) fn item_clone(item: &Item) -> (copy: Item)
    ensures
        item_node(copy) == item_node(*item),
{
    item.clone()
}

/// `Item::None`.
#[verifier::external_body]
pub(crate) fn no_item() -> (item: Item)
    ensures
        item_node(item) is Empty,
{
    Item::None
}

/// `toml_edit::table`: a table without entries.
#[verifier::external_body]
pub(crate) fn new_table() -> (item: Item)
    ensures
        item_node(item) is Table,
        item_node(item).entries() == Entries::empty(),
{
    toml_edit::table()
}

/// `toml_edit::value` of a string.
#[verifier::external_body]
pub(crate) fn string_value(s: &str) -> (item: Item)
    ensures
        item_node(item) == (Node::Value { kind: ValueKind::String, text: string_text(s@) }),
{
    toml_edit::value(s)
}

/// `toml_edit::value` of an integer, which renders in decimal.
#[verifier::external_body]
pub(crate) fn integer_value(i: i64) -> (item: Item)
    ensures
        item_node(item) == (Node::Value { kind: ValueKind::Integer, text: integer_text(i as int) }),
{
    toml_edit::value(i)
}

/// `ImDocument::parse`, then `ImDocument::into_item`: the root of the document
/// that `text` holds, which is a table.
#[verifier::external_body]
pub(crate) fn parse_root(text: &str) -> (r: Result<Item, TomlError>)
    ensures
        match r {
            Ok(root) => parsed_root(text@) == Some(item_node(root)) && item_node(root) is Table,
            Err(_) => parsed_root(text@) is None,
        },
{
    match ImDocument::parse(text) {
        Ok(doc) => Ok(doc.into_item()),
        Err(e) => Err(e),
    }
}

} // verus!
