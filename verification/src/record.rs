//! Journal records: how a request and an action are written down.

use vstd::prelude::*;
use vstd::string::*;
use crate::args::{Action, Request, TableAction, TableArgs};
use crate::toml::item_to_string;
use crate::types::Types;

verus! {

impl Request {
    /// The flags of the record: `--modify ` and `--remove `, each where set.
    pub open spec fn flags_text(self) -> Seq<char> {
        (if self.modify {
            "--modify "@
        } else {
            Seq::empty()
        }) + (if self.remove {
            "--remove "@
        } else {
            Seq::empty()
        })
    }

    /// The table of the record: `-t '<table>' `.
    pub open spec fn table_text(self) -> Seq<char> {
        "-t '"@ + self.table + "' "@
    }

    /// The types of the record: `-X <type> `, then `-Y <type> ` where there is
    /// a second type.
    pub open spec fn types_text(self) -> Seq<char> {
        "-X "@ + self.value_type.token() + " "@ + (match self.extended_value_type {
            Some(second) => "-Y "@ + second.token() + " "@,
            None => Seq::empty(),
        })
    }

    /// The key of the record: `'<key>'`.
    pub open spec fn key_text(self) -> Seq<char> {
        "'"@ + self.key + "'"@
    }

    /// The value of the record: ` -- '<path>'` for an import with its path,
    /// else ` -- <value>` where there is a value, else nothing.
    pub open spec fn value_text(self) -> Seq<char> {
        if self.import_path is Some && self.value_type is Import {
            " -- '"@ + self.import_path->0 + "'"@
        } else if self.value is Some {
            " -- "@ + self.value->0.text()
        } else {
            Seq::empty()
        }
    }

    /// The journal record of the request:
    /// `[--modify ][--remove ]-t '<table>' -X <type> [-Y <type> ]'<key>'[ -- <value>]`.
    pub open spec fn text(self) -> Seq<char> {
        self.flags_text() + self.table_text() + self.types_text() + self.key_text()
            + self.value_text()
    }
}

impl Action {
    /// The journal record of the action: its name and its request, for the
    /// actions that have one; nothing for the others.
    pub open spec fn text(self) -> Seq<char> {
        match self {
            Action::Insert(req) => "insert "@ + req.text(),
            Action::Replace(req) => "replace "@ + req.text(),
            Action::Remove(req) => "remove "@ + req.text(),
            Action::View(req) => "view "@ + req.text(),
            Action::Exists(req) => "exists "@ + req.text(),
            _ => Seq::empty(),
        }
    }
}

impl TableArgs {
    /// The flags of the record.
    fn flags_string(&self) -> (s: String)
        ensures
            s@ == self@.flags_text(),
    {
        let mut s = String::new();
        if self.modify() {
            s.append("--modify ");
        }
        if self.remove() {
            s.append("--remove ");
        }
        s
    }

    /// The table of the record.
    fn table_string(&self) -> (s: String)
        ensures
            s@ == self@.table_text(),
    {
        let mut s = String::from_str("-t '");
        s.append(self.table());
        s.append("' ");
        s
    }

    /// The types of the record.
    fn types_string(&self) -> (s: String)
        ensures
            s@ == self@.types_text(),
    {
        let mut s = String::from_str("-X ");
        s.append(self.value_type().to_string().as_str());
        s.append(" ");
        match self.extended_value_type() {
            Some(second) => {
                let mut y = String::from_str("-Y ");
                y.append(second.to_string().as_str());
                y.append(" ");
                s.append(y.as_str());
            },
            None => {},
        }
        s
    }

    /// The key of the record.
    fn key_string(&self) -> (s: String)
        ensures
            s@ == self@.key_text(),
    {
        let mut s = String::from_str("'");
        s.append(self.key());
        s.append("'");
        s
    }

    /// The value of the record.
    fn value_string(&self) -> (s: String)
        ensures
            s@ == self@.value_text(),
    {
        let imported = match self.value_type() {
            Types::Import => self.import_path().is_some(),
            _ => false,
        };
        if imported {
            match self.import_path() {
                Some(path) => {
                    let mut s = String::from_str(" -- '");
                    s.append(path);
                    s.append("'");
                    s
                },
                None => String::new(),
            }
        } else {
            match self.value() {
                Some(item) => String::from_str(" -- ").concat(item_to_string(item).as_str()),
                None => String::new(),
            }
        }
    }

    /// The journal record of the request.
    pub fn to_string(&self) -> (s: String)
        ensures
            s@ == self@.text(),
    {
        let mut s = self.flags_string();
        s.append(self.table_string().as_str());
        s.append(self.types_string().as_str());
        s.append(self.key_string().as_str());
        s.append(self.value_string().as_str());
        s
    }
}

impl TableAction {
    /// The journal record of the action.
    pub fn to_string(&self) -> (s: String)
        ensures
            s@ == self@.text(),
    {
        match self {
            TableAction::Insert(args) => String::from_str("insert ").concat(args.to_string().as_str()),
            TableAction::Replace(args) => String::from_str("replace ").concat(
                args.to_string().as_str(),
            ),
            TableAction::Remove(args) => String::from_str("remove ").concat(args.to_string().as_str()),
            TableAction::View(args) => String::from_str("view ").concat(args.to_string().as_str()),
            TableAction::Exists(args) => String::from_str("exists ").concat(args.to_string().as_str()),
            _ => String::new(),
        }
    }
}

} // verus!
