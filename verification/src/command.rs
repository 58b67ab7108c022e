//! The primitive commands of the key-value store's wire vocabulary.

use vstd::prelude::*;
use vstd::string::StringExecFns;
use crate::decimal::{decimal_chars, signed_decimal_chars, signed_text, unsigned_text};

verus! {

/// One primitive command, as the server understands it.
#[derive(Debug, PartialEq, Eq)]
pub enum Command {
    /// `GET key`
    Get { key: String },
    /// `SETEX key seconds value`
    SetEx { key: String, seconds: usize, value: String },
    /// `SETNX key value`
    SetNx { key: String, value: String },
    /// `HMSET key field value ...`
    HmSet { key: String, fields: Vec<(String, String)> },
    /// `EXPIRE key seconds`
    Expire { key: String, seconds: usize },
    /// `AUTH password`
    Auth { password: String },
    /// `SELECT index`
    Select { index: i64 },
}

/// The mathematical value of a [`Command`].
pub enum CommandView {
    Get { key: Seq<char> },
    SetEx { key: Seq<char>, seconds: nat, value: Seq<char> },
    SetNx { key: Seq<char>, value: Seq<char> },
    HmSet { key: Seq<char>, fields: Seq<(Seq<char>, Seq<char>)> },
    Expire { key: Seq<char>, seconds: nat },
    Auth { password: Seq<char> },
    Select { index: int },
}

impl View for Command {
    type V = CommandView;

    open spec fn view(&self) -> CommandView {
        match self {
            Command::Get { key } => CommandView::Get { key: key@ },
            Command::SetEx { key, seconds, value } => CommandView::SetEx {
                key: key@,
                seconds: *seconds as nat,
                value: value@,
            },
            Command::SetNx { key, value } => CommandView::SetNx { key: key@, value: value@ },
            Command::HmSet { key, fields } => CommandView::HmSet {
                key: key@,
                fields: fields.deep_view(),
            },
            Command::Expire { key, seconds } => CommandView::Expire {
                key: key@,
                seconds: *seconds as nat,
            },
            Command::Auth { password } => CommandView::Auth { password: password@ },
            Command::Select { index } => CommandView::Select { index: *index as int },
        }
    }
}

/// The fields of a field map laid out as wire arguments: each field's name,
/// then its value, in the order of the map's entries.
pub open spec fn field_args(fields: Seq<(Seq<char>, Seq<char>)>) -> Seq<Seq<char>>
    decreases fields.len(),
{
    if fields.len() == 0 {
        Seq::empty()
    } else {
        field_args(fields.drop_last()).push(fields.last().0).push(fields.last().1)
    }
}

impl CommandView {
    /// The command's name.
    pub open spec fn name(self) -> Seq<char> {
        match self {
            CommandView::Get { .. } => "GET"@,
            CommandView::SetEx { .. } => "SETEX"@,
            CommandView::SetNx { .. } => "SETNX"@,
            CommandView::HmSet { .. } => "HMSET"@,
            CommandView::Expire { .. } => "EXPIRE"@,
            CommandView::Auth { .. } => "AUTH"@,
            CommandView::Select { .. } => "SELECT"@,
        }
    }

    /// What follows the name on the wire.
    pub open spec fn operands(self) -> Seq<Seq<char>> {
        match self {
            CommandView::Get { key } => seq![key],
            CommandView::SetEx { key, seconds, value } => seq![key, decimal_chars(seconds), value],
            CommandView::SetNx { key, value } => seq![key, value],
            CommandView::HmSet { key, fields } => seq![key] + field_args(fields),
            CommandView::Expire { key, seconds } => seq![key, decimal_chars(seconds)],
            CommandView::Auth { password } => seq![password],
            CommandView::Select { index } => seq![signed_decimal_chars(index)],
        }
    }

    /// The command as it goes on the wire: its name, then its operands.
    pub open spec fn wire(self) -> Seq<Seq<char>> {
        seq![self.name()] + self.operands()
    }
}

/// The texts that a vector of strings holds.
pub open spec fn texts(strings: Seq<String>) -> Seq<Seq<char>> {
    strings.map_values(|s: String| s@)
}

/// A copy of a field map.
pub fn clone_fields(fields: &Vec<(String, String)>) -> (copy: Vec<(String, String)>)
    ensures
        copy.deep_view() == fields.deep_view(),
{
    let mut copy: Vec<(String, String)> = Vec::new();
    let mut i: usize = 0;
    while i < fields.len()
        invariant
            i <= fields.len(),
            copy.len() == i,
            forall|k: int| 0 <= k < i ==> copy@[k].deep_view() == fields@[k].deep_view(),
        decreases fields.len() - i,
    {
        let name = fields[i].0.clone();
        let value = fields[i].1.clone();
        copy.push((name, value));
        i += 1;
    }
    copy
}

impl Command {
    /// The name of the command.
    pub fn name(&self) -> (name: &'static str)
        ensures
            name@ == self@.name(),
    {
        match self {
            Command::Get { .. } => "GET",
            Command::SetEx { .. } => "SETEX",
            Command::SetNx { .. } => "SETNX",
            Command::HmSet { .. } => "HMSET",
            Command::Expire { .. } => "EXPIRE",
            Command::Auth { .. } => "AUTH",
            Command::Select { .. } => "SELECT",
        }
    }

    /// The command as a list of wire arguments, the name first.
    pub fn wire_args(&self) -> (args: Vec<String>)
        ensures
            texts(args@) == self@.wire(),
    {
        let mut args: Vec<String> = Vec::new();
        args.push(String::from_str(self.name()));
        match self {
            Command::Get { key } => {
                args.push(key.clone());
            },
            Command::SetEx { key, seconds, value } => {
                args.push(key.clone());
                args.push(unsigned_text(*seconds as u64));
                args.push(value.clone());
            },
            Command::SetNx { key, value } => {
                args.push(key.clone());
                args.push(value.clone());
            },
            Command::HmSet { key, fields } => {
                args.push(key.clone());
                let ghost head = texts(args@);
                let mut i: usize = 0;
                while i < fields.len()
                    invariant
                        i <= fields.len(),
                        head == seq![self@.name(), key@],
                        texts(args@) == head + field_args(fields.deep_view().take(i as int)),
                    decreases fields.len() - i,
                {
                    let name = fields[i].0.clone();
                    let value = fields[i].1.clone();
                    proof {
                        let done = fields.deep_view().take(i as int);
                        let next = fields.deep_view().take(i + 1);
                        assert(next.drop_last() =~= done);
                        assert(texts(args@.push(name).push(value)) =~= texts(args@).push(name@).push(
                            value@,
                        ));
                    }
                    args.push(name);
                    args.push(value);
                    i += 1;
                }
                assert(fields.deep_view().take(i as int) =~= fields.deep_view());
            },
            Command::Expire { key, seconds } => {
                args.push(key.clone());
                args.push(unsigned_text(*seconds as u64));
            },
            Command::Auth { password } => {
                args.push(password.clone());
            },
            Command::Select { index } => {
                args.push(signed_text(*index));
            },
        }
        args
    }

    /// A copy of the command.
    pub fn duplicate(&self) -> (copy: Command)
        ensures
            copy@ == self@,
    {
        match self {
            Command::Get { key } => Command::Get { key: key.clone() },
            Command::SetEx { key, seconds, value } => Command::SetEx {
                key: key.clone(),
                seconds: *seconds,
                value: value.clone(),
            },
            Command::SetNx { key, value } => Command::SetNx {
                key: key.clone(),
                value: value.clone(),
            },
            Command::HmSet { key, fields } => Command::HmSet {
                key: key.clone(),
                fields: clone_fields(fields),
            },
            Command::Expire { key, seconds } => Command::Expire {
                key: key.clone(),
                seconds: *seconds,
            },
            Command::Auth { password } => Command::Auth { password: password.clone() },
            Command::Select { index } => Command::Select { index: *index },
        }
    }
}

} // verus!
