//! Batches of writes for the key-value store, and the pipeline of primitive
//! commands that a batch expands into.
//!
//! A pipeline goes to the server in one round trip. The server runs its
//! commands in the order received, so the order built here is the order of
//! execution. Nothing makes a pipeline atomic: if one command fails on the
//! server, those before it have taken effect.

use vstd::prelude::*;
use crate::command::{clone_fields, Command, CommandView};

verus! {

/// One logical write of a batch.
#[derive(Debug, PartialEq, Eq)]
pub enum BatchEntry {
    /// Store a value under a key, to expire after some seconds.
    SetEx { key: String, value: String, seconds: usize },
    /// Store a map of fields under a key, to expire after some seconds.
    HmSetExpire { key: String, fields: Vec<(String, String)>, seconds: usize },
    /// Store a value under a key unless the key is there already.
    SetNx { key: String, value: String },
    /// Store a value under a key unless the key is there already, and set
    /// the key to expire after some seconds.
    SetNxExpire { key: String, value: String, seconds: usize },
}

/// The mathematical value of a [`BatchEntry`].
pub enum BatchEntryView {
    SetEx { key: Seq<char>, value: Seq<char>, seconds: nat },
    HmSetExpire { key: Seq<char>, fields: Seq<(Seq<char>, Seq<char>)>, seconds: nat },
    SetNx { key: Seq<char>, value: Seq<char> },
    SetNxExpire { key: Seq<char>, value: Seq<char>, seconds: nat },
}

impl View for BatchEntry {
    type V = BatchEntryView;

    open spec fn view(&self) -> BatchEntryView {
        match self {
            BatchEntry::SetEx { key, value, seconds } => BatchEntryView::SetEx {
                key: key@,
                value: value@,
                seconds: *seconds as nat,
            },
            BatchEntry::HmSetExpire { key, fields, seconds } => BatchEntryView::HmSetExpire {
                key: key@,
                fields: fields.deep_view(),
                seconds: *seconds as nat,
            },
            BatchEntry::SetNx { key, value } => BatchEntryView::SetNx { key: key@, value: value@ },
            BatchEntry::SetNxExpire { key, value, seconds } => BatchEntryView::SetNxExpire {
                key: key@,
                value: value@,
                seconds: *seconds as nat,
            },
        }
    }
}

impl BatchEntryView {
    /// The commands that one entry expands into, in the order in which they
    /// go on the wire.
    pub open spec fn expansion(self) -> Seq<CommandView> {
        match self {
            BatchEntryView::SetEx { key, value, seconds } => seq![
                CommandView::SetEx { key, seconds, value },
            ],
            BatchEntryView::HmSetExpire { key, fields, seconds } => seq![
                CommandView::HmSet { key, fields },
                CommandView::Expire { key, seconds },
            ],
            BatchEntryView::SetNx { key, value } => seq![CommandView::SetNx { key, value }],
            BatchEntryView::SetNxExpire { key, value, seconds } => seq![
                CommandView::SetNx { key, value },
                CommandView::Expire { key, seconds },
            ],
        }
    }
}

/// The commands that a batch expands into: the expansion of its first entry,
/// then that of its second, and so on.
pub open spec fn expansion_of(entries: Seq<BatchEntryView>) -> Seq<CommandView>
    decreases entries.len(),
{
    if entries.len() == 0 {
        Seq::empty()
    } else {
        expansion_of(entries.drop_last()) + entries.last().expansion()
    }
}

/// The values of the entries of a batch.
pub open spec fn entry_views(entries: Seq<BatchEntry>) -> Seq<BatchEntryView> {
    entries.map_values(|e: BatchEntry| e@)
}

/// The values of the commands of a pipeline.
pub open spec fn command_views(commands: Seq<Command>) -> Seq<CommandView> {
    commands.map_values(|c: Command| c@)
}

/// An ordered sequence of primitive commands, to be sent in one round trip.
#[derive(Debug, PartialEq, Eq)]
pub struct CommandPipeline {
    commands: Vec<Command>,
}

impl View for CommandPipeline {
    type V = Seq<CommandView>;

    closed spec fn view(&self) -> Seq<CommandView> {
        command_views(self.commands@)
    }
}

/// What is to be done with a pipeline.
#[derive(Debug, PartialEq, Eq)]
pub enum Dispatch {
    /// The pipeline is empty: the batch has succeeded with nothing sent.
    Nothing,
    /// Send the pipeline in one round trip.
    RoundTrip(CommandPipeline),
}

impl BatchEntry {
    /// Appends the commands of this entry to `commands`.
    fn expand_into(&self, commands: &mut Vec<Command>)
        ensures
            command_views(final(commands)@) == command_views(old(commands)@) + self@.expansion(),
    {
        match self {
            BatchEntry::SetEx { key, value, seconds } => {
                let store = Command::SetEx {
                    key: key.clone(),
                    seconds: *seconds,
                    value: value.clone(),
                };
                commands.push(store);
            },
            BatchEntry::HmSetExpire { key, fields, seconds } => {
                let store = Command::HmSet { key: key.clone(), fields: clone_fields(fields) };
                let expire = Command::Expire { key: key.clone(), seconds: *seconds };
                commands.push(store);
                commands.push(expire);
            },
            BatchEntry::SetNx { key, value } => {
                let store = Command::SetNx { key: key.clone(), value: value.clone() };
                commands.push(store);
            },
            BatchEntry::SetNxExpire { key, value, seconds } => {
                let store = Command::SetNx { key: key.clone(), value: value.clone() };
                let expire = Command::Expire { key: key.clone(), seconds: *seconds };
                commands.push(store);
                commands.push(expire);
            },
        }
    }
}

impl CommandPipeline {
    /// Builds the pipeline of a batch: each entry's commands, entry after
    /// entry in the order of the batch.
    pub fn build(entries: &Vec<BatchEntry>) -> (pipeline: CommandPipeline)
        ensures
            pipeline@ == expansion_of(entry_views(entries@)),
    {
        let mut commands: Vec<Command> = Vec::new();
        let mut i: usize = 0;
        while i < entries.len()
            invariant
                i <= entries.len(),
                command_views(commands@) == expansion_of(entry_views(entries@).take(i as int)),
            decreases entries.len() - i,
        {
            proof {
                let next = entry_views(entries@).take(i + 1);
                assert(next.drop_last() =~= entry_views(entries@).take(i as int));
            }
            entries[i].expand_into(&mut commands);
            i += 1;
        }
        assert(entry_views(entries@).take(i as int) =~= entry_views(entries@));
        CommandPipeline { commands }
    }

    /// The number of commands.
    pub fn len(&self) -> (n: usize)
        ensures
            n == self@.len(),
    {
        self.commands.len()
    }

    /// Whether the pipeline holds no command.
    pub fn is_empty(&self) -> (empty: bool)
        ensures
            empty == (self@.len() == 0),
    {
        self.commands.len() == 0
    }

    /// The command at position `i`, if there is one.
    pub fn command(&self, i: usize) -> (command: Option<&Command>)
        ensures
            match command {
                Some(c) => i < self@.len() && c@ == self@[i as int],
                None => i >= self@.len(),
            },
    {
        if i < self.commands.len() {
            Some(&self.commands[i])
        } else {
            None
        }
    }

    /// Decides how the pipeline is dispatched: an empty one needs no round
    /// trip, any other goes out whole.
    pub fn dispatch(self) -> (dispatch: Dispatch)
        ensures
            match dispatch {
                Dispatch::Nothing => self@.len() == 0,
                Dispatch::RoundTrip(pipeline) => self@.len() > 0 && pipeline == self,
            },
    {
        if self.commands.len() == 0 {
            Dispatch::Nothing
        } else {
            Dispatch::RoundTrip(self)
        }
    }
}

/// The expansion of two batches, one after the other, is the expansion of
/// the first followed by that of the second: the commands of an entry stand
/// together, and before those of every later entry.
pub proof fn law_expansion_keeps_the_order_of_entries(
    first: Seq<BatchEntryView>,
    second: Seq<BatchEntryView>,
)
    ensures
        expansion_of(first + second) == expansion_of(first) + expansion_of(second),
    decreases second.len(),
{
    if second.len() > 0 {
        law_expansion_keeps_the_order_of_entries(first, second.drop_last());
        assert((first + second).drop_last() =~= first + second.drop_last());
    }
}

/// The commands of entry `k` stand in the pipeline right after those of the
/// entries before it.
pub proof fn law_entry_commands_stand_at_their_place(entries: Seq<BatchEntryView>, k: int)
    requires
        0 <= k < entries.len(),
    ensures
        expansion_of(entries) == expansion_of(entries.take(k)) + entries[k].expansion()
            + expansion_of(entries.skip(k + 1)),
{
    let head = entries.take(k);
    let one = seq![entries[k]];
    let tail = entries.skip(k + 1);
    assert(entries =~= head + one + tail);
    law_expansion_keeps_the_order_of_entries(head + one, tail);
    law_expansion_keeps_the_order_of_entries(head, one);
    assert(expansion_of(one.drop_last()) =~= Seq::<CommandView>::empty());
}

/// An empty batch gives an empty pipeline.
pub proof fn law_empty_batch_gives_empty_pipeline()
    ensures
        expansion_of(Seq::empty()) == Seq::<CommandView>::empty(),
{
}

/// A batch of field maps with expiry expands into two commands per entry:
/// the command that stores the fields of entry `k` stands at position `2k`,
/// the command that sets its expiry at position `2k + 1`.
pub proof fn law_field_maps_expand_in_pairs(entries: Seq<BatchEntryView>)
    requires
        forall|k: int| 0 <= k < entries.len() ==> (#[trigger] entries[k]) is HmSetExpire,
    ensures
        expansion_of(entries).len() == 2 * entries.len(),
        forall|k: int|
            0 <= k < entries.len() ==> expansion_of(entries)[2 * k] == (CommandView::HmSet {
                key: (#[trigger] entries[k])->HmSetExpire_key,
                fields: entries[k]->HmSetExpire_fields,
            }) && expansion_of(entries)[2 * k + 1] == (CommandView::Expire {
                key: entries[k]->HmSetExpire_key,
                seconds: entries[k]->HmSetExpire_seconds,
            }),
    decreases entries.len(),
{
    if entries.len() > 0 {
        let front = entries.drop_last();
        law_field_maps_expand_in_pairs(front);
        assert forall|k: int| 0 <= k < entries.len() implies expansion_of(entries)[2 * k] == (
        CommandView::HmSet {
            key: (#[trigger] entries[k])->HmSetExpire_key,
            fields: entries[k]->HmSetExpire_fields,
        }) && expansion_of(entries)[2 * k + 1] == (CommandView::Expire {
            key: entries[k]->HmSetExpire_key,
            seconds: entries[k]->HmSetExpire_seconds,
        }) by {
            if k < front.len() {
                assert(front[k] == entries[k]);
            }
        }
    }
}

/// Every entry expands into one command or two, so a pipeline holds at least
/// as many commands as its batch has entries and at most twice as many.
pub proof fn law_one_or_two_commands_per_entry(entries: Seq<BatchEntryView>)
    ensures
        entries.len() <= expansion_of(entries).len() <= 2 * entries.len(),
    decreases entries.len(),
{
    if entries.len() > 0 {
        law_one_or_two_commands_per_entry(entries.drop_last());
    }
}

} // verus!
