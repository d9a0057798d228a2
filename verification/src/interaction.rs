//! A command interaction as the worker receives it, and the lookups the commands
//! make in it.

use vstd::prelude::*;

use crate::text::str_eq;

verus! {

/// A command interaction: its response token, the channel it was invoked in, and the
/// command data.
pub struct Interaction {
    pub token: String,
    pub channel_id: Option<String>,
    pub data: Option<InteractionData>,
}

/// The invoked command: its name, options, and for the context menu the target message.
pub struct InteractionData {
    pub name: Option<String>,
    pub options: Vec<CommandOption>,
    pub target_id: Option<String>,
    pub resolved: Option<ResolvedData>,
}

/// The JSON value given for a command option.
pub enum OptionValue {
    /// A string value.
    Text(String),
    /// A value of any other JSON type.
    Other,
}

/// One option of a slash command.
pub struct CommandOption {
    pub name: String,
    pub value: Option<OptionValue>,
}

/// The objects Discord resolved for an interaction: the target message of a
/// context-menu command, keyed by message id. No id occurs twice.
pub struct ResolvedData {
    pub messages: Vec<(String, ResolvedMessage)>,
}

/// A message resolved by Discord.
pub struct ResolvedMessage {
    pub id: String,
    pub content: String,
}

/// No message id occurs twice among the entries.
pub open spec fn ids_unique(entries: Seq<(String, ResolvedMessage)>) -> bool {
    forall|i: int, j: int|
        0 <= i < j < entries.len() ==> #[trigger] entries[i].0@ != #[trigger] entries[j].0@
}

impl ResolvedData {
    /// No message id occurs twice.
    pub open spec fn keys_unique(&self) -> bool {
        ids_unique(self.messages@)
    }
}

/// The string value of the first option with the given name; `None` when there is no
/// such option or its value is not a string.
pub open spec fn option_text(options: Seq<CommandOption>, name: Seq<char>) -> Option<Seq<char>>
    decreases options.len(),
{
    if options.len() == 0 {
        None
    } else if options[0].name@ == name {
        match options[0].value {
            Some(OptionValue::Text(s)) => Some(s@),
            _ => None,
        }
    } else {
        option_text(options.drop_first(), name)
    }
}

/// The string value of the first option named `name`.
pub fn find_option_text(options: &Vec<CommandOption>, name: &str) -> (r: Option<String>)
    ensures
        match (r, option_text(options@, name@)) {
            (Some(a), Some(b)) => a@ == b,
            (None, None) => true,
            _ => false,
        },
{
    let mut i: usize = 0;
    assert(options@.skip(0) =~= options@);
    while i < options.len()
        invariant
            i <= options.len(),
            option_text(options@, name@) == option_text(options@.skip(i as int), name@),
        decreases options.len() - i,
    {
        proof {
            assert(options@.skip(i as int)[0] == options@[i as int]);
            assert(options@.skip(i as int).drop_first() =~= options@.skip(i + 1));
        }
        let o = &options[i];
        if str_eq(o.name.as_str(), name) {
            return match &o.value {
                Some(OptionValue::Text(s)) => Some(s.clone()),
                _ => None,
            };
        }
        i = i + 1;
    }
    assert(options@.skip(i as int) =~= Seq::<CommandOption>::empty());
    None
}

/// The content of the resolved message with the given id.
pub open spec fn resolved_content(entries: Seq<(String, ResolvedMessage)>, id: Seq<char>) -> Option<
    Seq<char>,
>
    decreases entries.len(),
{
    if entries.len() == 0 {
        None
    } else if entries[0].0@ == id {
        Some(entries[0].1.content@)
    } else {
        resolved_content(entries.drop_first(), id)
    }
}

/// Looking up an id that occurs among the entries gives that entry's content.
proof fn lemma_resolved_content_at(entries: Seq<(String, ResolvedMessage)>, k: int)
    requires
        ids_unique(entries),
        0 <= k < entries.len(),
    ensures
        resolved_content(entries, entries[k].0@) == Some(entries[k].1.content@),
    decreases entries.len(),
{
    if k > 0 {
        let rest = entries.drop_first();
        assert(entries[0].0@ != entries[k].0@);
        assert(rest[k - 1] == entries[k]);
        assert forall|i: int, j: int| 0 <= i < j < rest.len() implies #[trigger] rest[i].0@
            != #[trigger] rest[j].0@ by {
            assert(rest[i] == entries[i + 1]);
            assert(rest[j] == entries[j + 1]);
        }
        lemma_resolved_content_at(rest, k - 1);
    }
}

/// Looking up an id that no entry carries gives nothing.
proof fn lemma_resolved_content_absent(entries: Seq<(String, ResolvedMessage)>, id: Seq<char>)
    requires
        forall|k: int| 0 <= k < entries.len() ==> #[trigger] entries[k].0@ != id,
    ensures
        resolved_content(entries, id) is None,
    decreases entries.len(),
{
    if entries.len() > 0 {
        let rest = entries.drop_first();
        assert(entries[0].0@ != id);
        assert forall|k: int| 0 <= k < rest.len() implies #[trigger] rest[k].0@ != id by {
            assert(rest[k] == entries[k + 1]);
        }
        lemma_resolved_content_absent(rest, id);
    }
}

/// The resolved messages behave as a map keyed by message id: where no id occurs twice,
/// looking up an entry's id gives that entry's content wherever it stands, and an id
/// that no entry carries gives nothing.
pub proof fn law_resolved_is_map(d: ResolvedData, id: Seq<char>)
    requires
        d.keys_unique(),
    ensures
        forall|k: int|
            0 <= k < d.messages.len() ==> resolved_content(d.messages@, #[trigger] d.messages@[k].0@)
                == Some(d.messages@[k].1.content@),
        (forall|k: int| 0 <= k < d.messages.len() ==> #[trigger] d.messages@[k].0@ != id)
            ==> resolved_content(d.messages@, id) is None,
{
    assert forall|k: int| 0 <= k < d.messages.len() implies resolved_content(
        d.messages@,
        #[trigger] d.messages@[k].0@,
    ) == Some(d.messages@[k].1.content@) by {
        lemma_resolved_content_at(d.messages@, k);
    }
    if forall|k: int| 0 <= k < d.messages.len() ==> #[trigger] d.messages@[k].0@ != id {
        lemma_resolved_content_absent(d.messages@, id);
    }
}

/// The content of the resolved message with the given id.
pub fn find_resolved_content(resolved: &ResolvedData, id: &str) -> (r: Option<String>)
    ensures
        match (r, resolved_content(resolved.messages@, id@)) {
            (Some(a), Some(b)) => a@ == b,
            (None, None) => true,
            _ => false,
        },
{
    let entries = &resolved.messages;
    let mut i: usize = 0;
    assert(entries@.skip(0) =~= entries@);
    while i < entries.len()
        invariant
            entries == &resolved.messages,
            i <= entries.len(),
            resolved_content(entries@, id@) == resolved_content(entries@.skip(i as int), id@),
        decreases entries.len() - i,
    {
        proof {
            assert(entries@.skip(i as int)[0] == entries@[i as int]);
            assert(entries@.skip(i as int).drop_first() =~= entries@.skip(i + 1));
        }
        if str_eq(entries[i].0.as_str(), id) {
            return Some(entries[i].1.content.clone());
        }
        i = i + 1;
    }
    assert(entries@.skip(i as int) =~= Seq::<(String, ResolvedMessage)>::empty());
    None
}

} // verus!
