//! The slash commands `/setchannel`, `/opendm` and `/post`: each a machine
//! that ends with the text of the answer to the command.
use vstd::prelude::*;
use crate::decimal::{decimal, format_u64, parse_decimal, parse_u64};
use crate::index::{IndexPhase, index_accepts, index_next, index_step, update_index_message};
use crate::io::{Action, Answer, CommandOption, Event, GuildChannelRow, OptionText, Request, texts};
use crate::mesh::{DiscordToMesh, RadioRequest, opt_text};
use crate::text::{join3, join5, str_eq};

verus! {

// ---------------------------------------------------------------------
// Command options
// ---------------------------------------------------------------------

/// What a list of command options says.
pub open spec fn option_texts(v: Seq<CommandOption>) -> Seq<OptionText> {
    v.map_values(|o: CommandOption| o@)
}

/// The first option called `name`, if any.
pub open spec fn named_option(opts: Seq<OptionText>, name: Seq<char>) -> Option<OptionText>
    decreases opts.len(),
{
    if opts.len() == 0 {
        None
    } else if opts[0].name == name {
        Some(opts[0])
    } else {
        named_option(opts.drop_first(), name)
    }
}

/// The string value of an option, if there is an option and its value is a
/// string.
pub open spec fn option_value(o: Option<OptionText>) -> Option<Seq<char>> {
    match o {
        Some(x) => x.value,
        None => None,
    }
}

/// A text, or the empty text in its absence.
pub open spec fn or_empty(t: Option<Seq<char>>) -> Seq<char> {
    match t {
        Some(s) => s,
        None => Seq::empty(),
    }
}

/// The string value of the first option called `name`.
pub fn named_option_value(opts: &Vec<CommandOption>, name: &str) -> (r: Option<String>)
    ensures
        opt_text(r) == option_value(named_option(option_texts(opts@), name@)),
{
    let ghost all = option_texts(opts@);
    assert(all.skip(0) =~= all);
    let mut i: usize = 0;
    while i < opts.len()
        invariant
            i <= opts.len(),
            all == option_texts(opts@),
            named_option(all, name@) == named_option(all.skip(i as int), name@),
        decreases opts.len() - i,
    {
        proof {
            assert(all.skip(i as int).drop_first() =~= all.skip(i + 1));
            assert(all.skip(i as int)[0] == opts@[i as int]@);
        }
        if str_eq(opts[i].name.as_str(), name) {
            return match &opts[i].value {
                Some(s) => Some(s.clone()),
                None => None,
            };
        }
        i = i + 1;
    }
    assert(all.skip(opts.len() as int) =~= Seq::<OptionText>::empty());
    None
}

fn text_or_empty(t: Option<String>) -> (r: String)
    ensures
        r@ == or_empty(opt_text(t)),
{
    match t {
        Some(s) => s,
        None => String::new(),
    }
}

// ---------------------------------------------------------------------
// Answers to commands
// ---------------------------------------------------------------------

/// The answer to a command that the bot does not know.
pub open spec fn unknown_command_reply() -> Seq<char> {
    "not implemented :("@
}

pub open spec fn empty_message_reply() -> Seq<char> {
    "Cannot send an empty message."@
}

pub open spec fn queued_for_reply(destination: Seq<char>) -> Seq<char> {
    "Queued message for `"@ + destination + "`."@
}

pub open spec fn queued_broadcast_reply() -> Seq<char> {
    "Queued message for broadcast on primary channel."@
}

pub open spec fn no_destination_reply() -> Seq<char> {
    "Could not determine destination. Please provide a `destination`, use this command inside a DM thread, or use it in the primary mesh channel."@
}

pub open spec fn missing_node_reply() -> Seq<char> {
    "Please provide a valid node ID."@
}

pub open spec fn existing_thread_reply(node: Seq<char>, thread: Seq<char>) -> Seq<char> {
    "A thread for `"@ + node + "` already exists: <#"@ + thread + ">"@
}

pub open spec fn no_primary_reply() -> Seq<char> {
    "Please run `/setchannel` first to designate a primary channel."@
}

/// The name of the thread that talks to one node.
pub open spec fn dm_thread_name(node: Seq<char>) -> Seq<char> {
    "Mesh DM: "@ + node
}

pub open spec fn thread_opened_reply(node: Seq<char>, thread: Seq<char>) -> Seq<char> {
    "Opened a DM thread for `"@ + node + "`: <#"@ + thread + ">"@
}

pub open spec fn link_failed_reply() -> Seq<char> {
    "Created the thread, but failed to link it in the database."@
}

pub open spec fn thread_failed_reply() -> Seq<char> {
    "Failed to create thread. Please make sure I have permission to create public threads!"@
}

/// The first text of the pinned list of threads.
pub open spec fn index_placeholder() -> Seq<char> {
    "** :satellite: Meshtastic Active Threads**\n\n*Initializing...*"@
}

pub open spec fn channel_saved_reply(ok: bool) -> Seq<char> {
    if ok {
        "Okay! I'll use this channel for Mesh messages from now on."@
    } else {
        "Oops! I couldn't save your preferences for some reason."@
    }
}

fn channel_saved_text(ok: bool) -> (r: String)
    ensures
        r@ == channel_saved_reply(ok),
{
    if ok {
        String::from_str("Okay! I'll use this channel for Mesh messages from now on.")
    } else {
        String::from_str("Oops! I couldn't save your preferences for some reason.")
    }
}

/// The name of the thread that talks to one node.
pub fn dm_thread_title(node: &str) -> (r: String)
    ensures
        r@ == dm_thread_name(node@),
{
    String::from_str("Mesh DM: ").concat(node)
}

// ---------------------------------------------------------------------
// The machine
// ---------------------------------------------------------------------

/// Where a slash command stands. Guild and channel ids in strings are the
/// decimal text of the ids.
#[derive(Debug)]
#[allow(inconsistent_fields)]
pub enum CommandState {
    /// The machine has made its last request.
    Finished,
    /// `/post`: the request for the radio is being queued; `reply` follows.
    PostQueueing { reply: String },
    /// `/post`: waiting for the destination of the thread the command came from.
    PostAwaitThread { message: String, thread_id: String, guild_id: Option<u64> },
    /// `/post`: waiting to learn whether the command came from the primary channel.
    PostAwaitPrimary { message: String },
    /// `/opendm`: waiting for a thread that already talks to the node.
    DmAwaitExisting { guild_id: String, node_id: String },
    /// `/opendm`: waiting for the guild's primary channel.
    DmAwaitPrimary { guild_id: String, node_id: String },
    /// `/opendm`: waiting for the new thread.
    DmAwaitThread { guild_id: String, node_id: String },
    /// `/opendm`: waiting for the new thread to be recorded.
    DmAwaitLink { guild_id: String, node_id: String, thread_id: String },
    /// `/setchannel`: waiting for the guild's current primary channel.
    ChanAwaitOld { guild_id: String, channel_id: u64 },
    /// `/setchannel`: waiting for the old list of threads to be deleted.
    ChanAwaitOldIndex { guild_id: String, channel_id: u64 },
    /// `/setchannel`: waiting for the threads to delete.
    ChanAwaitStale { guild_id: String, channel_id: u64 },
    /// `/setchannel`: deleting the threads in `stale`, from position `next` on.
    ChanDeleting { guild_id: String, channel_id: u64, stale: Vec<String>, next: usize },
    /// `/setchannel`: waiting for the guild's threads to be forgotten.
    ChanAwaitForget { guild_id: String, channel_id: u64 },
    /// `/setchannel`: waiting for the new list of threads to be posted.
    ChanAwaitIndex { guild_id: String, channel_id: u64 },
    /// `/setchannel`: waiting for the new list of threads to be pinned.
    ChanAwaitPin { guild_id: String, channel_id: u64, message_id: u64 },
    /// `/setchannel`: waiting for the primary channel to be saved.
    ChanAwaitSave { guild_id: String, channel_id: u64 },
    /// Bringing the guild's list of threads up to date; `reply` follows.
    Indexing { guild_id: String, phase: IndexPhase, reply: String },
}

/// What a slash command's state says.
#[allow(inconsistent_fields)]
pub enum CommandPhase {
    Finished,
    PostQueueing { reply: Seq<char> },
    PostAwaitThread { message: Seq<char>, thread_id: Seq<char>, guild_id: Option<u64> },
    PostAwaitPrimary { message: Seq<char> },
    DmAwaitExisting { guild_id: Seq<char>, node_id: Seq<char> },
    DmAwaitPrimary { guild_id: Seq<char>, node_id: Seq<char> },
    DmAwaitThread { guild_id: Seq<char>, node_id: Seq<char> },
    DmAwaitLink { guild_id: Seq<char>, node_id: Seq<char>, thread_id: Seq<char> },
    ChanAwaitOld { guild_id: Seq<char>, channel_id: u64 },
    ChanAwaitOldIndex { guild_id: Seq<char>, channel_id: u64 },
    ChanAwaitStale { guild_id: Seq<char>, channel_id: u64 },
    ChanDeleting { guild_id: Seq<char>, channel_id: u64, stale: Seq<Seq<char>>, next: int },
    ChanAwaitForget { guild_id: Seq<char>, channel_id: u64 },
    ChanAwaitIndex { guild_id: Seq<char>, channel_id: u64 },
    ChanAwaitPin { guild_id: Seq<char>, channel_id: u64, message_id: u64 },
    ChanAwaitSave { guild_id: Seq<char>, channel_id: u64 },
    Indexing { guild_id: Seq<char>, phase: IndexPhase, reply: Seq<char> },
}

impl View for CommandState {
    type V = CommandPhase;

    open spec fn view(&self) -> CommandPhase {
        match self {
            CommandState::Finished => CommandPhase::Finished,
            CommandState::PostQueueing { reply } => CommandPhase::PostQueueing { reply: reply@ },
            CommandState::PostAwaitThread { message, thread_id, guild_id } =>
                CommandPhase::PostAwaitThread {
                    message: message@,
                    thread_id: thread_id@,
                    guild_id: *guild_id,
                },
            CommandState::PostAwaitPrimary { message } =>
                CommandPhase::PostAwaitPrimary { message: message@ },
            CommandState::DmAwaitExisting { guild_id, node_id } =>
                CommandPhase::DmAwaitExisting { guild_id: guild_id@, node_id: node_id@ },
            CommandState::DmAwaitPrimary { guild_id, node_id } =>
                CommandPhase::DmAwaitPrimary { guild_id: guild_id@, node_id: node_id@ },
            CommandState::DmAwaitThread { guild_id, node_id } =>
                CommandPhase::DmAwaitThread { guild_id: guild_id@, node_id: node_id@ },
            CommandState::DmAwaitLink { guild_id, node_id, thread_id } =>
                CommandPhase::DmAwaitLink {
                    guild_id: guild_id@,
                    node_id: node_id@,
                    thread_id: thread_id@,
                },
            CommandState::ChanAwaitOld { guild_id, channel_id } =>
                CommandPhase::ChanAwaitOld { guild_id: guild_id@, channel_id: *channel_id },
            CommandState::ChanAwaitOldIndex { guild_id, channel_id } =>
                CommandPhase::ChanAwaitOldIndex { guild_id: guild_id@, channel_id: *channel_id },
            CommandState::ChanAwaitStale { guild_id, channel_id } =>
                CommandPhase::ChanAwaitStale { guild_id: guild_id@, channel_id: *channel_id },
            CommandState::ChanDeleting { guild_id, channel_id, stale, next } =>
                CommandPhase::ChanDeleting {
                    guild_id: guild_id@,
                    channel_id: *channel_id,
                    stale: texts(stale@),
                    next: *next as int,
                },
            CommandState::ChanAwaitForget { guild_id, channel_id } =>
                CommandPhase::ChanAwaitForget { guild_id: guild_id@, channel_id: *channel_id },
            CommandState::ChanAwaitIndex { guild_id, channel_id } =>
                CommandPhase::ChanAwaitIndex { guild_id: guild_id@, channel_id: *channel_id },
            CommandState::ChanAwaitPin { guild_id, channel_id, message_id } =>
                CommandPhase::ChanAwaitPin {
                    guild_id: guild_id@,
                    channel_id: *channel_id,
                    message_id: *message_id,
                },
            CommandState::ChanAwaitSave { guild_id, channel_id } =>
                CommandPhase::ChanAwaitSave { guild_id: guild_id@, channel_id: *channel_id },
            CommandState::Indexing { guild_id, phase, reply } =>
                CommandPhase::Indexing { guild_id: guild_id@, phase: *phase, reply: reply@ },
        }
    }
}

/// Whether a command in state `s` can take the answer `a` next.
pub open spec fn command_accepts(s: CommandPhase, a: Answer) -> bool {
    match s {
        CommandPhase::Finished => false,
        CommandPhase::PostQueueing { .. } => a is Done,
        CommandPhase::PostAwaitThread { .. } => a is Text,
        CommandPhase::PostAwaitPrimary { .. } => a is Found,
        CommandPhase::DmAwaitExisting { .. } => a is Text,
        CommandPhase::DmAwaitPrimary { .. } => a is Text,
        CommandPhase::DmAwaitThread { .. } => a is Created,
        CommandPhase::DmAwaitLink { .. } => a is Written,
        CommandPhase::ChanAwaitOld { .. } => a is GuildChannel,
        CommandPhase::ChanAwaitOldIndex { .. } => a is Done,
        CommandPhase::ChanAwaitStale { .. } => a is ThreadIds,
        CommandPhase::ChanDeleting { .. } => a is Done,
        CommandPhase::ChanAwaitForget { .. } => a is Done,
        CommandPhase::ChanAwaitIndex { .. } => a is Created,
        CommandPhase::ChanAwaitPin { .. } => a is Done,
        CommandPhase::ChanAwaitSave { .. } => a is Written,
        CommandPhase::Indexing { phase, .. } => index_accepts(phase, a),
    }
}

/// `/post`: the first step. The message and destination come from the options
/// of those names; without a destination the channel the command came from is
/// looked up as a thread.
pub open spec fn post_begin(opts: Seq<OptionText>, channel_id: u64, guild_id: Option<u64>) -> (
    CommandPhase,
    Request,
) {
    let message = or_empty(option_value(named_option(opts, "message"@)));
    if message.len() == 0 {
        (CommandPhase::Finished, Request::Reply { content: empty_message_reply() })
    } else {
        match option_value(named_option(opts, "destination"@)) {
            Some(d) => (
                CommandPhase::PostQueueing { reply: queued_for_reply(d) },
                Request::SendToMesh {
                    request: RadioRequest::Post { destination: Some(d), message },
                },
            ),
            None => (
                CommandPhase::PostAwaitThread {
                    message,
                    thread_id: decimal(channel_id as nat),
                    guild_id,
                },
                Request::FindThreadDestination { thread_id: decimal(channel_id as nat) },
            ),
        }
    }
}

/// `/opendm`: the first step. The node is the string value of the first option.
pub open spec fn opendm_begin(opts: Seq<OptionText>, guild_id: Seq<char>) -> (CommandPhase, Request) {
    let node = or_empty(
        if opts.len() > 0 {
            opts[0].value
        } else {
            None
        },
    );
    if node.len() == 0 {
        (CommandPhase::Finished, Request::Reply { content: missing_node_reply() })
    } else {
        (
            CommandPhase::DmAwaitExisting { guild_id, node_id: node },
            Request::FindThreadForNode { guild_id, node_id: node },
        )
    }
}

/// `/setchannel`: the first step.
pub open spec fn setchannel_begin(guild_id: Seq<char>, channel_id: u64) -> (CommandPhase, Request) {
    (CommandPhase::ChanAwaitOld { guild_id, channel_id }, Request::LoadGuildChannel { guild_id })
}

/// The first step of a slash command called `name`, given its options, the
/// channel it came from and its guild, if any.
pub open spec fn command_begin(
    name: Seq<char>,
    opts: Seq<OptionText>,
    channel_id: u64,
    guild_id: Option<u64>,
) -> (CommandPhase, Request) {
    if name == "setchannel"@ {
        match guild_id {
            Some(g) => setchannel_begin(decimal(g as nat), channel_id),
            None => (CommandPhase::Finished, Request::Abort),
        }
    } else if name == "opendm"@ {
        match guild_id {
            Some(g) => opendm_begin(opts, decimal(g as nat)),
            None => (CommandPhase::Finished, Request::Abort),
        }
    } else if name == "post"@ {
        post_begin(opts, channel_id, guild_id)
    } else {
        (CommandPhase::Finished, Request::Reply { content: unknown_command_reply() })
    }
}

/// The first id from position `k` on in `ids` that is a number, with its
/// position.
pub open spec fn next_thread_id(ids: Seq<Seq<char>>, k: int) -> Option<(int, u64)>
    decreases ids.len() - k,
{
    if k < 0 || k >= ids.len() {
        None
    } else {
        match parse_decimal(ids[k]) {
            Some(t) => Some((k, t)),
            None => next_thread_id(ids, k + 1),
        }
    }
}

/// `/setchannel`: delete the next stale thread from position `k` on, or, when
/// none is left, forget the guild's threads.
pub open spec fn delete_from(guild_id: Seq<char>, channel_id: u64, stale: Seq<Seq<char>>, k: int) -> (
    CommandPhase,
    Request,
) {
    match next_thread_id(stale, k) {
        Some((i, t)) => (
            CommandPhase::ChanDeleting { guild_id, channel_id, stale, next: i + 1 },
            Request::DeleteChannel { channel_id: t },
        ),
        None => (
            CommandPhase::ChanAwaitForget { guild_id, channel_id },
            Request::ForgetGuildThreads { guild_id },
        ),
    }
}

/// `/setchannel`: post the new list of threads in the new primary channel.
pub open spec fn announce(guild_id: Seq<char>, channel_id: u64) -> (CommandPhase, Request) {
    (
        CommandPhase::ChanAwaitIndex { guild_id, channel_id },
        Request::SendMessage { channel_id, content: index_placeholder() },
    )
}

/// Bring the guild's list of threads up to date, then answer `reply`.
pub open spec fn reindex_then_reply(guild_id: Seq<char>, reply: Seq<char>) -> (CommandPhase, Request) {
    (
        CommandPhase::Indexing { guild_id, phase: IndexPhase::AwaitRow, reply },
        Request::LoadGuildChannel { guild_id },
    )
}

/// The next state and request of a slash command in state `s` that gets the
/// answer `a`. A stored old primary channel id of 0 names no Discord channel:
/// `/setchannel` gives up there, before it removes anything.
pub open spec fn command_next(s: CommandPhase, a: Answer) -> (CommandPhase, Request) {
    match (s, a) {
        (CommandPhase::PostQueueing { reply }, _) =>
            (CommandPhase::Finished, Request::Reply { content: reply }),
        (CommandPhase::PostAwaitThread { message, thread_id, guild_id }, Answer::Text { value }) => {
            match value {
                Some(d) => (
                    CommandPhase::PostQueueing { reply: queued_for_reply(d) },
                    Request::SendToMesh {
                        request: RadioRequest::Post { destination: Some(d), message },
                    },
                ),
                None => match guild_id {
                    Some(g) => (
                        CommandPhase::PostAwaitPrimary { message },
                        Request::IsPrimaryChannel { guild_id: decimal(g as nat), channel_id: thread_id },
                    ),
                    None => (CommandPhase::Finished, Request::Abort),
                },
            }
        },
        (CommandPhase::PostAwaitPrimary { message }, Answer::Found { found }) => {
            if found {
                (
                    CommandPhase::PostQueueing { reply: queued_broadcast_reply() },
                    Request::SendToMesh {
                        request: RadioRequest::Post { destination: None, message },
                    },
                )
            } else {
                (CommandPhase::Finished, Request::Reply { content: no_destination_reply() })
            }
        },
        (CommandPhase::DmAwaitExisting { guild_id, node_id }, Answer::Text { value }) => {
            match value {
                Some(t) => (
                    CommandPhase::Finished,
                    Request::Reply { content: existing_thread_reply(node_id, t) },
                ),
                None => (
                    CommandPhase::DmAwaitPrimary { guild_id, node_id },
                    Request::FindPrimaryChannel { guild_id },
                ),
            }
        },
        (CommandPhase::DmAwaitPrimary { guild_id, node_id }, Answer::Text { value }) => {
            match value {
                Some(c) => match parse_decimal(c) {
                    Some(cid) => (
                        CommandPhase::DmAwaitThread { guild_id, node_id },
                        Request::CreateThread { channel_id: cid, name: dm_thread_name(node_id) },
                    ),
                    None => (CommandPhase::Finished, Request::Abort),
                },
                None => (CommandPhase::Finished, Request::Reply { content: no_primary_reply() }),
            }
        },
        (CommandPhase::DmAwaitThread { guild_id, node_id }, Answer::Created { id }) => {
            match id {
                Some(t) => (
                    CommandPhase::DmAwaitLink { guild_id, node_id, thread_id: decimal(t as nat) },
                    Request::InsertThread {
                        thread_id: decimal(t as nat),
                        guild_id,
                        destination: node_id,
                    },
                ),
                None => (CommandPhase::Finished, Request::Reply { content: thread_failed_reply() }),
            }
        },
        (CommandPhase::DmAwaitLink { guild_id, node_id, thread_id }, Answer::Written { ok }) => {
            if ok {
                reindex_then_reply(guild_id, thread_opened_reply(node_id, thread_id))
            } else {
                (CommandPhase::Finished, Request::Reply { content: link_failed_reply() })
            }
        },
        (CommandPhase::ChanAwaitOld { guild_id, channel_id }, Answer::GuildChannel { row }) => {
            match row {
                Some(r) => if r.channel_id != decimal(channel_id as nat) {
                    match parse_decimal(r.channel_id) {
                        Some(old) => if old == 0 {
                            (CommandPhase::Finished, Request::Abort)
                        } else {
                            match r.index_message_id {
                            Some(m) => match parse_decimal(m) {
                                Some(mid) => (
                                    CommandPhase::ChanAwaitOldIndex { guild_id, channel_id },
                                    Request::DeleteMessage { channel_id: old, message_id: mid },
                                ),
                                None => (
                                    CommandPhase::ChanAwaitStale { guild_id, channel_id },
                                    Request::LoadStaleThreadIds { guild_id },
                                ),
                            },
                            None => (
                                CommandPhase::ChanAwaitStale { guild_id, channel_id },
                                Request::LoadStaleThreadIds { guild_id },
                            ),
                            }
                        },
                        None => announce(guild_id, channel_id),
                    }
                } else {
                    announce(guild_id, channel_id)
                },
                None => announce(guild_id, channel_id),
            }
        },
        (CommandPhase::ChanAwaitOldIndex { guild_id, channel_id }, _) => (
            CommandPhase::ChanAwaitStale { guild_id, channel_id },
            Request::LoadStaleThreadIds { guild_id },
        ),
        (CommandPhase::ChanAwaitStale { guild_id, channel_id }, Answer::ThreadIds { ids }) =>
            delete_from(guild_id, channel_id, ids, 0),
        (CommandPhase::ChanDeleting { guild_id, channel_id, stale, next }, _) =>
            delete_from(guild_id, channel_id, stale, next),
        (CommandPhase::ChanAwaitForget { guild_id, channel_id }, _) => announce(guild_id, channel_id),
        (CommandPhase::ChanAwaitIndex { guild_id, channel_id }, Answer::Created { id }) => {
            match id {
                Some(m) => (
                    CommandPhase::ChanAwaitPin { guild_id, channel_id, message_id: m },
                    Request::PinMessage { channel_id, message_id: m },
                ),
                None => (
                    CommandPhase::ChanAwaitSave { guild_id, channel_id },
                    Request::SaveGuildChannel {
                        guild_id,
                        channel_id: decimal(channel_id as nat),
                        index_message_id: None,
                    },
                ),
            }
        },
        (CommandPhase::ChanAwaitPin { guild_id, channel_id, message_id }, _) => (
            CommandPhase::ChanAwaitSave { guild_id, channel_id },
            Request::SaveGuildChannel {
                guild_id,
                channel_id: decimal(channel_id as nat),
                index_message_id: Some(decimal(message_id as nat)),
            },
        ),
        (CommandPhase::ChanAwaitSave { guild_id, channel_id }, Answer::Written { ok }) =>
            reindex_then_reply(guild_id, channel_saved_reply(ok)),
        (CommandPhase::Indexing { guild_id, phase, reply }, _) => {
            match index_next(guild_id, phase, a) {
                Some((q, r)) => (CommandPhase::Indexing { guild_id, phase: q, reply }, r),
                None => (CommandPhase::Finished, Request::Reply { content: reply }),
            }
        },
        _ => (CommandPhase::Finished, Request::Abort),
    }
}

fn finished_with(content: String) -> (r: (CommandState, Action))
    ensures
        r.0@ == CommandPhase::Finished,
        r.1@ == (Request::Reply { content: content@ }),
{
    (CommandState::Finished, Action::Reply { content })
}

fn aborted() -> (r: (CommandState, Action))
    ensures
        r.0@ == CommandPhase::Finished,
        r.1@ == Request::Abort,
{
    (CommandState::Finished, Action::Abort)
}

fn queue_post(destination: Option<String>, message: String, reply: String) -> (r: (CommandState, Action))
    ensures
        r.0@ == (CommandPhase::PostQueueing { reply: reply@ }),
        r.1@ == (Request::SendToMesh {
            request: RadioRequest::Post { destination: opt_text(destination), message: message@ },
        }),
{
    (
        CommandState::PostQueueing { reply },
        Action::SendToMesh { request: DiscordToMesh::Post { destination, message } },
    )
}

/// `/post`: the first step, given the command's options, the channel it
/// came from and its guild, if any.
pub fn handle_post(options: &Vec<CommandOption>, channel_id: u64, guild_id: Option<u64>) -> (r: (
    CommandState,
    Action,
))
    ensures
        (r.0@, r.1@) == post_begin(option_texts(options@), channel_id, guild_id),
{
    let message = text_or_empty(named_option_value(options, "message"));
    if message.as_str().unicode_len() == 0 {
        return finished_with(String::from_str("Cannot send an empty message."));
    }
    match named_option_value(options, "destination") {
        Some(d) => {
            let reply = join3("Queued message for `", d.as_str(), "`.");
            queue_post(Some(d), message, reply)
        },
        None => {
            let thread_id = format_u64(channel_id);
            let lookup = thread_id.clone();
            (
                CommandState::PostAwaitThread { message, thread_id, guild_id },
                Action::FindThreadDestination { thread_id: lookup },
            )
        },
    }
}

/// `/opendm`: the first step, given the command's options and its guild.
pub fn handle_opendm(options: &Vec<CommandOption>, guild: u64) -> (r: (CommandState, Action))
    ensures
        (r.0@, r.1@) == opendm_begin(option_texts(options@), decimal(guild as nat)),
{
    let guild_id = format_u64(guild);
    let ghost opts = option_texts(options@);
    let first = if options.len() > 0 {
        assert(opts[0] == options@[0]@);
        match &options[0].value {
            Some(s) => Some(s.clone()),
            None => None,
        }
    } else {
        None
    };
    let node = text_or_empty(first);
    if node.as_str().unicode_len() == 0 {
        return finished_with(String::from_str("Please provide a valid node ID."));
    }
    let g = guild_id.clone();
    let n = node.clone();
    (
        CommandState::DmAwaitExisting { guild_id, node_id: node },
        Action::FindThreadForNode { guild_id: g, node_id: n },
    )
}

/// `/setchannel`: the first step, given the command's guild and the channel
/// it came from.
pub fn handle_setchannel(guild: u64, channel_id: u64) -> (r: (CommandState, Action))
    ensures
        (r.0@, r.1@) == setchannel_begin(decimal(guild as nat), channel_id),
{
    let guild_id = format_u64(guild);
    let g = guild_id.clone();
    (CommandState::ChanAwaitOld { guild_id, channel_id }, Action::LoadGuildChannel { guild_id: g })
}

/// The first step of the slash command called `name`, given its options, the
/// channel it came from and its guild, if any.
pub fn begin_command(
    name: &str,
    options: &Vec<CommandOption>,
    channel_id: u64,
    guild_id: Option<u64>,
) -> (r: (CommandState, Action))
    ensures
        (r.0@, r.1@) == command_begin(name@, option_texts(options@), channel_id, guild_id),
{
    if str_eq(name, "setchannel") {
        match guild_id {
            Some(g) => handle_setchannel(g, channel_id),
            None => aborted(),
        }
    } else if str_eq(name, "opendm") {
        match guild_id {
            Some(g) => handle_opendm(options, g),
            None => aborted(),
        }
    } else if str_eq(name, "post") {
        handle_post(options, channel_id, guild_id)
    } else {
        finished_with(String::from_str("not implemented :("))
    }
}

fn find_thread_id(stale: &Vec<String>, k: usize) -> (r: Option<(usize, u64)>)
    ensures
        match (r, next_thread_id(texts(stale@), k as int)) {
            (Some((i, t)), Some((j, u))) => i == j && t == u,
            (None, None) => true,
            _ => false,
        },
{
    let ghost ids = texts(stale@);
    let mut i = k;
    while i < stale.len()
        invariant
            k <= i,
            ids == texts(stale@),
            next_thread_id(ids, k as int) == next_thread_id(ids, i as int),
        decreases stale.len() - i,
    {
        assert(ids[i as int] == stale@[i as int]@);
        match parse_u64(stale[i].as_str()) {
            Some(t) => {
                return Some((i, t));
            },
            None => {},
        }
        i = i + 1;
    }
    None
}

fn delete_next(guild_id: String, channel_id: u64, stale: Vec<String>, k: usize) -> (r: (
    CommandState,
    Action,
))
    ensures
        (r.0@, r.1@) == delete_from(guild_id@, channel_id, texts(stale@), k as int),
{
    match find_thread_id(&stale, k) {
        Some((i, t)) => {
            assert(i < stale.len()) by {
                lemma_next_thread_id_in_range(texts(stale@), k as int);
            }
            (
                CommandState::ChanDeleting { guild_id, channel_id, stale, next: i + 1 },
                Action::DeleteChannel { channel_id: t },
            )
        },
        None => {
            let g = guild_id.clone();
            (
                CommandState::ChanAwaitForget { guild_id, channel_id },
                Action::ForgetGuildThreads { guild_id: g },
            )
        },
    }
}

/// The stale thread found from position `k` on stands at or after `k`.
pub proof fn lemma_next_thread_id_in_range(ids: Seq<Seq<char>>, k: int)
    ensures
        next_thread_id(ids, k) matches Some((i, t)) ==> k <= i < ids.len() && parse_decimal(ids[i])
            == Some(t),
    decreases ids.len() - k,
{
    if 0 <= k < ids.len() {
        lemma_next_thread_id_in_range(ids, k + 1);
    }
}

fn announce_channel(guild_id: String, channel_id: u64) -> (r: (CommandState, Action))
    ensures
        (r.0@, r.1@) == announce(guild_id@, channel_id),
{
    (
        CommandState::ChanAwaitIndex { guild_id, channel_id },
        Action::SendMessage {
            channel_id,
            content: String::from_str("** :satellite: Meshtastic Active Threads**\n\n*Initializing...*"),
        },
    )
}

fn reindex(guild_id: String, reply: String) -> (r: (CommandState, Action))
    ensures
        (r.0@, r.1@) == reindex_then_reply(guild_id@, reply@),
{
    let (phase, action) = update_index_message(&guild_id);
    (CommandState::Indexing { guild_id, phase, reply }, action)
}

fn after_old_channel(guild_id: String, channel_id: u64, row: Option<GuildChannelRow>) -> (r: (
    CommandState,
    Action,
))
    ensures
        (r.0@, r.1@) == command_next(
            CommandPhase::ChanAwaitOld { guild_id: guild_id@, channel_id },
            (Answer::GuildChannel { row: match row { Some(x) => Some(x@), None => None } }),
        ),
{
    match row {
        Some(r) => {
            let current = format_u64(channel_id);
            if !(r.channel_id == current) {
                match parse_u64(r.channel_id.as_str()) {
                    Some(0) => aborted(),
                    Some(old) => {
                        let mid = match &r.index_message_id {
                            Some(m) => parse_u64(m.as_str()),
                            None => None,
                        };
                        match mid {
                            Some(mid) => (
                                CommandState::ChanAwaitOldIndex { guild_id, channel_id },
                                Action::DeleteMessage { channel_id: old, message_id: mid },
                            ),
                            None => {
                                let g = guild_id.clone();
                                (
                                    CommandState::ChanAwaitStale { guild_id, channel_id },
                                    Action::LoadStaleThreadIds { guild_id: g },
                                )
                            },
                        }
                    },
                    None => announce_channel(guild_id, channel_id),
                }
            } else {
                announce_channel(guild_id, channel_id)
            }
        },
        None => announce_channel(guild_id, channel_id),
    }
}

/// The next step of a slash command in state `state` that gets `event`.
pub fn command_step(state: CommandState, event: Event) -> (r: (CommandState, Action))
    ensures
        (r.0@, r.1@) == command_next(state@, event@),
{
    match state {
        CommandState::Finished => aborted(),
        CommandState::PostQueueing { reply } => finished_with(reply),
        CommandState::PostAwaitThread { message, thread_id, guild_id } => match event {
            Event::Text { value: Some(d) } => {
                let reply = join3("Queued message for `", d.as_str(), "`.");
                queue_post(Some(d), message, reply)
            },
            Event::Text { value: None } => match guild_id {
                Some(g) => (
                    CommandState::PostAwaitPrimary { message },
                    Action::IsPrimaryChannel { guild_id: format_u64(g), channel_id: thread_id },
                ),
                None => aborted(),
            },
            _ => aborted(),
        },
        CommandState::PostAwaitPrimary { message } => match event {
            Event::Found { found: true } => queue_post(
                None,
                message,
                String::from_str("Queued message for broadcast on primary channel."),
            ),
            Event::Found { found: false } => finished_with(
                String::from_str(
                    "Could not determine destination. Please provide a `destination`, use this command inside a DM thread, or use it in the primary mesh channel.",
                ),
            ),
            _ => aborted(),
        },
        CommandState::DmAwaitExisting { guild_id, node_id } => match event {
            Event::Text { value: Some(t) } => finished_with(
                join5("A thread for `", node_id.as_str(), "` already exists: <#", t.as_str(), ">"),
            ),
            Event::Text { value: None } => {
                let g = guild_id.clone();
                (
                    CommandState::DmAwaitPrimary { guild_id, node_id },
                    Action::FindPrimaryChannel { guild_id: g },
                )
            },
            _ => aborted(),
        },
        CommandState::DmAwaitPrimary { guild_id, node_id } => match event {
            Event::Text { value: Some(c) } => match parse_u64(c.as_str()) {
                Some(cid) => {
                    let name = dm_thread_title(node_id.as_str());
                    (
                        CommandState::DmAwaitThread { guild_id, node_id },
                        Action::CreateThread { channel_id: cid, name },
                    )
                },
                None => aborted(),
            },
            Event::Text { value: None } => finished_with(
                String::from_str("Please run `/setchannel` first to designate a primary channel."),
            ),
            _ => aborted(),
        },
        CommandState::DmAwaitThread { guild_id, node_id } => match event {
            Event::Created { id: Some(t) } => {
                let thread_id = format_u64(t);
                let action = Action::InsertThread {
                    thread_id: thread_id.clone(),
                    guild_id: guild_id.clone(),
                    destination: node_id.clone(),
                };
                (CommandState::DmAwaitLink { guild_id, node_id, thread_id }, action)
            },
            Event::Created { id: None } => finished_with(
                String::from_str(
                    "Failed to create thread. Please make sure I have permission to create public threads!",
                ),
            ),
            _ => aborted(),
        },
        CommandState::DmAwaitLink { guild_id, node_id, thread_id } => match event {
            Event::Written { ok: true } => {
                let reply = join5(
                    "Opened a DM thread for `",
                    node_id.as_str(),
                    "`: <#",
                    thread_id.as_str(),
                    ">",
                );
                reindex(guild_id, reply)
            },
            Event::Written { ok: false } => finished_with(
                String::from_str("Created the thread, but failed to link it in the database."),
            ),
            _ => aborted(),
        },
        CommandState::ChanAwaitOld { guild_id, channel_id } => match event {
            Event::GuildChannel { row } => after_old_channel(guild_id, channel_id, row),
            _ => aborted(),
        },
        CommandState::ChanAwaitOldIndex { guild_id, channel_id } => {
            let g = guild_id.clone();
            (
                CommandState::ChanAwaitStale { guild_id, channel_id },
                Action::LoadStaleThreadIds { guild_id: g },
            )
        },
        CommandState::ChanAwaitStale { guild_id, channel_id } => match event {
            Event::ThreadIds { ids } => delete_next(guild_id, channel_id, ids, 0),
            _ => aborted(),
        },
        CommandState::ChanDeleting { guild_id, channel_id, stale, next } => delete_next(
            guild_id,
            channel_id,
            stale,
            next,
        ),
        CommandState::ChanAwaitForget { guild_id, channel_id } => announce_channel(
            guild_id,
            channel_id,
        ),
        CommandState::ChanAwaitIndex { guild_id, channel_id } => match event {
            Event::Created { id: Some(m) } => (
                CommandState::ChanAwaitPin { guild_id, channel_id, message_id: m },
                Action::PinMessage { channel_id, message_id: m },
            ),
            Event::Created { id: None } => {
                let g = guild_id.clone();
                (
                    CommandState::ChanAwaitSave { guild_id, channel_id },
                    Action::SaveGuildChannel {
                        guild_id: g,
                        channel_id: format_u64(channel_id),
                        index_message_id: None,
                    },
                )
            },
            _ => aborted(),
        },
        CommandState::ChanAwaitPin { guild_id, channel_id, message_id } => {
            let g = guild_id.clone();
            (
                CommandState::ChanAwaitSave { guild_id, channel_id },
                Action::SaveGuildChannel {
                    guild_id: g,
                    channel_id: format_u64(channel_id),
                    index_message_id: Some(format_u64(message_id)),
                },
            )
        },
        CommandState::ChanAwaitSave { guild_id, channel_id } => match event {
            Event::Written { ok } => reindex(guild_id, channel_saved_text(ok)),
            _ => aborted(),
        },
        CommandState::Indexing { guild_id, phase, reply } => {
            match index_step(&guild_id, phase, event) {
                Some((q, action)) => (CommandState::Indexing { guild_id, phase: q, reply }, action),
                None => finished_with(reply),
            }
        },
    }
}

} // verus!
