//! The requests that the bot's machines make of the world, and the answers
//! that come back.
use vstd::prelude::*;
use crate::mesh::{DiscordToMesh, RadioRequest, opt_text};

verus! {

/// One option of a slash command as Discord delivered it: its name, and its
/// value when that value is a string.
#[derive(Debug, Clone, PartialEq, Eq)]
pub struct CommandOption {
    pub name: String,
    pub value: Option<String>,
}

/// What a command option says.
pub struct OptionText {
    pub name: Seq<char>,
    pub value: Option<Seq<char>>,
}

impl View for CommandOption {
    type V = OptionText;

    open spec fn view(&self) -> OptionText {
        OptionText { name: self.name@, value: opt_text(self.value) }
    }
}

/// A row of the `guild_channels` table: the primary channel of a guild and
/// the pinned message that lists its threads.
#[derive(Debug, Clone, PartialEq, Eq)]
pub struct GuildChannelRow {
    pub channel_id: String,
    pub index_message_id: Option<String>,
}

/// What a `guild_channels` row holds.
pub struct GuildChannelText {
    pub channel_id: Seq<char>,
    pub index_message_id: Option<Seq<char>>,
}

impl View for GuildChannelRow {
    type V = GuildChannelText;

    open spec fn view(&self) -> GuildChannelText {
        GuildChannelText {
            channel_id: self.channel_id@,
            index_message_id: opt_text(self.index_message_id),
        }
    }
}

/// A row of the `mesh_threads` table: a Discord thread and the node or
/// channel it talks to.
#[derive(Debug, Clone, PartialEq, Eq)]
pub struct ThreadRow {
    pub thread_id: String,
    pub destination: String,
}

/// What a `mesh_threads` row holds.
pub struct ThreadText {
    pub thread_id: Seq<char>,
    pub destination: Seq<char>,
}

impl View for ThreadRow {
    type V = ThreadText;

    open spec fn view(&self) -> ThreadText {
        ThreadText { thread_id: self.thread_id@, destination: self.destination@ }
    }
}

/// The texts of a list of strings.
pub open spec fn texts(v: Seq<String>) -> Seq<Seq<char>> {
    v.map_values(|s: String| s@)
}

/// The contents of a list of thread rows.
pub open spec fn thread_texts(v: Seq<ThreadRow>) -> Seq<ThreadText> {
    v.map_values(|r: ThreadRow| r@)
}

/// A request that a machine makes. Ids of Discord objects are numbers; ids
/// in the database are their decimal text.
#[derive(Debug, PartialEq, Eq)]
#[allow(inconsistent_fields)]
pub enum Action {
    /// `SELECT channel_id, index_message_id FROM guild_channels WHERE guild_id = ?`
    LoadGuildChannel { guild_id: String },
    /// `SELECT thread_id, destination FROM mesh_threads WHERE guild_id = ?`
    LoadGuildThreads { guild_id: String },
    /// `SELECT thread_id FROM message_threads where guild_id = ?`, the threads
    /// to delete when a guild moves to another primary channel. The database
    /// has no table of that name, so in practice the answer is empty.
    LoadStaleThreadIds { guild_id: String },
    /// `SELECT thread_id FROM mesh_threads WHERE guild_id = ? AND destination = ?`
    FindThreadForNode { guild_id: String, node_id: String },
    /// `SELECT channel_id FROM guild_channels WHERE guild_id = ?`
    FindPrimaryChannel { guild_id: String },
    /// `SELECT destination FROM mesh_threads WHERE thread_id = ?`
    FindThreadDestination { thread_id: String },
    /// `SELECT channel_id FROM guild_channels WHERE guild_id = ? AND channel_id = ?`
    IsPrimaryChannel { guild_id: String, channel_id: String },
    /// `SELECT channel_id FROM guild_channels`
    LoadAllChannels,
    /// `INSERT INTO mesh_threads (thread_id, guild_id, destination) VALUES (?, ?, ?)`
    InsertThread { thread_id: String, guild_id: String, destination: String },
    /// `INSERT INTO guild_channels ... ON CONFLICT(guild_id) DO UPDATE ...`
    SaveGuildChannel { guild_id: String, channel_id: String, index_message_id: Option<String> },
    /// `DELETE FROM mesh_threads WHERE guild_id = ?`
    ForgetGuildThreads { guild_id: String },
    /// Replace the text of a message.
    EditMessage { channel_id: u64, message_id: u64, content: String },
    /// Delete a message.
    DeleteMessage { channel_id: u64, message_id: u64 },
    /// Delete a channel or thread.
    DeleteChannel { channel_id: u64 },
    /// Post a new message and report its id.
    SendMessage { channel_id: u64, content: String },
    /// Pin a message.
    PinMessage { channel_id: u64, message_id: u64 },
    /// Open a public thread under a channel and report its id.
    CreateThread { channel_id: u64, name: String },
    /// Post a message, ignoring the outcome.
    Say { channel_id: u64, content: String },
    /// Report the guild that a channel belongs to.
    GuildOfChannel { channel_id: u64 },
    /// Queue a request for the radio.
    SendToMesh { request: DiscordToMesh },
    /// Answer the slash command with this text; the machine is done.
    Reply { content: String },
    /// The machine is done and has nothing to answer.
    Finish,
    /// The machine met data that the bot does not survive (an id that is not a
    /// number, a command outside any guild): the task that runs it stops here,
    /// with no answer.
    Abort,
}

/// What a request asks for.
#[allow(inconsistent_fields)]
pub enum Request {
    LoadGuildChannel { guild_id: Seq<char> },
    LoadGuildThreads { guild_id: Seq<char> },
    LoadStaleThreadIds { guild_id: Seq<char> },
    FindThreadForNode { guild_id: Seq<char>, node_id: Seq<char> },
    FindPrimaryChannel { guild_id: Seq<char> },
    FindThreadDestination { thread_id: Seq<char> },
    IsPrimaryChannel { guild_id: Seq<char>, channel_id: Seq<char> },
    LoadAllChannels,
    InsertThread { thread_id: Seq<char>, guild_id: Seq<char>, destination: Seq<char> },
    SaveGuildChannel {
        guild_id: Seq<char>,
        channel_id: Seq<char>,
        index_message_id: Option<Seq<char>>,
    },
    ForgetGuildThreads { guild_id: Seq<char> },
    EditMessage { channel_id: u64, message_id: u64, content: Seq<char> },
    DeleteMessage { channel_id: u64, message_id: u64 },
    DeleteChannel { channel_id: u64 },
    SendMessage { channel_id: u64, content: Seq<char> },
    PinMessage { channel_id: u64, message_id: u64 },
    CreateThread { channel_id: u64, name: Seq<char> },
    Say { channel_id: u64, content: Seq<char> },
    GuildOfChannel { channel_id: u64 },
    SendToMesh { request: RadioRequest },
    Reply { content: Seq<char> },
    Finish,
    Abort,
}

impl View for Action {
    type V = Request;

    open spec fn view(&self) -> Request {
        match self {
            Action::LoadGuildChannel { guild_id } => Request::LoadGuildChannel { guild_id: guild_id@ },
            Action::LoadGuildThreads { guild_id } => Request::LoadGuildThreads { guild_id: guild_id@ },
            Action::LoadStaleThreadIds { guild_id } => Request::LoadStaleThreadIds { guild_id: guild_id@ },
            Action::FindThreadForNode { guild_id, node_id } =>
                Request::FindThreadForNode { guild_id: guild_id@, node_id: node_id@ },
            Action::FindPrimaryChannel { guild_id } => Request::FindPrimaryChannel { guild_id: guild_id@ },
            Action::FindThreadDestination { thread_id } =>
                Request::FindThreadDestination { thread_id: thread_id@ },
            Action::IsPrimaryChannel { guild_id, channel_id } =>
                Request::IsPrimaryChannel { guild_id: guild_id@, channel_id: channel_id@ },
            Action::LoadAllChannels => Request::LoadAllChannels,
            Action::InsertThread { thread_id, guild_id, destination } => Request::InsertThread {
                thread_id: thread_id@,
                guild_id: guild_id@,
                destination: destination@,
            },
            Action::SaveGuildChannel { guild_id, channel_id, index_message_id } =>
                Request::SaveGuildChannel {
                    guild_id: guild_id@,
                    channel_id: channel_id@,
                    index_message_id: opt_text(*index_message_id),
                },
            Action::ForgetGuildThreads { guild_id } => Request::ForgetGuildThreads { guild_id: guild_id@ },
            Action::EditMessage { channel_id, message_id, content } => Request::EditMessage {
                channel_id: *channel_id,
                message_id: *message_id,
                content: content@,
            },
            Action::DeleteMessage { channel_id, message_id } =>
                Request::DeleteMessage { channel_id: *channel_id, message_id: *message_id },
            Action::DeleteChannel { channel_id } => Request::DeleteChannel { channel_id: *channel_id },
            Action::SendMessage { channel_id, content } =>
                Request::SendMessage { channel_id: *channel_id, content: content@ },
            Action::PinMessage { channel_id, message_id } =>
                Request::PinMessage { channel_id: *channel_id, message_id: *message_id },
            Action::CreateThread { channel_id, name } =>
                Request::CreateThread { channel_id: *channel_id, name: name@ },
            Action::Say { channel_id, content } =>
                Request::Say { channel_id: *channel_id, content: content@ },
            Action::GuildOfChannel { channel_id } => Request::GuildOfChannel { channel_id: *channel_id },
            Action::SendToMesh { request } => Request::SendToMesh { request: request@ },
            Action::Reply { content } => Request::Reply { content: content@ },
            Action::Finish => Request::Finish,
            Action::Abort => Request::Abort,
        }
    }
}

/// The answer to a request, as the program that carried it out hands it back.
#[derive(Debug, PartialEq, Eq)]
#[allow(inconsistent_fields)]
pub enum Event {
    /// A request whose outcome the bot ignores was carried out.
    Done,
    /// The `guild_channels` row of a guild; `None` when there is none or the
    /// query failed.
    GuildChannel { row: Option<GuildChannelRow> },
    /// Thread rows; empty when the query failed.
    Threads { rows: Vec<ThreadRow> },
    /// Thread ids; empty when the query failed.
    ThreadIds { ids: Vec<String> },
    /// A single text column; `None` when no row matched or the query failed.
    Text { value: Option<String> },
    /// Whether a row matched (`false` also when the query failed).
    Found { found: bool },
    /// All primary channel ids; `None` when the query failed.
    Channels { ids: Option<Vec<String>> },
    /// Whether a write succeeded.
    Written { ok: bool },
    /// The id of a new message or thread; `None` when it could not be made.
    Created { id: Option<u64> },
    /// The guild of a channel; `None` when it could not be found.
    Guild { id: Option<u64> },
}

/// What an answer says.
#[allow(inconsistent_fields)]
pub enum Answer {
    Done,
    GuildChannel { row: Option<GuildChannelText> },
    Threads { rows: Seq<ThreadText> },
    ThreadIds { ids: Seq<Seq<char>> },
    Text { value: Option<Seq<char>> },
    Found { found: bool },
    Channels { ids: Option<Seq<Seq<char>>> },
    Written { ok: bool },
    Created { id: Option<u64> },
    Guild { id: Option<u64> },
}

impl View for Event {
    type V = Answer;

    open spec fn view(&self) -> Answer {
        match self {
            Event::Done => Answer::Done,
            Event::GuildChannel { row } => Answer::GuildChannel {
                row: match row {
                    Some(r) => Some(r@),
                    None => None,
                },
            },
            Event::Threads { rows } => Answer::Threads { rows: thread_texts(rows@) },
            Event::ThreadIds { ids } => Answer::ThreadIds { ids: texts(ids@) },
            Event::Text { value } => Answer::Text { value: opt_text(*value) },
            Event::Found { found } => Answer::Found { found: *found },
            Event::Channels { ids } => Answer::Channels {
                ids: match ids {
                    Some(v) => Some(texts(v@)),
                    None => None,
                },
            },
            Event::Written { ok } => Answer::Written { ok: *ok },
            Event::Created { id } => Answer::Created { id: *id },
            Event::Guild { id } => Answer::Guild { id: *id },
        }
    }
}

/// Whether `a` is a possible answer to `r`.
pub open spec fn answers(r: Request, a: Answer) -> bool {
    match r {
        Request::LoadGuildChannel { .. } => a is GuildChannel,
        Request::LoadGuildThreads { .. } => a is Threads,
        Request::LoadStaleThreadIds { .. } => a is ThreadIds,
        Request::FindThreadForNode { .. } => a is Text,
        Request::FindPrimaryChannel { .. } => a is Text,
        Request::FindThreadDestination { .. } => a is Text,
        Request::IsPrimaryChannel { .. } => a is Found,
        Request::LoadAllChannels => a is Channels,
        Request::InsertThread { .. } => a is Written,
        Request::SaveGuildChannel { .. } => a is Written,
        Request::ForgetGuildThreads { .. } => a is Done,
        Request::EditMessage { .. } => a is Done,
        Request::DeleteMessage { .. } => a is Done,
        Request::DeleteChannel { .. } => a is Done,
        Request::SendMessage { .. } => a is Created,
        Request::PinMessage { .. } => a is Done,
        Request::CreateThread { .. } => a is Created,
        Request::Say { .. } => a is Done,
        Request::GuildOfChannel { .. } => a is Guild,
        Request::SendToMesh { .. } => a is Done,
        Request::Reply { .. } => false,
        Request::Finish => false,
        Request::Abort => false,
    }
}

/// Whether a request ends the machine that made it.
pub open spec fn is_final(r: Request) -> bool {
    r is Reply || r is Finish || r is Abort
}

/// Whether `event` answers `action`: the program that carries requests out
/// checks this before it hands an answer back.
pub fn answers_request(action: &Action, event: &Event) -> (r: bool)
    ensures
        r == answers(action@, event@),
{
    match action {
        Action::LoadGuildChannel { .. } => matches!(event, Event::GuildChannel { .. }),
        Action::LoadGuildThreads { .. } => matches!(event, Event::Threads { .. }),
        Action::LoadStaleThreadIds { .. } => matches!(event, Event::ThreadIds { .. }),
        Action::FindThreadForNode { .. } => matches!(event, Event::Text { .. }),
        Action::FindPrimaryChannel { .. } => matches!(event, Event::Text { .. }),
        Action::FindThreadDestination { .. } => matches!(event, Event::Text { .. }),
        Action::IsPrimaryChannel { .. } => matches!(event, Event::Found { .. }),
        Action::LoadAllChannels => matches!(event, Event::Channels { .. }),
        Action::InsertThread { .. } => matches!(event, Event::Written { .. }),
        Action::SaveGuildChannel { .. } => matches!(event, Event::Written { .. }),
        Action::ForgetGuildThreads { .. } => matches!(event, Event::Done),
        Action::EditMessage { .. } => matches!(event, Event::Done),
        Action::DeleteMessage { .. } => matches!(event, Event::Done),
        Action::DeleteChannel { .. } => matches!(event, Event::Done),
        Action::SendMessage { .. } => matches!(event, Event::Created { .. }),
        Action::PinMessage { .. } => matches!(event, Event::Done),
        Action::CreateThread { .. } => matches!(event, Event::Created { .. }),
        Action::Say { .. } => matches!(event, Event::Done),
        Action::GuildOfChannel { .. } => matches!(event, Event::Guild { .. }),
        Action::SendToMesh { .. } => matches!(event, Event::Done),
        Action::Reply { .. } => false,
        Action::Finish => false,
        Action::Abort => false,
    }
}

} // verus!
