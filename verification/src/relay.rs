//! Relaying a message heard on the radio into the primary channel of every
//! guild: as a message, or, for a direct message, in a new thread.
use vstd::prelude::*;
use crate::command::{dm_thread_name, dm_thread_title};
use crate::decimal::{decimal, format_u64, parse_decimal, parse_u64};
use crate::index::{IndexPhase, index_next, index_step, update_index_message};
use crate::io::{Action, Answer, Event, Request, texts};
use crate::mesh::{HeardMessage, MeshToDiscord};
use crate::text::join4;

verus! {

/// Where the relay of a message stands at the current primary channel.
#[derive(Debug)]
#[allow(inconsistent_fields)]
pub enum RelayStep {
    /// Waiting for the list of primary channels.
    AwaitChannels,
    /// Waiting for the message to be posted in the channel.
    AwaitSay,
    /// Waiting for a new thread under the channel.
    AwaitThread { channel_id: u64 },
    /// Waiting for the message to be posted in the new thread.
    AwaitThreadSay { channel_id: u64, thread_id: u64 },
    /// Waiting for the guild of the channel.
    AwaitGuild { thread_id: u64 },
    /// Waiting for the new thread to be recorded for the guild.
    AwaitLink { guild_id: String },
    /// Bringing the guild's list of threads up to date.
    Indexing { guild_id: String, phase: IndexPhase },
    /// The relay has made its last request.
    Finished,
}

/// The relay of one message heard on the radio.
#[derive(Debug)]
pub struct Relay {
    sender: String,
    text: String,
    is_dm: bool,
    /// The primary channel ids of all guilds, as stored.
    channels: Vec<String>,
    /// The position in `channels` of the channel being served.
    current: usize,
    step: RelayStep,
}

impl Relay {
    /// While a channel is being served, its position is that of a channel.
    #[verifier::type_invariant]
    spec fn well_formed(self) -> bool {
        match self.step {
            RelayStep::AwaitChannels => true,
            RelayStep::Finished => true,
            _ => self.current < self.channels.len(),
        }
    }
}

/// What the step of a relay says.
#[allow(inconsistent_fields)]
pub enum RelayPhase {
    AwaitChannels,
    AwaitSay,
    AwaitThread { channel_id: u64 },
    AwaitThreadSay { channel_id: u64, thread_id: u64 },
    AwaitGuild { thread_id: u64 },
    AwaitLink { guild_id: Seq<char> },
    Indexing { guild_id: Seq<char>, phase: IndexPhase },
    Finished,
}

/// What a relay says.
pub struct RelayView {
    pub sender: Seq<char>,
    pub text: Seq<char>,
    pub is_dm: bool,
    pub channels: Seq<Seq<char>>,
    pub current: int,
    pub step: RelayPhase,
}

impl View for RelayStep {
    type V = RelayPhase;

    open spec fn view(&self) -> RelayPhase {
        match self {
            RelayStep::AwaitChannels => RelayPhase::AwaitChannels,
            RelayStep::AwaitSay => RelayPhase::AwaitSay,
            RelayStep::AwaitThread { channel_id } => RelayPhase::AwaitThread { channel_id: *channel_id },
            RelayStep::AwaitThreadSay { channel_id, thread_id } =>
                RelayPhase::AwaitThreadSay { channel_id: *channel_id, thread_id: *thread_id },
            RelayStep::AwaitGuild { thread_id } => RelayPhase::AwaitGuild { thread_id: *thread_id },
            RelayStep::AwaitLink { guild_id } => RelayPhase::AwaitLink { guild_id: guild_id@ },
            RelayStep::Indexing { guild_id, phase } =>
                RelayPhase::Indexing { guild_id: guild_id@, phase: *phase },
            RelayStep::Finished => RelayPhase::Finished,
        }
    }
}

impl View for Relay {
    type V = RelayView;

    closed spec fn view(&self) -> RelayView {
        RelayView {
            sender: self.sender@,
            text: self.text@,
            is_dm: self.is_dm,
            channels: texts(self.channels@),
            current: self.current as int,
            step: self.step@,
        }
    }
}

/// How a message heard on the radio reads in a primary channel.
pub open spec fn channel_post(sender: Seq<char>, text: Seq<char>) -> Seq<char> {
    "**[Mesh] "@ + sender + "**: "@ + text
}

/// How a direct message heard on the radio reads in its thread.
pub open spec fn thread_post(sender: Seq<char>, text: Seq<char>) -> Seq<char> {
    "**[Mesh DM] "@ + sender + "**: "@ + text
}

/// Whether a relay in state `r` can take the answer `a` next.
pub open spec fn relay_accepts(r: RelayView, a: Answer) -> bool {
    match r.step {
        RelayPhase::AwaitChannels => a is Channels,
        RelayPhase::AwaitSay => a is Done,
        RelayPhase::AwaitThread { .. } => a is Created,
        RelayPhase::AwaitThreadSay { .. } => a is Done,
        RelayPhase::AwaitGuild { .. } => a is Guild,
        RelayPhase::AwaitLink { .. } => a is Written,
        RelayPhase::Indexing { phase, .. } => crate::index::index_accepts(phase, a),
        RelayPhase::Finished => false,
    }
}

/// The first step of the relay of `m`: ask for every primary channel.
pub open spec fn relay_begin(m: HeardMessage) -> (RelayView, Request) {
    (
        RelayView {
            sender: m.sender,
            text: m.text,
            is_dm: m.is_dm,
            channels: Seq::empty(),
            current: 0,
            step: RelayPhase::AwaitChannels,
        },
        Request::LoadAllChannels,
    )
}

/// Serve the primary channel at position `i`, or finish when none is left. A
/// stored id that is not a number stops the relay for good.
pub open spec fn relay_enter(r: RelayView, i: int) -> (RelayView, Request) {
    if i >= r.channels.len() {
        (RelayView { current: i, step: RelayPhase::Finished, ..r }, Request::Finish)
    } else {
        match parse_decimal(r.channels[i]) {
            None => (RelayView { current: i, step: RelayPhase::Finished, ..r }, Request::Abort),
            Some(c) => if r.is_dm {
                (
                    RelayView { current: i, step: RelayPhase::AwaitThread { channel_id: c }, ..r },
                    Request::CreateThread { channel_id: c, name: dm_thread_name(r.sender) },
                )
            } else {
                (
                    RelayView { current: i, step: RelayPhase::AwaitSay, ..r },
                    Request::Say { channel_id: c, content: channel_post(r.sender, r.text) },
                )
            },
        }
    }
}

/// The next state and request of a relay in state `r` that gets the answer `a`.
pub open spec fn relay_next(r: RelayView, a: Answer) -> (RelayView, Request) {
    let next = r.current + 1;
    match (r.step, a) {
        (RelayPhase::AwaitChannels, Answer::Channels { ids }) => match ids {
            Some(v) => relay_enter(RelayView { channels: v, ..r }, 0),
            None => (RelayView { step: RelayPhase::Finished, ..r }, Request::Finish),
        },
        (RelayPhase::AwaitSay, Answer::Done) => relay_enter(r, next),
        (RelayPhase::AwaitThread { channel_id }, Answer::Created { id }) => match id {
            Some(t) => (
                RelayView {
                    step: RelayPhase::AwaitThreadSay { channel_id, thread_id: t },
                    ..r
                },
                Request::Say { channel_id: t, content: thread_post(r.sender, r.text) },
            ),
            None => relay_enter(r, next),
        },
        (RelayPhase::AwaitThreadSay { channel_id, thread_id }, Answer::Done) => (
            RelayView { step: RelayPhase::AwaitGuild { thread_id }, ..r },
            Request::GuildOfChannel { channel_id },
        ),
        (RelayPhase::AwaitGuild { thread_id }, Answer::Guild { id }) => match id {
            Some(g) => (
                RelayView { step: RelayPhase::AwaitLink { guild_id: decimal(g as nat) }, ..r },
                Request::InsertThread {
                    thread_id: decimal(thread_id as nat),
                    guild_id: decimal(g as nat),
                    destination: r.sender,
                },
            ),
            None => relay_enter(r, next),
        },
        (RelayPhase::AwaitLink { guild_id }, Answer::Written { ok }) => if ok {
            (
                RelayView { step: RelayPhase::Indexing { guild_id, phase: IndexPhase::AwaitRow }, ..r },
                Request::LoadGuildChannel { guild_id },
            )
        } else {
            relay_enter(r, next)
        },
        (RelayPhase::Indexing { guild_id, phase }, _) => match index_next(guild_id, phase, a) {
            Some((q, req)) => (
                RelayView { step: RelayPhase::Indexing { guild_id, phase: q }, ..r },
                req,
            ),
            None => relay_enter(r, next),
        },
        _ => (RelayView { step: RelayPhase::Finished, ..r }, Request::Abort),
    }
}

/// The first step of the relay of a message heard on the radio.
pub fn begin_relay(m: MeshToDiscord) -> (r: (Relay, Action))
    ensures
        (r.0@, r.1@) == relay_begin(m@),
{
    match m {
        MeshToDiscord::IncomingMessage { sender, text, is_dm } => {
            let relay = Relay {
                sender,
                text,
                is_dm,
                channels: Vec::new(),
                current: 0,
                step: RelayStep::AwaitChannels,
            };
            assert(relay@.channels =~= Seq::<Seq<char>>::empty());
            (relay, Action::LoadAllChannels)
        },
    }
}

fn enter(relay: Relay, i: usize) -> (r: (Relay, Action))
    requires
        i <= relay@.channels.len(),
    ensures
        (r.0@, r.1@) == relay_enter(relay@, i as int),
{
    let ghost before = relay@;
    let Relay { sender, text, is_dm, channels, current: _, step: _ } = relay;
    if i >= channels.len() {
        let relay = Relay { sender, text, is_dm, channels, current: i, step: RelayStep::Finished };
        return (relay, Action::Finish);
    }
    assert(before.channels[i as int] == channels@[i as int]@);
    match parse_u64(channels[i].as_str()) {
        None => {
            let relay = Relay { sender, text, is_dm, channels, current: i, step: RelayStep::Finished };
            (relay, Action::Abort)
        },
        Some(c) => {
            if is_dm {
                let name = dm_thread_title(sender.as_str());
                let relay = Relay {
                    sender,
                    text,
                    is_dm,
                    channels,
                    current: i,
                    step: RelayStep::AwaitThread { channel_id: c },
                };
                (relay, Action::CreateThread { channel_id: c, name })
            } else {
                let content = join4("**[Mesh] ", sender.as_str(), "**: ", text.as_str());
                let relay = Relay { sender, text, is_dm, channels, current: i, step: RelayStep::AwaitSay };
                (relay, Action::Say { channel_id: c, content })
            }
        },
    }
}

/// Serve the channel after the current one.
fn enter_next(relay: Relay) -> (r: (Relay, Action))
    requires
        0 <= relay@.current < relay@.channels.len(),
    ensures
        (r.0@, r.1@) == relay_enter(relay@, relay@.current + 1),
{
    let n = relay.channels.len();
    assert(relay@.channels.len() == n);
    let i = relay.current + 1;
    enter(relay, i)
}

/// The next step of the relay `relay` that gets `event`.
pub fn relay_step(relay: Relay, event: Event) -> (r: (Relay, Action))
    ensures
        (r.0@, r.1@) == relay_next(relay@, event@),
{
    proof {
        use_type_invariant(&relay);
    }
    let ghost before = relay@;
    let Relay { sender, text, is_dm, channels, current, step } = relay;
    match step {
        RelayStep::AwaitChannels => match event {
            Event::Channels { ids: Some(v) } => {
                let relay = Relay { sender, text, is_dm, channels: v, current: 0, step: RelayStep::AwaitChannels };
                enter(relay, 0)
            },
            Event::Channels { ids: None } => {
                let relay = Relay { sender, text, is_dm, channels, current, step: RelayStep::Finished };
                (relay, Action::Finish)
            },
            _ => {
                let relay = Relay { sender, text, is_dm, channels, current, step: RelayStep::Finished };
                (relay, Action::Abort)
            },
        },
        RelayStep::AwaitSay => match event {
            Event::Done => {
                let relay = Relay { sender, text, is_dm, channels, current, step: RelayStep::AwaitSay };
                enter_next(relay)
            },
            _ => {
                let relay = Relay { sender, text, is_dm, channels, current, step: RelayStep::Finished };
                (relay, Action::Abort)
            },
        },
        RelayStep::AwaitThread { channel_id } => match event {
            Event::Created { id: Some(t) } => {
                let content = join4("**[Mesh DM] ", sender.as_str(), "**: ", text.as_str());
                let relay = Relay {
                    sender,
                    text,
                    is_dm,
                    channels,
                    current,
                    step: RelayStep::AwaitThreadSay { channel_id, thread_id: t },
                };
                (relay, Action::Say { channel_id: t, content })
            },
            Event::Created { id: None } => {
                let relay = Relay { sender, text, is_dm, channels, current, step: RelayStep::AwaitSay };
                enter_next(relay)
            },
            _ => {
                let relay = Relay { sender, text, is_dm, channels, current, step: RelayStep::Finished };
                (relay, Action::Abort)
            },
        },
        RelayStep::AwaitThreadSay { channel_id, thread_id } => match event {
            Event::Done => {
                let relay = Relay {
                    sender,
                    text,
                    is_dm,
                    channels,
                    current,
                    step: RelayStep::AwaitGuild { thread_id },
                };
                (relay, Action::GuildOfChannel { channel_id })
            },
            _ => {
                let relay = Relay { sender, text, is_dm, channels, current, step: RelayStep::Finished };
                (relay, Action::Abort)
            },
        },
        RelayStep::AwaitGuild { thread_id } => match event {
            Event::Guild { id: Some(g) } => {
                let guild_id = format_u64(g);
                let action = Action::InsertThread {
                    thread_id: format_u64(thread_id),
                    guild_id: guild_id.clone(),
                    destination: sender.clone(),
                };
                let relay = Relay {
                    sender,
                    text,
                    is_dm,
                    channels,
                    current,
                    step: RelayStep::AwaitLink { guild_id },
                };
                (relay, action)
            },
            Event::Guild { id: None } => {
                let relay = Relay { sender, text, is_dm, channels, current, step: RelayStep::AwaitSay };
                enter_next(relay)
            },
            _ => {
                let relay = Relay { sender, text, is_dm, channels, current, step: RelayStep::Finished };
                (relay, Action::Abort)
            },
        },
        RelayStep::AwaitLink { guild_id } => match event {
            Event::Written { ok: true } => {
                let (phase, action) = update_index_message(&guild_id);
                let relay = Relay {
                    sender,
                    text,
                    is_dm,
                    channels,
                    current,
                    step: RelayStep::Indexing { guild_id, phase },
                };
                (relay, action)
            },
            Event::Written { ok: false } => {
                let relay = Relay { sender, text, is_dm, channels, current, step: RelayStep::AwaitSay };
                enter_next(relay)
            },
            _ => {
                let relay = Relay { sender, text, is_dm, channels, current, step: RelayStep::Finished };
                (relay, Action::Abort)
            },
        },
        RelayStep::Indexing { guild_id, phase } => match index_step(&guild_id, phase, event) {
            Some((q, action)) => {
                let relay = Relay {
                    sender,
                    text,
                    is_dm,
                    channels,
                    current,
                    step: RelayStep::Indexing { guild_id, phase: q },
                };
                (relay, action)
            },
            None => {
                let relay = Relay { sender, text, is_dm, channels, current, step: RelayStep::AwaitSay };
                enter_next(relay)
            },
        },
        RelayStep::Finished => {
            let relay = Relay { sender, text, is_dm, channels, current, step: RelayStep::Finished };
            (relay, Action::Abort)
        },
    }
}

} // verus!
