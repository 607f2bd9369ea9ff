//! What holds of every run of the bot's machines.
use vstd::prelude::*;
use crate::command::{
    CommandPhase, named_option, option_value, or_empty, channel_saved_reply, command_accepts, command_begin, command_next, delete_from,
    empty_message_reply, existing_thread_reply, lemma_next_thread_id_in_range, link_failed_reply,
    missing_node_reply, no_destination_reply, no_primary_reply, queued_broadcast_reply,
    queued_for_reply, thread_failed_reply, thread_opened_reply, unknown_command_reply,
};
use crate::registry::{OptionSpecText, command_catalog};
use crate::decimal::{decimal, lemma_parse_decimal_of_decimal, parse_decimal};
use crate::mesh::RadioRequest;
use crate::index::{IndexPhase, index_accepts, index_next};
use crate::io::{Answer, GuildChannelText, OptionText, Request, ThreadText, answers, is_final};
use crate::index::{index_text, thread_lines};
use crate::relay::{RelayPhase, RelayView, relay_accepts, relay_begin, relay_enter, relay_next};

verus! {

// ---------------------------------------------------------------------
// Every request can be answered
// ---------------------------------------------------------------------

/// After request `r`, the machine is in a state `s` that takes every answer to
/// `r`; after a final request it is finished.
pub open spec fn command_ready(s: CommandPhase, r: Request) -> bool {
    &&& is_final(r) ==> s is Finished
    &&& !is_final(r) ==> forall|a: Answer| answers(r, a) ==> command_accepts(s, a)
}

/// As `command_ready`, for the relay of a message.
pub open spec fn relay_ready(s: RelayView, r: Request) -> bool {
    &&& is_final(r) ==> s.step is Finished
    &&& !is_final(r) ==> forall|a: Answer| answers(r, a) ==> relay_accepts(s, a)
}

proof fn lemma_index_ready(guild_id: Seq<char>, p: IndexPhase, a: Answer)
    ensures
        index_next(guild_id, p, a) matches Some((q, r)) ==> !is_final(r) && forall|b: Answer|
            answers(r, b) ==> index_accepts(q, b),
{
}

/// A slash command starts with a request that it can take every answer to.
pub proof fn lemma_command_begin_ready(
    name: Seq<char>,
    opts: Seq<OptionText>,
    channel_id: u64,
    guild_id: Option<u64>,
)
    ensures
        command_ready(command_begin(name, opts, channel_id, guild_id).0, command_begin(name, opts, channel_id, guild_id).1),
{
}

/// Each step of a slash command ends in a request that it can take every
/// answer to, or in a final request.
pub proof fn lemma_command_step_ready(s: CommandPhase, a: Answer)
    requires
        command_accepts(s, a),
    ensures
        command_ready(command_next(s, a).0, command_next(s, a).1),
{
    match s {
        CommandPhase::Indexing { guild_id, phase, reply } => {
            lemma_index_ready(guild_id, phase, a);
        },
        _ => {},
    }
}

/// The relay of a message starts with a request that it can take every answer to.
pub proof fn lemma_relay_begin_ready(m: crate::mesh::HeardMessage)
    ensures
        relay_ready(relay_begin(m).0, relay_begin(m).1),
{
}

proof fn lemma_relay_enter_ready(r: RelayView, i: int)
    ensures
        relay_ready(relay_enter(r, i).0, relay_enter(r, i).1),
{
}

/// Each step of a relay ends in a request that it can take every answer to,
/// or in a final request.
pub proof fn lemma_relay_step_ready(r: RelayView, a: Answer)
    requires
        relay_accepts(r, a),
    ensures
        relay_ready(relay_next(r, a).0, relay_next(r, a).1),
{
    lemma_relay_enter_ready(r, r.current + 1);
    match (r.step, a) {
        (RelayPhase::AwaitChannels, Answer::Channels { ids: Some(v) }) => {
            lemma_relay_enter_ready(RelayView { channels: v, ..r }, 0);
        },
        (RelayPhase::Indexing { guild_id, phase }, _) => {
            lemma_index_ready(guild_id, phase, a);
        },
        _ => {},
    }
}

// ---------------------------------------------------------------------
// Every run ends
// ---------------------------------------------------------------------

/// Lexicographic order on pairs of naturals.
pub open spec fn below2(a: (nat, nat), b: (nat, nat)) -> bool {
    a.0 < b.0 || (a.0 == b.0 && a.1 < b.1)
}

/// Lexicographic order on triples of naturals.
pub open spec fn below3(a: (nat, nat, nat), b: (nat, nat, nat)) -> bool {
    a.0 < b.0 || (a.0 == b.0 && below2((a.1, a.2), (b.1, b.2)))
}

/// How far an update of the list of threads is from its end.
pub open spec fn index_rank(p: IndexPhase) -> nat {
    match p {
        IndexPhase::AwaitRow => 3,
        IndexPhase::AwaitThreads { .. } => 2,
        IndexPhase::AwaitEdit => 1,
    }
}

/// How far a slash command is from its end.
pub open spec fn command_rank(s: CommandPhase) -> (nat, nat) {
    match s {
        CommandPhase::Finished => (0, 0),
        CommandPhase::PostQueueing { .. } => (1, 0),
        CommandPhase::PostAwaitPrimary { .. } => (2, 0),
        CommandPhase::PostAwaitThread { .. } => (3, 0),
        CommandPhase::Indexing { phase, .. } => (index_rank(phase), 0),
        CommandPhase::DmAwaitLink { .. } => (4, 0),
        CommandPhase::DmAwaitThread { .. } => (5, 0),
        CommandPhase::DmAwaitPrimary { .. } => (6, 0),
        CommandPhase::DmAwaitExisting { .. } => (7, 0),
        CommandPhase::ChanAwaitSave { .. } => (4, 0),
        CommandPhase::ChanAwaitPin { .. } => (5, 0),
        CommandPhase::ChanAwaitIndex { .. } => (6, 0),
        CommandPhase::ChanAwaitForget { .. } => (7, 0),
        CommandPhase::ChanDeleting { stale, next, .. } => (8, (stale.len() - next) as nat),
        CommandPhase::ChanAwaitStale { .. } => (9, 0),
        CommandPhase::ChanAwaitOldIndex { .. } => (10, 0),
        CommandPhase::ChanAwaitOld { .. } => (11, 0),
    }
}

/// The answer that confirms a request for the radio.
pub open spec fn queued_reply(destination: Option<Seq<char>>) -> Seq<char> {
    match destination {
        Some(d) => queued_for_reply(d),
        None => queued_broadcast_reply(),
    }
}

/// What holds of a slash command between steps: a stale thread still to
/// delete lies within the list, and a `/post` that still looks for its
/// destination carries a message that is not empty.
pub open spec fn command_inv(s: CommandPhase) -> bool {
    match s {
        CommandPhase::ChanDeleting { stale, next, .. } => 0 <= next <= stale.len(),
        CommandPhase::PostAwaitThread { message, .. } => message.len() > 0,
        CommandPhase::PostAwaitPrimary { message } => message.len() > 0,
        _ => true,
    }
}

/// A request for the radio carries a message that is not empty, and the
/// command then answers with the confirmation of where that message went;
/// no other request leads to such an answer.
pub open spec fn radio_request_confirmed(s: CommandPhase, r: Request) -> bool {
    match r {
        Request::SendToMesh { request: RadioRequest::Post { destination, message } } => {
            &&& message.len() > 0
            &&& s == (CommandPhase::PostQueueing { reply: queued_reply(destination) })
        },
        Request::SendToMesh { request: RadioRequest::Reboot } => false,
        _ => !(s is PostQueueing),
    }
}

/// A slash command starts in a state of which its invariant holds, and its
/// first request, if it is for the radio, carries a message and is confirmed.
pub proof fn lemma_command_begin_inv(
    name: Seq<char>,
    opts: Seq<OptionText>,
    channel_id: u64,
    guild_id: Option<u64>,
)
    ensures
        command_inv(command_begin(name, opts, channel_id, guild_id).0),
        radio_request_confirmed(command_begin(name, opts, channel_id, guild_id).0, command_begin(name, opts, channel_id, guild_id).1),
{
}

/// Each step of a slash command keeps its invariant, brings it closer to its
/// end, and makes only confirmed requests for the radio, each with a message.
/// So every slash command ends, after finitely many requests.
pub proof fn lemma_command_step_inv(s: CommandPhase, a: Answer)
    requires
        command_inv(s),
        command_accepts(s, a),
    ensures
        command_inv(command_next(s, a).0),
        below2(command_rank(command_next(s, a).0), command_rank(s)),
        radio_request_confirmed(command_next(s, a).0, command_next(s, a).1),
{
    match (s, a) {
        (CommandPhase::ChanAwaitStale { guild_id, channel_id }, Answer::ThreadIds { ids }) => {
            lemma_next_thread_id_in_range(ids, 0);
        },
        (CommandPhase::ChanDeleting { guild_id, channel_id, stale, next }, _) => {
            lemma_next_thread_id_in_range(stale, next);
        },
        _ => {},
    }
}

/// What holds of a relay between steps: the channel being served is one of
/// the primary channels.
pub open spec fn relay_inv(r: RelayView) -> bool {
    match r.step {
        RelayPhase::AwaitChannels => true,
        RelayPhase::Finished => true,
        _ => 0 <= r.current < r.channels.len(),
    }
}

/// How far a relay is from its end: whether it still waits for the list of
/// channels, how many channels are left, and how far the current channel is
/// from being served.
pub open spec fn relay_rank(r: RelayView) -> (nat, nat, nat) {
    match r.step {
        RelayPhase::AwaitChannels => (1, 0, 0),
        RelayPhase::Finished => (0, 0, 0),
        RelayPhase::AwaitSay => (0, (r.channels.len() - r.current) as nat, 1),
        RelayPhase::Indexing { phase, .. } => (0, (r.channels.len() - r.current) as nat, index_rank(phase)),
        RelayPhase::AwaitLink { .. } => (0, (r.channels.len() - r.current) as nat, 4),
        RelayPhase::AwaitGuild { .. } => (0, (r.channels.len() - r.current) as nat, 5),
        RelayPhase::AwaitThreadSay { .. } => (0, (r.channels.len() - r.current) as nat, 6),
        RelayPhase::AwaitThread { .. } => (0, (r.channels.len() - r.current) as nat, 7),
    }
}

/// A relay starts in a state of which its invariant holds.
pub proof fn lemma_relay_begin_inv(m: crate::mesh::HeardMessage)
    ensures
        relay_inv(relay_begin(m).0),
{
}

/// Each step of a relay keeps its invariant and brings it closer to its end:
/// the channels are served one after the other, each in a bounded number of
/// requests. So every relay ends.
pub proof fn lemma_relay_step_inv(r: RelayView, a: Answer)
    requires
        relay_inv(r),
        relay_accepts(r, a),
    ensures
        relay_inv(relay_next(r, a).0),
        below3(relay_rank(relay_next(r, a).0), relay_rank(r)),
{
}

// ---------------------------------------------------------------------
// Threads are recorded under the ids Discord gave them
// ---------------------------------------------------------------------

/// `/opendm` records the new thread under the id Discord gave it, for the
/// node the command named, and its answer links that same thread.
pub proof fn lemma_opendm_records_new_thread(guild_id: Seq<char>, node_id: Seq<char>, thread: u64)
    ensures
        ({
            let (s, r) = command_next(
                CommandPhase::DmAwaitThread { guild_id, node_id },
                Answer::Created { id: Some(thread) },
            );
            &&& r matches Request::InsertThread { thread_id, guild_id: g, destination }
            &&& parse_decimal(thread_id) == Some(thread)
            &&& g == guild_id
            &&& destination == node_id
            &&& s == (CommandPhase::DmAwaitLink { guild_id, node_id, thread_id })
        }),
{
    lemma_parse_decimal_of_decimal(thread);
}

/// The relay of a direct message records each new thread under the id
/// Discord gave it, in the guild the channel belongs to, for the sender.
pub proof fn lemma_relay_records_new_thread(r: RelayView, thread: u64, guild: u64)
    requires
        r.step == (RelayPhase::AwaitGuild { thread_id: thread }),
    ensures
        ({
            let (s, q) = relay_next(r, Answer::Guild { id: Some(guild) });
            &&& q matches Request::InsertThread { thread_id, guild_id, destination }
            &&& parse_decimal(thread_id) == Some(thread)
            &&& parse_decimal(guild_id) == Some(guild)
            &&& destination == r.sender
            &&& s.step == (RelayPhase::AwaitLink { guild_id })
        }),
{
    lemma_parse_decimal_of_decimal(thread);
    lemma_parse_decimal_of_decimal(guild);
}

// ---------------------------------------------------------------------
// When the bot gives up
// ---------------------------------------------------------------------

/// A slash command gives up at once, without an answer, exactly when
/// `/setchannel` or `/opendm` comes from outside a guild.
pub proof fn lemma_command_begin_abort(
    name: Seq<char>,
    opts: Seq<OptionText>,
    channel_id: u64,
    guild_id: Option<u64>,
)
    ensures
        command_begin(name, opts, channel_id, guild_id).1 is Abort <==> guild_id is None && (name
            == "setchannel"@ || name == "opendm"@),
{
}

/// Whether `/setchannel`, waiting for the guild's stored primary channel, gets
/// one that differs from the command's channel and whose id is 0.
pub open spec fn old_channel_is_zero(s: CommandPhase, a: Answer) -> bool {
    match (s, a) {
        (CommandPhase::ChanAwaitOld { channel_id, .. }, Answer::GuildChannel { row: Some(r) }) =>
            r.channel_id != decimal(channel_id as nat) && parse_decimal(r.channel_id) == Some(0u64),
        _ => false,
    }
}

/// Later, a slash command gives up without an answer exactly when a `/post`
/// from outside a guild found no destination in its thread, when the stored
/// primary channel of `/opendm` is not a number, or when `/setchannel` finds
/// an old primary channel with id 0.
pub proof fn lemma_command_step_abort(s: CommandPhase, a: Answer)
    requires
        command_accepts(s, a),
    ensures
        command_next(s, a).1 is Abort <==> {
            ||| (s matches CommandPhase::PostAwaitThread { guild_id: None, .. } && a == (Answer::Text {
                value: None,
            }))
            ||| s is DmAwaitPrimary && (a matches Answer::Text { value: Some(c) } && parse_decimal(c)
                is None)
            ||| old_channel_is_zero(s, a)
        },
{
}

/// The relay of a message gives up only at a stored primary channel id that
/// is not a number.
pub proof fn lemma_relay_step_abort(r: RelayView, a: Answer)
    requires
        relay_inv(r),
        relay_accepts(r, a),
    ensures
        ({
            let (s, q) = relay_next(r, a);
            q is Abort ==> 0 <= s.current < s.channels.len() && parse_decimal(s.channels[s.current])
                is None
        }),
{
}

// ---------------------------------------------------------------------
// What `/setchannel` removes
// ---------------------------------------------------------------------

/// Requests that remove something that belonged to the old primary channel.
pub open spec fn is_cleanup(r: Request) -> bool {
    r is DeleteMessage || r is DeleteChannel || r is ForgetGuildThreads
}

/// States from which a slash command removes nothing more.
pub open spec fn past_cleanup(s: CommandPhase) -> bool {
    s is ChanAwaitIndex || s is ChanAwaitPin || s is ChanAwaitSave || s is Indexing || s is Finished
}

/// When the guild has no primary channel yet, or it is the channel the
/// command came from, `/setchannel` removes nothing: it goes straight to
/// posting the new list of threads.
pub proof fn lemma_setchannel_same_channel_removes_nothing(
    guild_id: Seq<char>,
    channel_id: u64,
    row: Option<GuildChannelText>,
)
    requires
        row matches Some(r) ==> r.channel_id == decimal(channel_id as nat),
    ensures
        ({
            let (s, q) = command_next(
                CommandPhase::ChanAwaitOld { guild_id, channel_id },
                Answer::GuildChannel { row },
            );
            past_cleanup(s) && !is_cleanup(q)
        }),
{
}

/// Once the new list of threads is being posted, nothing more is removed.
pub proof fn lemma_no_cleanup_after_announce(s: CommandPhase, a: Answer)
    requires
        past_cleanup(s),
    ensures
        past_cleanup(command_next(s, a).0),
        !is_cleanup(command_next(s, a).1),
{
    if let CommandPhase::Indexing { guild_id, phase, reply } = s {
        lemma_index_never_cleans(guild_id, phase, a);
    }
}

proof fn lemma_index_never_cleans(guild_id: Seq<char>, p: IndexPhase, a: Answer)
    ensures
        index_next(guild_id, p, a) matches Some((q, r)) ==> !is_cleanup(r) && !is_final(r),
{
}

// ---------------------------------------------------------------------
// Whole runs of a slash command
// ---------------------------------------------------------------------

/// The states and requests of a slash command that gets the answers in
/// `answers`, one after the other: its first step, then one step per answer.
pub open spec fn command_trace(
    name: Seq<char>,
    opts: Seq<OptionText>,
    channel_id: u64,
    guild_id: Option<u64>,
    answers: Seq<Answer>,
) -> Seq<(CommandPhase, Request)>
    decreases answers.len(),
{
    if answers.len() == 0 {
        seq![command_begin(name, opts, channel_id, guild_id)]
    } else {
        let t = command_trace(name, opts, channel_id, guild_id, answers.drop_last());
        t.push(command_next(t.last().0, answers.last()))
    }
}

proof fn lemma_trace_shape(
    name: Seq<char>,
    opts: Seq<OptionText>,
    channel_id: u64,
    guild_id: Option<u64>,
    answers: Seq<Answer>,
)
    ensures
        ({
            let tr = command_trace(name, opts, channel_id, guild_id, answers);
            &&& tr.len() == answers.len() + 1
            &&& tr[0] == command_begin(name, opts, channel_id, guild_id)
            &&& forall|k: int|
                0 <= k < answers.len() ==> #[trigger] tr[k + 1] == command_next(tr[k].0, answers[k])
        }),
    decreases answers.len(),
{
    if answers.len() > 0 {
        let prev = answers.drop_last();
        lemma_trace_shape(name, opts, channel_id, guild_id, prev);
        let t = command_trace(name, opts, channel_id, guild_id, prev);
        let tr = command_trace(name, opts, channel_id, guild_id, answers);
        assert forall|k: int| 0 <= k < answers.len() implies #[trigger] tr[k + 1] == command_next(
            tr[k].0,
            answers[k],
        ) by {
            if k < answers.len() - 1 {
                assert(tr[k + 1] == t[k + 1]);
                assert(tr[k] == t[k]);
                assert(answers[k] == prev[k]);
            }
        }
    }
}

/// Whether, before position `k` of a run, the run asked for the thread of
/// node `node_id` in guild `guild_id` and was answered that none is known
/// (no such row, or the lookup failed).
pub open spec fn looked_up_none_before(
    tr: Seq<(CommandPhase, Request)>,
    answers: Seq<Answer>,
    k: int,
    guild_id: Seq<char>,
    node_id: Seq<char>,
) -> bool {
    exists|j: int|
        0 <= j < k && #[trigger] tr[j].1 == (Request::FindThreadForNode { guild_id, node_id })
            && answers[j] == (Answer::Text { value: None })
}

/// At position `k` of a run: a thread recorded for a node, and every
/// `/opendm` state past the lookup, come after a lookup for that guild and
/// node that found no thread; a state waiting for that lookup made it.
pub open spec fn dm_lookup_inv(tr: Seq<(CommandPhase, Request)>, answers: Seq<Answer>, k: int) -> bool {
    &&& (tr[k].1 matches Request::InsertThread { guild_id, destination, .. } ==> looked_up_none_before(
        tr,
        answers,
        k,
        guild_id,
        destination,
    ))
    &&& match tr[k].0 {
        CommandPhase::DmAwaitExisting { guild_id, node_id } => tr[k].1 == (Request::FindThreadForNode {
            guild_id,
            node_id,
        }),
        CommandPhase::DmAwaitPrimary { guild_id, node_id } => looked_up_none_before(
            tr,
            answers,
            k,
            guild_id,
            node_id,
        ),
        CommandPhase::DmAwaitThread { guild_id, node_id } => looked_up_none_before(
            tr,
            answers,
            k,
            guild_id,
            node_id,
        ),
        CommandPhase::DmAwaitLink { guild_id, node_id, .. } => looked_up_none_before(
            tr,
            answers,
            k,
            guild_id,
            node_id,
        ),
        _ => true,
    }
}

proof fn lemma_dm_lookup_inv_at(
    name: Seq<char>,
    opts: Seq<OptionText>,
    channel_id: u64,
    guild_id: Option<u64>,
    answers: Seq<Answer>,
    k: int,
)
    requires
        0 <= k <= answers.len(),
    ensures
        dm_lookup_inv(command_trace(name, opts, channel_id, guild_id, answers), answers, k),
    decreases k,
{
    let tr = command_trace(name, opts, channel_id, guild_id, answers);
    lemma_trace_shape(name, opts, channel_id, guild_id, answers);
    if k > 0 {
        lemma_dm_lookup_inv_at(name, opts, channel_id, guild_id, answers, k - 1);
        let m = k - 1;
        assert(tr[m + 1] == command_next(tr[m].0, answers[m]));
        assert(tr[k] == command_next(tr[k - 1].0, answers[k - 1]));
        let s = tr[k - 1].0;
        let a = answers[k - 1];
        match s {
            CommandPhase::DmAwaitExisting { guild_id: g, node_id: n } => {
                if a == (Answer::Text { value: None }) {
                    assert(tr[k - 1].1 == (Request::FindThreadForNode { guild_id: g, node_id: n }));
                    assert(looked_up_none_before(tr, answers, k, g, n));
                }
            },
            CommandPhase::DmAwaitPrimary { guild_id: g, node_id: n } => {
                let j = choose|j: int|
                    0 <= j < k - 1 && #[trigger] tr[j].1 == (Request::FindThreadForNode {
                        guild_id: g,
                        node_id: n,
                    }) && answers[j] == (Answer::Text { value: None });
                assert(looked_up_none_before(tr, answers, k, g, n));
            },
            CommandPhase::DmAwaitThread { guild_id: g, node_id: n } => {
                let j = choose|j: int|
                    0 <= j < k - 1 && #[trigger] tr[j].1 == (Request::FindThreadForNode {
                        guild_id: g,
                        node_id: n,
                    }) && answers[j] == (Answer::Text { value: None });
                assert(looked_up_none_before(tr, answers, k, g, n));
            },
            CommandPhase::DmAwaitLink { guild_id: g, node_id: n, .. } => {
                let j = choose|j: int|
                    0 <= j < k - 1 && #[trigger] tr[j].1 == (Request::FindThreadForNode {
                        guild_id: g,
                        node_id: n,
                    }) && answers[j] == (Answer::Text { value: None });
                assert(looked_up_none_before(tr, answers, k, g, n));
            },
            CommandPhase::Indexing { guild_id: g, phase, reply } => {
                lemma_index_never_cleans(g, phase, a);
                lemma_index_no_insert(g, phase, a);
            },
            _ => {},
        }
    }
}

proof fn lemma_index_no_insert(guild_id: Seq<char>, p: IndexPhase, a: Answer)
    ensures
        index_next(guild_id, p, a) matches Some((q, r)) ==> !(r is InsertThread),
{
}

/// `/opendm` records a thread for a guild and node only after it asked for
/// the thread of that node in that guild and was answered that none is known:
/// either no row matched or the lookup itself failed.
pub proof fn lemma_opendm_inserts_only_after_empty_lookup(
    name: Seq<char>,
    opts: Seq<OptionText>,
    channel_id: u64,
    guild_id: Option<u64>,
    answers: Seq<Answer>,
)
    ensures
        ({
            let tr = command_trace(name, opts, channel_id, guild_id, answers);
            forall|k: int|
                0 <= k < tr.len() ==> (#[trigger] tr[k].1 matches Request::InsertThread {
                    guild_id,
                    destination,
                    ..
                } ==> looked_up_none_before(tr, answers, k, guild_id, destination))
        }),
{
    let tr = command_trace(name, opts, channel_id, guild_id, answers);
    lemma_trace_shape(name, opts, channel_id, guild_id, answers);
    assert forall|k: int| 0 <= k < tr.len() implies (#[trigger] tr[k].1 matches Request::InsertThread {
        guild_id,
        destination,
        ..
    } ==> looked_up_none_before(tr, answers, k, guild_id, destination)) by {
        lemma_dm_lookup_inv_at(name, opts, channel_id, guild_id, answers, k);
    }
}

// ---------------------------------------------------------------------
// Every registered command is handled
// ---------------------------------------------------------------------

/// Whether `name` is one of the slash commands the bot registers.
pub open spec fn is_registered(name: Seq<char>) -> bool {
    exists|i: int| 0 <= i < command_catalog().len() && #[trigger] command_catalog()[i].name == name
}

/// A text that is not the answer to an unknown command: it does not start
/// with the letter that answer starts with.
pub open spec fn not_unknown(t: Seq<char>) -> bool {
    t.len() > 0 && t[0] != 'n'
}

/// The answers a state holds for later are not the answer to an unknown
/// command.
pub open spec fn stored_reply_known(s: CommandPhase) -> bool {
    match s {
        CommandPhase::PostQueueing { reply } => not_unknown(reply),
        CommandPhase::Indexing { reply, .. } => not_unknown(reply),
        _ => true,
    }
}

/// A request that is not the answer to an unknown command.
pub open spec fn request_known(r: Request) -> bool {
    r matches Request::Reply { content } ==> not_unknown(content)
}

proof fn lemma_reply_texts()
    ensures
        unknown_command_reply()[0] == 'n',
        unknown_command_reply().len() > 0,
        not_unknown(empty_message_reply()),
        forall|d: Seq<char>| #[trigger] not_unknown(queued_for_reply(d)),
        not_unknown(queued_broadcast_reply()),
        not_unknown(no_destination_reply()),
        not_unknown(missing_node_reply()),
        forall|n: Seq<char>, t: Seq<char>| #[trigger] not_unknown(existing_thread_reply(n, t)),
        not_unknown(no_primary_reply()),
        forall|n: Seq<char>, t: Seq<char>| #[trigger] not_unknown(thread_opened_reply(n, t)),
        not_unknown(link_failed_reply()),
        not_unknown(thread_failed_reply()),
        not_unknown(channel_saved_reply(true)),
        not_unknown(channel_saved_reply(false)),
{
    reveal_strlit("not implemented :(");
    reveal_strlit("Cannot send an empty message.");
    reveal_strlit("Queued message for `");
    reveal_strlit("Queued message for broadcast on primary channel.");
    reveal_strlit(
        "Could not determine destination. Please provide a `destination`, use this command inside a DM thread, or use it in the primary mesh channel.",
    );
    reveal_strlit("Please provide a valid node ID.");
    reveal_strlit("A thread for `");
    reveal_strlit("Please run `/setchannel` first to designate a primary channel.");
    reveal_strlit("Opened a DM thread for `");
    reveal_strlit("Created the thread, but failed to link it in the database.");
    reveal_strlit("Failed to create thread. Please make sure I have permission to create public threads!");
    reveal_strlit("Okay! I'll use this channel for Mesh messages from now on.");
    reveal_strlit("Oops! I couldn't save your preferences for some reason.");
    assert forall|d: Seq<char>| #[trigger] not_unknown(queued_for_reply(d)) by {
        assert(queued_for_reply(d)[0] == "Queued message for `"@[0]);
    }
    assert forall|n: Seq<char>, t: Seq<char>| #[trigger] not_unknown(existing_thread_reply(n, t)) by {
        assert(existing_thread_reply(n, t)[0] == "A thread for `"@[0]);
    }
    assert forall|n: Seq<char>, t: Seq<char>| #[trigger] not_unknown(thread_opened_reply(n, t)) by {
        assert(thread_opened_reply(n, t)[0] == "Opened a DM thread for `"@[0]);
    }
}

proof fn lemma_registered_names(name: Seq<char>)
    requires
        is_registered(name),
    ensures
        name == "setchannel"@ || name == "opendm"@ || name == "post"@,
{
    let i = choose|i: int| 0 <= i < command_catalog().len() && #[trigger] command_catalog()[i].name == name;
}

proof fn lemma_step_known(s: CommandPhase, a: Answer)
    requires
        stored_reply_known(s),
    ensures
        stored_reply_known(command_next(s, a).0),
        request_known(command_next(s, a).1),
{
    lemma_reply_texts();
    if let CommandPhase::Indexing { guild_id, phase, reply } = s {
        lemma_index_never_cleans(guild_id, phase, a);
    }
}

proof fn lemma_known_at(
    name: Seq<char>,
    opts: Seq<OptionText>,
    channel_id: u64,
    guild_id: Option<u64>,
    answers: Seq<Answer>,
    k: int,
)
    requires
        is_registered(name),
        0 <= k <= answers.len(),
    ensures
        stored_reply_known(command_trace(name, opts, channel_id, guild_id, answers)[k].0),
        request_known(command_trace(name, opts, channel_id, guild_id, answers)[k].1),
    decreases k,
{
    let tr = command_trace(name, opts, channel_id, guild_id, answers);
    lemma_trace_shape(name, opts, channel_id, guild_id, answers);
    if k == 0 {
        lemma_registered_names(name);
        lemma_reply_texts();
    } else {
        lemma_known_at(name, opts, channel_id, guild_id, answers, k - 1);
        let m = k - 1;
        assert(tr[m + 1] == command_next(tr[m].0, answers[m]));
        assert(tr[k] == command_next(tr[k - 1].0, answers[k - 1]));
        lemma_step_known(tr[k - 1].0, answers[k - 1]);
    }
}

/// No run of a registered slash command, whatever answers it gets, answers
/// as for an unknown command.
pub proof fn lemma_registered_commands_are_handled(
    name: Seq<char>,
    opts: Seq<OptionText>,
    channel_id: u64,
    guild_id: Option<u64>,
    answers: Seq<Answer>,
)
    requires
        is_registered(name),
    ensures
        ({
            let tr = command_trace(name, opts, channel_id, guild_id, answers);
            forall|k: int|
                0 <= k < tr.len() ==> #[trigger] tr[k].1 != (Request::Reply {
                    content: unknown_command_reply(),
                })
        }),
{
    let tr = command_trace(name, opts, channel_id, guild_id, answers);
    lemma_trace_shape(name, opts, channel_id, guild_id, answers);
    lemma_reply_texts();
    assert forall|k: int| 0 <= k < tr.len() implies #[trigger] tr[k].1 != (Request::Reply {
        content: unknown_command_reply(),
    }) by {
        lemma_known_at(name, opts, channel_id, guild_id, answers, k);
    }
}

// ---------------------------------------------------------------------
// The list of threads names every thread
// ---------------------------------------------------------------------

/// The list of a guild's threads, when the guild has none, says so; with one
/// thread it is the title and that thread's line; and one more thread adds
/// exactly its own line at the end. So every thread row gets exactly one line,
/// in order, whatever the rows hold.
pub proof fn lemma_index_text_lists_every_row(rows: Seq<ThreadText>, r: ThreadText)
    ensures
        index_text(Seq::empty())
            == "** :satellite: Meshtastic Active Threads**\n\n*No active DMs or secondary channels."@,
        index_text(seq![r]) == "** :satellite: Meshtastic Active Threads**\n\n"@ + (":arrow_right: <#"@
            + r.thread_id + "> - `"@ + r.destination + "`\n"@),
        rows.len() > 0 ==> index_text(rows.push(r)) == index_text(rows) + (":arrow_right: <#"@
            + r.thread_id + "> - `"@ + r.destination + "`\n"@),
{
    reveal_strlit("** :satellite: Meshtastic Active Threads**\n\n*No active DMs or secondary channels.");
    reveal_strlit("** :satellite: Meshtastic Active Threads**\n\n");
    reveal_strlit("*No active DMs or secondary channels.");
    assert(index_text(Seq::empty()) =~= "** :satellite: Meshtastic Active Threads**\n\n*No active DMs or secondary channels."@);
    let one = seq![r];
    assert(one.drop_last() =~= Seq::<ThreadText>::empty());
    assert(thread_lines(one.drop_last()) =~= Seq::<char>::empty());
    assert(thread_lines(one) =~= ":arrow_right: <#"@ + r.thread_id + "> - `"@ + r.destination + "`\n"@);
    if rows.len() > 0 {
        let more = rows.push(r);
        assert(more.drop_last() =~= rows);
        assert(more.last() == r);
        assert(index_text(more) =~= index_text(rows) + (":arrow_right: <#"@ + r.thread_id + "> - `"@
            + r.destination + "`\n"@));
    }
}

// ---------------------------------------------------------------------
// What the registered commands say of themselves
// ---------------------------------------------------------------------

/// Each registered slash command appears once and describes itself:
/// `/setchannel` sets the primary channel and takes no option; `/opendm` opens
/// a DM thread and requires the node id; `/post` sends a message, requires the
/// message and takes an optional destination.
pub proof fn lemma_catalog_describes_each_command(i: int)
    requires
        0 <= i < command_catalog().len(),
    ensures
        command_catalog().len() == 3,
        ({
            let c = command_catalog()[i];
            &&& c.name == "setchannel"@ ==> {
                &&& c.description == "Set the primary channel for mesh messages"@
                &&& c.options.len() == 0
            }
            &&& c.name == "opendm"@ ==> {
                &&& c.description == "Open a DM thread with a node"@
                &&& c.options == seq![
                    OptionSpecText {
                        name: "node_id"@,
                        description: "The Meshtastic Node ID (e.g. !1234abcd)"@,
                        required: true,
                    },
                ]
            }
            &&& c.name == "post"@ ==> {
                &&& c.description == "Send a message to the mesh"@
                &&& c.options == seq![
                    OptionSpecText { name: "message"@, description: "The message to send"@, required: true },
                    OptionSpecText {
                        name: "destination"@,
                        description: "The Meshtastic Node ID (optional if inside a DM thread)"@,
                        required: false,
                    },
                ]
            }
            &&& (c.name == "setchannel"@ || c.name == "opendm"@ || c.name == "post"@)
            &&& forall|j: int| 0 <= j < command_catalog().len() && j != i ==> command_catalog()[j].name != c.name
        }),
{
    reveal_strlit("setchannel");
    reveal_strlit("opendm");
    reveal_strlit("post");
    assert("setchannel"@.len() == 10);
    assert("opendm"@.len() == 6);
    assert("post"@.len() == 4);
}

// ---------------------------------------------------------------------
// A relay serves every primary channel
// ---------------------------------------------------------------------

/// Whether relay state `s` with request `q` serves the channel at `s.current`:
/// a thread named after the sender for a direct message, a post of the text
/// otherwise; it finishes only when no channel is left, and gives up only at a
/// channel id that is not a number.
pub open spec fn serves_current_channel(s: RelayView, q: Request) -> bool {
    if s.current >= s.channels.len() {
        q is Finish
    } else {
        match parse_decimal(s.channels[s.current]) {
            None => q is Abort,
            Some(c) => if s.is_dm {
                &&& q == (Request::CreateThread { channel_id: c, name: "Mesh DM: "@ + s.sender })
                &&& s.step == (RelayPhase::AwaitThread { channel_id: c })
            } else {
                &&& q == (Request::Say {
                    channel_id: c,
                    content: "**[Mesh] "@ + s.sender + "**: "@ + s.text,
                })
                &&& s.step is AwaitSay
            },
        }
    }
}

/// When the thread under a channel cannot be made, when that channel's guild
/// cannot be found, or when the new thread cannot be recorded, the relay goes
/// on with the next channel: it skips only the channel that failed.
pub proof fn lemma_relay_failure_skips_one_channel(r: RelayView, a: Answer)
    requires
        relay_inv(r),
        ({
            ||| (r.step is AwaitThread && a == (Answer::Created { id: None }))
            ||| (r.step is AwaitGuild && a == (Answer::Guild { id: None }))
            ||| (r.step is AwaitLink && a == (Answer::Written { ok: false }))
        }),
    ensures
        ({
            let (s, q) = relay_next(r, a);
            &&& s.current == r.current + 1
            &&& s.channels == r.channels
            &&& s.sender == r.sender
            &&& s.text == r.text
            &&& s.is_dm == r.is_dm
            &&& serves_current_channel(s, q)
        }),
{
}

/// A relay finishes only when the list of channels could not be read or every
/// channel has been served; at each step it stays at its channel or moves to
/// the next one, and when it moves it serves that channel.
pub proof fn lemma_relay_serves_channels_in_order(r: RelayView, a: Answer)
    requires
        relay_inv(r),
        relay_accepts(r, a),
    ensures
        ({
            let (s, q) = relay_next(r, a);
            &&& q is Finish ==> (r.step is AwaitChannels && a == (Answer::Channels { ids: None }))
                || s.current >= s.channels.len()
            &&& r.step is AwaitChannels ==> (a matches Answer::Channels { ids: Some(v) } ==> s.current
                == 0 && s.channels == v && serves_current_channel(s, q))
            &&& !(r.step is AwaitChannels) ==> {
                &&& s.channels == r.channels
                &&& (s.current == r.current || s.current == r.current + 1)
                &&& s.current == r.current + 1 ==> serves_current_channel(s, q)
            }
        }),
{
}

// ---------------------------------------------------------------------
// `/setchannel` forgets the old channel's threads
// ---------------------------------------------------------------------

/// Whether the run asked, before position `k`, to forget the threads of guild
/// `guild_id`.
pub open spec fn forgot_before(tr: Seq<(CommandPhase, Request)>, k: int, guild_id: Seq<char>) -> bool {
    exists|j: int| 0 <= j < k && #[trigger] tr[j].1 == (Request::ForgetGuildThreads { guild_id })
}

/// At position `k` of a `/setchannel` run that found an old primary channel:
/// the run is still cleaning up (for the right guild), is forgetting the
/// guild's threads, or has forgotten them already; and it posts the new list
/// only after forgetting.
pub open spec fn cleanup_inv(tr: Seq<(CommandPhase, Request)>, k: int, g: Seq<char>) -> bool {
    &&& (tr[k].1 is SendMessage ==> forgot_before(tr, k, g))
    &&& match tr[k].0 {
        CommandPhase::ChanAwaitOldIndex { guild_id, .. } => guild_id == g,
        CommandPhase::ChanAwaitStale { guild_id, .. } => guild_id == g,
        CommandPhase::ChanDeleting { guild_id, .. } => guild_id == g,
        CommandPhase::ChanAwaitForget { guild_id, .. } => guild_id == g && tr[k].1
            == (Request::ForgetGuildThreads { guild_id: g }),
        CommandPhase::ChanAwaitIndex { .. } => forgot_before(tr, k, g),
        CommandPhase::ChanAwaitPin { .. } => forgot_before(tr, k, g),
        CommandPhase::ChanAwaitSave { .. } => forgot_before(tr, k, g),
        CommandPhase::Indexing { .. } => forgot_before(tr, k, g),
        CommandPhase::Finished => !(tr[k].1 is SendMessage),
        _ => false,
    }
}

/// Whether a stored `guild_channels` row names an old primary channel, other
/// than `channel_id`, that `/setchannel` must clean up.
pub open spec fn names_other_channel(a: Answer, channel_id: u64) -> bool {
    a matches Answer::GuildChannel { row: Some(r) } && r.channel_id != decimal(channel_id as nat)
        && (parse_decimal(r.channel_id) matches Some(old) && old != 0)
}

proof fn lemma_index_sends_nothing(guild_id: Seq<char>, p: IndexPhase, a: Answer)
    ensures
        index_next(guild_id, p, a) matches Some((q, r)) ==> !(r is SendMessage) && !(r is Reply),
{
}

proof fn lemma_cleanup_inv_at(
    opts: Seq<OptionText>,
    channel_id: u64,
    guild: u64,
    answers: Seq<Answer>,
    k: int,
)
    requires
        answers.len() > 0,
        names_other_channel(answers[0], channel_id),
        1 <= k <= answers.len(),
    ensures
        cleanup_inv(
            command_trace("setchannel"@, opts, channel_id, Some(guild), answers),
            k,
            decimal(guild as nat),
        ),
    decreases k,
{
    let tr = command_trace("setchannel"@, opts, channel_id, Some(guild), answers);
    let g = decimal(guild as nat);
    lemma_trace_shape("setchannel"@, opts, channel_id, Some(guild), answers);
    let m = k - 1;
    assert(tr[m + 1] == command_next(tr[m].0, answers[m]));
    if k == 1 {
        assert(tr[0] == command_begin("setchannel"@, opts, channel_id, Some(guild)));
    } else {
        lemma_cleanup_inv_at(opts, channel_id, guild, answers, k - 1);
        let s = tr[m].0;
        let a = answers[m];
        if forgot_before(tr, m, g) {
            let j = choose|j: int| 0 <= j < m && #[trigger] tr[j].1 == (Request::ForgetGuildThreads {
                guild_id: g,
            });
            assert(forgot_before(tr, k, g));
        }
        match s {
            CommandPhase::ChanAwaitForget { .. } => {
                assert(tr[m].1 == (Request::ForgetGuildThreads { guild_id: g }));
                assert(forgot_before(tr, k, g));
            },
            CommandPhase::ChanAwaitStale { guild_id, channel_id: c } => {
                if let Answer::ThreadIds { ids } = a {
                    lemma_next_thread_id_in_range(ids, 0);
                }
            },
            CommandPhase::ChanDeleting { guild_id, channel_id: c, stale, next } => {
                lemma_next_thread_id_in_range(stale, next);
            },
            CommandPhase::Indexing { guild_id, phase, reply } => {
                lemma_index_sends_nothing(guild_id, phase, a);
            },
            _ => {},
        }
    }
}

/// When `/setchannel` finds a stored primary channel other than the command's
/// channel, with a nonzero numeric id, it asks to forget the guild's threads
/// before it posts the new list of threads, whether or not the stored row has
/// an index message, and whatever the later answers are.
pub proof fn lemma_setchannel_forgets_old_threads_first(
    opts: Seq<OptionText>,
    channel_id: u64,
    guild: u64,
    answers: Seq<Answer>,
)
    requires
        answers.len() > 0,
        names_other_channel(answers[0], channel_id),
    ensures
        ({
            let tr = command_trace("setchannel"@, opts, channel_id, Some(guild), answers);
            forall|k: int|
                0 <= k < tr.len() && (#[trigger] tr[k].1 is SendMessage) ==> forgot_before(
                    tr,
                    k,
                    decimal(guild as nat),
                )
        }),
{
    let tr = command_trace("setchannel"@, opts, channel_id, Some(guild), answers);
    lemma_trace_shape("setchannel"@, opts, channel_id, Some(guild), answers);
    assert forall|k: int| 0 <= k < tr.len() && (#[trigger] tr[k].1 is SendMessage) implies forgot_before(
        tr,
        k,
        decimal(guild as nat),
    ) by {
        if k >= 1 {
            lemma_cleanup_inv_at(opts, channel_id, guild, answers, k);
        }
    }
}

// ---------------------------------------------------------------------
// `/post` sends the message it was given
// ---------------------------------------------------------------------

/// Whether `m` is the string value of the first option called `name`.
pub open spec fn first_option_text(opts: Seq<OptionText>, name: Seq<char>, m: Seq<char>) -> bool {
    exists|i: int|
        0 <= i < opts.len() && #[trigger] opts[i].name == name && opts[i].value == Some(m) && forall|
            j: int,
        |
            0 <= j < i ==> opts[j].name != name
}

proof fn lemma_named_option_is_first(opts: Seq<OptionText>, name: Seq<char>)
    ensures
        option_value(named_option(opts, name)) matches Some(m) ==> first_option_text(opts, name, m),
    decreases opts.len(),
{
    if opts.len() > 0 && opts[0].name != name {
        let rest = opts.drop_first();
        lemma_named_option_is_first(rest, name);
        if let Some(m) = option_value(named_option(rest, name)) {
            let i = choose|i: int|
                0 <= i < rest.len() && #[trigger] rest[i].name == name && rest[i].value == Some(m)
                    && forall|j: int| 0 <= j < i ==> rest[j].name != name;
            assert(opts[i + 1] == rest[i]);
            assert forall|j: int| 0 <= j < i + 1 implies opts[j].name != name by {
                if j > 0 {
                    assert(opts[j] == rest[j - 1]);
                }
            }
            assert(first_option_text(opts, name, m));
        }
    } else if opts.len() > 0 {
        if let Some(m) = option_value(named_option(opts, name)) {
            assert(first_option_text(opts, name, m));
        }
    }
}

/// At position `k` of a `/post` run, the message carried by a waiting state
/// or sent to the radio is the text of the first `message` option.
pub open spec fn post_message_inv(tr: Seq<(CommandPhase, Request)>, k: int, opts: Seq<OptionText>) -> bool {
    &&& (tr[k].1 matches Request::SendToMesh { request: RadioRequest::Post { message, .. } }
        ==> first_option_text(opts, "message"@, message))
    &&& match tr[k].0 {
        CommandPhase::PostAwaitThread { message, .. } => first_option_text(opts, "message"@, message),
        CommandPhase::PostAwaitPrimary { message } => first_option_text(opts, "message"@, message),
        _ => true,
    }
}

proof fn lemma_index_sends_no_post(guild_id: Seq<char>, p: IndexPhase, a: Answer)
    ensures
        index_next(guild_id, p, a) matches Some((q, r)) ==> !(r is SendToMesh),
{
}

proof fn lemma_post_message_inv_at(
    opts: Seq<OptionText>,
    channel_id: u64,
    guild: Option<u64>,
    answers: Seq<Answer>,
    k: int,
)
    requires
        0 <= k <= answers.len(),
    ensures
        post_message_inv(command_trace("post"@, opts, channel_id, guild, answers), k, opts),
    decreases k,
{
    let tr = command_trace("post"@, opts, channel_id, guild, answers);
    lemma_trace_shape("post"@, opts, channel_id, guild, answers);
    if k == 0 {
        lemma_named_option_is_first(opts, "message"@);
        reveal_strlit("post");
        reveal_strlit("setchannel");
        reveal_strlit("opendm");
        assert("post"@.len() == 4);
        assert("setchannel"@.len() == 10);
        assert("opendm"@.len() == 6);
        assert("post"@ != "setchannel"@);
        assert("post"@ != "opendm"@);
    } else {
        let m = k - 1;
        assert(tr[m + 1] == command_next(tr[m].0, answers[m]));
        lemma_post_message_inv_at(opts, channel_id, guild, answers, k - 1);
        if let CommandPhase::Indexing { guild_id, phase, reply } = tr[m].0 {
            lemma_index_sends_no_post(guild_id, phase, answers[m]);
        }
    }
}

/// Whenever `/post` sends a request to the radio, whatever answers it got on
/// the way, the message is exactly the string value of the command's first
/// option called `message`.
pub proof fn lemma_post_sends_the_given_message(
    opts: Seq<OptionText>,
    channel_id: u64,
    guild: Option<u64>,
    answers: Seq<Answer>,
)
    ensures
        ({
            let tr = command_trace("post"@, opts, channel_id, guild, answers);
            forall|k: int|
                0 <= k < tr.len() ==> (#[trigger] tr[k].1 matches Request::SendToMesh {
                    request: RadioRequest::Post { message, .. },
                } ==> first_option_text(opts, "message"@, message))
        }),
{
    let tr = command_trace("post"@, opts, channel_id, guild, answers);
    lemma_trace_shape("post"@, opts, channel_id, guild, answers);
    assert forall|k: int| 0 <= k < tr.len() implies (#[trigger] tr[k].1 matches Request::SendToMesh {
        request: RadioRequest::Post { message, .. },
    } ==> first_option_text(opts, "message"@, message)) by {
        lemma_post_message_inv_at(opts, channel_id, guild, answers, k);
    }
}

// ---------------------------------------------------------------------
// `/opendm` works on the node it was given
// ---------------------------------------------------------------------

/// Whether `node` is the string value of the command's first option.
pub open spec fn first_option_is(opts: Seq<OptionText>, node: Seq<char>) -> bool {
    opts.len() > 0 && opts[0].value == Some(node) && node.len() > 0
}

/// At position `k` of an `/opendm` run in guild `g`: every state and request
/// about a node is about the node of the first option, in that guild, and a
/// new thread is named after that node.
pub open spec fn opendm_node_inv(tr: Seq<(CommandPhase, Request)>, k: int, opts: Seq<OptionText>, g: Seq<char>) -> bool {
    &&& match tr[k].1 {
        Request::FindThreadForNode { guild_id, node_id } => guild_id == g && first_option_is(opts, node_id),
        Request::InsertThread { guild_id, destination, .. } => guild_id == g && first_option_is(
            opts,
            destination,
        ),
        Request::CreateThread { name, .. } => exists|n: Seq<char>|
            first_option_is(opts, n) && #[trigger] ("Mesh DM: "@ + n) == name,
        _ => true,
    }
    &&& match tr[k].0 {
        CommandPhase::DmAwaitExisting { guild_id, node_id } => guild_id == g && first_option_is(opts, node_id),
        CommandPhase::DmAwaitPrimary { guild_id, node_id } => guild_id == g && first_option_is(opts, node_id),
        CommandPhase::DmAwaitThread { guild_id, node_id } => guild_id == g && first_option_is(opts, node_id),
        CommandPhase::DmAwaitLink { guild_id, node_id, .. } => guild_id == g && first_option_is(opts, node_id),
        _ => true,
    }
}

proof fn lemma_index_no_node_request(guild_id: Seq<char>, p: IndexPhase, a: Answer)
    ensures
        index_next(guild_id, p, a) matches Some((q, r)) ==> !(r is FindThreadForNode) && !(r is InsertThread)
            && !(r is CreateThread),
{
}

proof fn lemma_opendm_node_inv_at(
    opts: Seq<OptionText>,
    channel_id: u64,
    guild: u64,
    answers: Seq<Answer>,
    k: int,
)
    requires
        0 <= k <= answers.len(),
    ensures
        opendm_node_inv(command_trace("opendm"@, opts, channel_id, Some(guild), answers), k, opts, decimal(guild as nat)),
    decreases k,
{
    let tr = command_trace("opendm"@, opts, channel_id, Some(guild), answers);
    lemma_trace_shape("opendm"@, opts, channel_id, Some(guild), answers);
    if k == 0 {
        reveal_strlit("setchannel");
        reveal_strlit("opendm");
        assert("setchannel"@.len() == 10);
        assert("opendm"@.len() == 6);
        assert("opendm"@ != "setchannel"@);
    } else {
        let m = k - 1;
        assert(tr[m + 1] == command_next(tr[m].0, answers[m]));
        lemma_opendm_node_inv_at(opts, channel_id, guild, answers, k - 1);
        match tr[m].0 {
            CommandPhase::Indexing { guild_id, phase, reply } => {
                lemma_index_no_node_request(guild_id, phase, answers[m]);
            },
            CommandPhase::DmAwaitPrimary { guild_id, node_id } => {
                assert(("Mesh DM: "@ + node_id) == crate::command::dm_thread_name(node_id));
            },
            _ => {},
        }
    }
}

/// `/opendm` looks up, creates and records the thread of exactly the node
/// given as the command's first option (which must not be empty), in the
/// command's guild, and names the new thread "Mesh DM: " and that node.
pub proof fn lemma_opendm_works_on_the_given_node(
    opts: Seq<OptionText>,
    channel_id: u64,
    guild: u64,
    answers: Seq<Answer>,
)
    ensures
        ({
            let tr = command_trace("opendm"@, opts, channel_id, Some(guild), answers);
            forall|k: int|
                0 <= k < tr.len() ==> #[trigger] opendm_node_inv(tr, k, opts, decimal(guild as nat))
        }),
{
    let tr = command_trace("opendm"@, opts, channel_id, Some(guild), answers);
    lemma_trace_shape("opendm"@, opts, channel_id, Some(guild), answers);
    assert forall|k: int| 0 <= k < tr.len() implies #[trigger] opendm_node_inv(tr, k, opts, decimal(guild as nat)) by {
        lemma_opendm_node_inv_at(opts, channel_id, guild, answers, k);
    }
}

/// In a direct message's thread the relay posts the sender and text, and then
/// asks for the guild of the channel the thread was opened under.
pub proof fn lemma_relay_posts_the_dm_in_its_thread(r: RelayView, channel_id: u64, thread: u64)
    requires
        r.step == (RelayPhase::AwaitThread { channel_id }),
    ensures
        ({
            let (s, q) = relay_next(r, Answer::Created { id: Some(thread) });
            &&& q == (Request::Say { channel_id: thread, content: "**[Mesh DM] "@ + r.sender + "**: "@ + r.text })
            &&& s.current == r.current
            &&& relay_next(s, Answer::Done).1 == (Request::GuildOfChannel { channel_id })
        }),
{
}

} // verus!
