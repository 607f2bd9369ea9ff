//! The pinned message of a guild's primary channel that lists the guild's
//! threads, and the machine that brings it up to date.
use vstd::prelude::*;
use crate::decimal::{parse_decimal, parse_u64};
use crate::io::{Action, Answer, Event, Request, ThreadRow, ThreadText, thread_texts};

verus! {

/// The first lines of the list of threads.
pub open spec fn index_title() -> Seq<char> {
    "** :satellite: Meshtastic Active Threads**\n\n"@
}

/// The line that lists one thread: a link to it and its destination.
pub open spec fn thread_line(r: ThreadText) -> Seq<char> {
    ":arrow_right: <#"@ + r.thread_id + "> - `"@ + r.destination + "`\n"@
}

/// The lines of several threads, in the order given.
pub open spec fn thread_lines(rows: Seq<ThreadText>) -> Seq<char>
    decreases rows.len(),
{
    if rows.len() == 0 {
        Seq::empty()
    } else {
        thread_lines(rows.drop_last()) + thread_line(rows.last())
    }
}

/// The text of the list of a guild's threads.
pub open spec fn index_text(rows: Seq<ThreadText>) -> Seq<char> {
    if rows.len() == 0 {
        index_title() + "*No active DMs or secondary channels."@
    } else {
        index_title() + thread_lines(rows)
    }
}

/// Writes the list of a guild's threads.
pub fn index_content(rows: &Vec<ThreadRow>) -> (content: String)
    ensures
        content@ == index_text(thread_texts(rows@)),
{
    let mut content = String::from_str("** :satellite: Meshtastic Active Threads**\n\n");
    if rows.len() == 0 {
        content.append("*No active DMs or secondary channels.");
        return content;
    }
    let ghost all = thread_texts(rows@);
    let mut i: usize = 0;
    while i < rows.len()
        invariant
            i <= rows.len(),
            all == thread_texts(rows@),
            content@ == index_title() + thread_lines(all.take(i as int)),
        decreases rows.len() - i,
    {
        let r = &rows[i];
        content.append(":arrow_right: <#");
        content.append(r.thread_id.as_str());
        content.append("> - `");
        content.append(r.destination.as_str());
        content.append("`\n");
        proof {
            let t = all.take(i + 1);
            assert(t.drop_last() =~= all.take(i as int));
            assert(t.last() == r@);
        }
        i = i + 1;
    }
    assert(all.take(rows.len() as int) =~= all);
    content
}

/// Where the update of the list stands.
#[derive(Debug, Clone, Copy, PartialEq, Eq)]
pub enum IndexPhase {
    /// Waiting for the guild's `guild_channels` row.
    AwaitRow,
    /// Waiting for the guild's threads, to write into the given message.
    AwaitThreads { channel_id: u64, message_id: u64 },
    /// Waiting for the message to be edited.
    AwaitEdit,
}

/// The first request of an update of the list of a guild's threads.
pub open spec fn index_start(guild_id: Seq<char>) -> Request {
    Request::LoadGuildChannel { guild_id }
}

/// Whether an update of the list in phase `p` can take `a` next.
pub open spec fn index_accepts(p: IndexPhase, a: Answer) -> bool {
    match p {
        IndexPhase::AwaitRow => a is GuildChannel,
        IndexPhase::AwaitThreads { .. } => a is Threads,
        IndexPhase::AwaitEdit => a is Done,
    }
}

/// The next phase and request of an update of the list of a guild's threads,
/// or `None` when the update is over. It goes ahead only where the guild has a
/// primary channel and an index message whose ids are numbers.
pub open spec fn index_next(guild_id: Seq<char>, p: IndexPhase, a: Answer) -> Option<
    (IndexPhase, Request),
> {
    match (p, a) {
        (IndexPhase::AwaitRow, Answer::GuildChannel { row: Some(r) }) => {
            match (parse_decimal(r.channel_id), r.index_message_id) {
                (Some(c), Some(m)) => match parse_decimal(m) {
                    Some(mid) => Some(
                        (
                            IndexPhase::AwaitThreads { channel_id: c, message_id: mid },
                            Request::LoadGuildThreads { guild_id },
                        ),
                    ),
                    None => None,
                },
                _ => None,
            }
        },
        (IndexPhase::AwaitThreads { channel_id, message_id }, Answer::Threads { rows }) => Some(
            (
                IndexPhase::AwaitEdit,
                Request::EditMessage { channel_id, message_id, content: index_text(rows) },
            ),
        ),
        _ => None,
    }
}

/// The first step of an update of the list of a guild's threads.
pub fn update_index_message(guild_id: &String) -> (r: (IndexPhase, Action))
    ensures
        r.0 == IndexPhase::AwaitRow,
        r.1@ == index_start(guild_id@),
{
    (IndexPhase::AwaitRow, Action::LoadGuildChannel { guild_id: guild_id.clone() })
}

/// One step of an update of the list of a guild's threads.
pub fn index_step(guild_id: &String, p: IndexPhase, event: Event) -> (r: Option<(IndexPhase, Action)>)
    ensures
        match (r, index_next(guild_id@, p, event@)) {
            (Some((q, act)), Some((q2, req))) => q == q2 && act@ == req,
            (None, None) => true,
            _ => false,
        },
{
    match p {
        IndexPhase::AwaitRow => match event {
            Event::GuildChannel { row: Some(row) } => {
                let cid = parse_u64(row.channel_id.as_str());
                match (cid, row.index_message_id) {
                    (Some(c), Some(m)) => match parse_u64(m.as_str()) {
                        Some(mid) => Some(
                            (
                                IndexPhase::AwaitThreads { channel_id: c, message_id: mid },
                                Action::LoadGuildThreads { guild_id: guild_id.clone() },
                            ),
                        ),
                        None => None,
                    },
                    _ => None,
                }
            },
            _ => None,
        },
        IndexPhase::AwaitThreads { channel_id, message_id } => match event {
            Event::Threads { rows } => {
                let content = index_content(&rows);
                Some((IndexPhase::AwaitEdit, Action::EditMessage { channel_id, message_id, content }))
            },
            _ => None,
        },
        IndexPhase::AwaitEdit => None,
    }
}

} // verus!
