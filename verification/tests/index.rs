use meshtastic_bot_discord::index::{index_content, index_step, IndexPhase};
use meshtastic_bot_discord::io::{Action, Event, GuildChannelRow, ThreadRow};

fn row(t: &str, d: &str) -> ThreadRow {
    ThreadRow { thread_id: t.to_string(), destination: d.to_string() }
}

#[test]
fn index_lists_no_thread() {
    assert_eq!(
        index_content(&vec![]),
        "** :satellite: Meshtastic Active Threads**\n\n*No active DMs or secondary channels."
    );
}

#[test]
fn index_lists_threads_in_order() {
    let rows = vec![row("11", "!1234abcd"), row("22", "LongFast")];
    assert_eq!(
        index_content(&rows),
        "** :satellite: Meshtastic Active Threads**\n\n:arrow_right: <#11> - `!1234abcd`\n:arrow_right: <#22> - `LongFast`\n"
    );
}

#[test]
fn index_update_edits_the_pinned_message() {
    let g = "5".to_string();
    let found = Event::GuildChannel {
        row: Some(GuildChannelRow { channel_id: "100".to_string(), index_message_id: Some("200".to_string()) }),
    };
    let (phase, action) = index_step(&g, IndexPhase::AwaitRow, found).unwrap();
    assert_eq!(phase, IndexPhase::AwaitThreads { channel_id: 100, message_id: 200 });
    assert_eq!(action, Action::LoadGuildThreads { guild_id: "5".to_string() });
    let (phase, action) = index_step(&g, phase, Event::Threads { rows: vec![row("7", "!a")] }).unwrap();
    assert_eq!(phase, IndexPhase::AwaitEdit);
    assert_eq!(
        action,
        Action::EditMessage {
            channel_id: 100,
            message_id: 200,
            content: "** :satellite: Meshtastic Active Threads**\n\n:arrow_right: <#7> - `!a`\n".to_string(),
        }
    );
    assert_eq!(index_step(&g, phase, Event::Done), None);
}

#[test]
fn index_update_stops_without_a_usable_row() {
    let g = "5".to_string();
    assert_eq!(index_step(&g, IndexPhase::AwaitRow, Event::GuildChannel { row: None }), None);
    let no_message = GuildChannelRow { channel_id: "100".to_string(), index_message_id: None };
    assert_eq!(index_step(&g, IndexPhase::AwaitRow, Event::GuildChannel { row: Some(no_message) }), None);
    let bad_channel = GuildChannelRow { channel_id: "x".to_string(), index_message_id: Some("1".to_string()) };
    assert_eq!(index_step(&g, IndexPhase::AwaitRow, Event::GuildChannel { row: Some(bad_channel) }), None);
    let bad_message = GuildChannelRow { channel_id: "1".to_string(), index_message_id: Some("-1".to_string()) };
    assert_eq!(index_step(&g, IndexPhase::AwaitRow, Event::GuildChannel { row: Some(bad_message) }), None);
}
