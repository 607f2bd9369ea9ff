use meshtastic_bot_discord::io::{answers_request, Action, Event, GuildChannelRow, ThreadRow};
use meshtastic_bot_discord::mesh::{describe_radio_request, DiscordToMesh, MeshToDiscord};
use meshtastic_bot_discord::registry::command_definitions;
use meshtastic_bot_discord::relay::{begin_relay, relay_step};

fn s(x: &str) -> String {
    x.to_string()
}

fn run(sender: &str, text: &str, is_dm: bool, events: Vec<Event>) -> Vec<Action> {
    let (mut relay, mut pending) = begin_relay(MeshToDiscord::IncomingMessage { sender: s(sender), text: s(text), is_dm });
    let mut actions = vec![];
    for e in events {
        assert!(answers_request(&pending, &e), "{:?} does not answer {:?}", e, pending);
        let (next, act) = relay_step(relay, e);
        actions.push(pending);
        relay = next;
        pending = act;
    }
    actions.push(pending);
    actions
}

#[test]
fn broadcast_goes_to_every_primary_channel() {
    let actions = run(
        "!a",
        "hello",
        false,
        vec![Event::Channels { ids: Some(vec![s("10"), s("20")]) }, Event::Done, Event::Done],
    );
    assert_eq!(
        actions,
        vec![
            Action::LoadAllChannels,
            Action::Say { channel_id: 10, content: s("**[Mesh] !a**: hello") },
            Action::Say { channel_id: 20, content: s("**[Mesh] !a**: hello") },
            Action::Finish,
        ]
    );
}

#[test]
fn relay_stops_when_channels_cannot_be_read() {
    assert_eq!(run("!a", "x", false, vec![Event::Channels { ids: None }]), vec![Action::LoadAllChannels, Action::Finish]);
    assert_eq!(run("!a", "x", true, vec![Event::Channels { ids: Some(vec![]) }]), vec![Action::LoadAllChannels, Action::Finish]);
}

#[test]
fn relay_aborts_on_a_stored_channel_that_is_not_a_number() {
    let actions = run("!a", "x", false, vec![Event::Channels { ids: Some(vec![s("10"), s("ten")]) }, Event::Done]);
    assert_eq!(actions[2], Action::Abort);
}

#[test]
fn direct_message_opens_a_thread_per_channel() {
    let actions = run(
        "!a",
        "psst",
        true,
        vec![
            Event::Channels { ids: Some(vec![s("10"), s("20")]) },
            Event::Created { id: Some(11) },
            Event::Done,
            Event::Guild { id: Some(1) },
            Event::Written { ok: true },
            Event::GuildChannel { row: Some(GuildChannelRow { channel_id: s("10"), index_message_id: Some(s("12")) }) },
            Event::Threads { rows: vec![ThreadRow { thread_id: s("11"), destination: s("!a") }] },
            Event::Done,
            Event::Created { id: None },
        ],
    );
    assert_eq!(
        actions,
        vec![
            Action::LoadAllChannels,
            Action::CreateThread { channel_id: 10, name: s("Mesh DM: !a") },
            Action::Say { channel_id: 11, content: s("**[Mesh DM] !a**: psst") },
            Action::GuildOfChannel { channel_id: 10 },
            Action::InsertThread { thread_id: s("11"), guild_id: s("1"), destination: s("!a") },
            Action::LoadGuildChannel { guild_id: s("1") },
            Action::LoadGuildThreads { guild_id: s("1") },
            Action::EditMessage {
                channel_id: 10,
                message_id: 12,
                content: s("** :satellite: Meshtastic Active Threads**\n\n:arrow_right: <#11> - `!a`\n"),
            },
            Action::CreateThread { channel_id: 20, name: s("Mesh DM: !a") },
            Action::Finish,
        ]
    );
}

#[test]
fn direct_message_without_guild_or_link_moves_on() {
    let no_guild = run(
        "!a",
        "psst",
        true,
        vec![
            Event::Channels { ids: Some(vec![s("10")]) },
            Event::Created { id: Some(11) },
            Event::Done,
            Event::Guild { id: None },
        ],
    );
    assert_eq!(no_guild[4], Action::Finish);
    let no_link = run(
        "!a",
        "psst",
        true,
        vec![
            Event::Channels { ids: Some(vec![s("10")]) },
            Event::Created { id: Some(11) },
            Event::Done,
            Event::Guild { id: Some(3) },
            Event::Written { ok: false },
        ],
    );
    assert_eq!(no_link[5], Action::Finish);
}

#[test]
fn radio_log_lines() {
    assert_eq!(
        describe_radio_request(&DiscordToMesh::Post { destination: Some(s("!a")), message: s("hi") }),
        "(MOCK MESH) Sending 'hi' directly to node/channel !a"
    );
    assert_eq!(
        describe_radio_request(&DiscordToMesh::Post { destination: None, message: s("hi") }),
        "(MOCK MESH) Broadcasting 'hi' to primary channel"
    );
    assert_eq!(describe_radio_request(&DiscordToMesh::Reboot), "(MOCK MESH) Rebooting node...");
}

#[test]
fn registered_commands() {
    let defs = command_definitions();
    let names: Vec<&str> = defs.iter().map(|c| c.name.as_str()).collect();
    assert_eq!(names, vec!["setchannel", "opendm", "post"]);
    assert!(defs[0].options.is_empty());
    assert_eq!(defs[1].options[0].name, "node_id");
    assert!(defs[1].options[0].required);
    assert_eq!(defs[2].options[0].name, "message");
    assert!(defs[2].options[0].required);
    assert_eq!(defs[2].options[1].name, "destination");
    assert!(!defs[2].options[1].required);
    assert_eq!(defs[2].options[1].description, "The Meshtastic Node ID (optional if inside a DM thread)");
}
