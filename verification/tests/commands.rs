use meshtastic_bot_discord::command::{
    begin_command, command_step, handle_opendm, handle_post, handle_setchannel, named_option_value, CommandState,
};
use meshtastic_bot_discord::index::{update_index_message, IndexPhase};
use meshtastic_bot_discord::io::{answers_request, Action, CommandOption, Event, GuildChannelRow, ThreadRow};
use meshtastic_bot_discord::mesh::DiscordToMesh;
use meshtastic_bot_discord::registry::command_definitions;

fn opt(name: &str, value: &str) -> CommandOption {
    CommandOption { name: name.to_string(), value: Some(value.to_string()) }
}

fn s(x: &str) -> String {
    x.to_string()
}

/// Runs a command, answering its requests with `events` in turn; returns
/// every request it made.
fn run(name: &str, options: Vec<CommandOption>, channel: u64, guild: Option<u64>, events: Vec<Event>) -> Vec<Action> {
    let (mut state, action) = begin_command(name, &options, channel, guild);
    let mut actions = vec![];
    let mut pending = action;
    for e in events {
        assert!(answers_request(&pending, &e), "{:?} does not answer {:?}", e, pending);
        let (next, act) = command_step(state, e);
        actions.push(pending);
        state = next;
        pending = act;
    }
    actions.push(pending);
    assert!(matches!(state, CommandState::Finished));
    actions
}

fn reply(x: &str) -> Action {
    Action::Reply { content: x.to_string() }
}

#[test]
fn unknown_command_is_not_implemented() {
    assert_eq!(run("reboot", vec![], 1, Some(2), vec![]), vec![reply("not implemented :(")]);
}

#[test]
fn option_lookup_takes_the_first_option_of_that_name() {
    let options = vec![
        CommandOption { name: s("destination"), value: None },
        opt("message", "first"),
        opt("message", "second"),
    ];
    assert_eq!(named_option_value(&options, "message"), Some(s("first")));
    assert_eq!(named_option_value(&options, "destination"), None);
    assert_eq!(named_option_value(&options, "other"), None);
}

#[test]
fn post_without_message_is_refused() {
    assert_eq!(run("post", vec![], 1, Some(2), vec![]), vec![reply("Cannot send an empty message.")]);
    assert_eq!(
        run("post", vec![opt("message", ""), opt("destination", "!a")], 1, Some(2), vec![]),
        vec![reply("Cannot send an empty message.")]
    );
}

#[test]
fn post_with_destination_is_queued_for_it() {
    let actions = run("post", vec![opt("message", "hi"), opt("destination", "!1234abcd")], 1, Some(2), vec![Event::Done]);
    assert_eq!(
        actions,
        vec![
            Action::SendToMesh { request: DiscordToMesh::Post { destination: Some(s("!1234abcd")), message: s("hi") } },
            reply("Queued message for `!1234abcd`."),
        ]
    );
}

#[test]
fn post_in_dm_thread_goes_to_its_node() {
    let actions = run(
        "post",
        vec![opt("message", "hi")],
        77,
        Some(2),
        vec![Event::Text { value: Some(s("!beef")) }, Event::Done],
    );
    assert_eq!(
        actions,
        vec![
            Action::FindThreadDestination { thread_id: s("77") },
            Action::SendToMesh { request: DiscordToMesh::Post { destination: Some(s("!beef")), message: s("hi") } },
            reply("Queued message for `!beef`."),
        ]
    );
}

#[test]
fn post_in_primary_channel_is_broadcast() {
    let actions = run(
        "post",
        vec![opt("message", "hello mesh")],
        77,
        Some(2),
        vec![Event::Text { value: None }, Event::Found { found: true }, Event::Done],
    );
    assert_eq!(
        actions,
        vec![
            Action::FindThreadDestination { thread_id: s("77") },
            Action::IsPrimaryChannel { guild_id: s("2"), channel_id: s("77") },
            Action::SendToMesh { request: DiscordToMesh::Post { destination: None, message: s("hello mesh") } },
            reply("Queued message for broadcast on primary channel."),
        ]
    );
}

#[test]
fn post_elsewhere_has_no_destination() {
    let actions = run(
        "post",
        vec![opt("message", "hi")],
        77,
        Some(2),
        vec![Event::Text { value: None }, Event::Found { found: false }],
    );
    assert_eq!(actions[2], reply("Could not determine destination. Please provide a `destination`, use this command inside a DM thread, or use it in the primary mesh channel."));
}

#[test]
fn post_outside_a_guild_without_destination_aborts() {
    let actions = run("post", vec![opt("message", "hi")], 77, None, vec![Event::Text { value: None }]);
    assert_eq!(actions[1], Action::Abort);
}

#[test]
fn guild_commands_outside_a_guild_abort() {
    assert_eq!(run("setchannel", vec![], 1, None, vec![]), vec![Action::Abort]);
    assert_eq!(run("opendm", vec![opt("node_id", "!a")], 1, None, vec![]), vec![Action::Abort]);
}

#[test]
fn opendm_needs_a_node() {
    assert_eq!(run("opendm", vec![], 1, Some(2), vec![]), vec![reply("Please provide a valid node ID.")]);
    let not_text = CommandOption { name: s("node_id"), value: None };
    assert_eq!(run("opendm", vec![not_text], 1, Some(2), vec![]), vec![reply("Please provide a valid node ID.")]);
}

#[test]
fn opendm_reuses_an_existing_thread() {
    let actions = run("opendm", vec![opt("node_id", "!a")], 1, Some(2), vec![Event::Text { value: Some(s("99")) }]);
    assert_eq!(
        actions,
        vec![
            Action::FindThreadForNode { guild_id: s("2"), node_id: s("!a") },
            reply("A thread for `!a` already exists: <#99>"),
        ]
    );
}

#[test]
fn opendm_needs_a_primary_channel() {
    let actions = run(
        "opendm",
        vec![opt("node_id", "!a")],
        1,
        Some(2),
        vec![Event::Text { value: None }, Event::Text { value: None }],
    );
    assert_eq!(actions[2], reply("Please run `/setchannel` first to designate a primary channel."));
}

#[test]
fn opendm_aborts_on_a_stored_channel_that_is_not_a_number() {
    let actions = run(
        "opendm",
        vec![opt("node_id", "!a")],
        1,
        Some(2),
        vec![Event::Text { value: None }, Event::Text { value: Some(s("abc")) }],
    );
    assert_eq!(actions[2], Action::Abort);
}

#[test]
fn opendm_opens_records_and_lists_a_thread() {
    let actions = run(
        "opendm",
        vec![opt("node_id", "!a"), opt("other", "x")],
        1,
        Some(2),
        vec![
            Event::Text { value: None },
            Event::Text { value: Some(s("500")) },
            Event::Created { id: Some(600) },
            Event::Written { ok: true },
            Event::GuildChannel { row: Some(GuildChannelRow { channel_id: s("500"), index_message_id: Some(s("700")) }) },
            Event::Threads { rows: vec![ThreadRow { thread_id: s("600"), destination: s("!a") }] },
            Event::Done,
        ],
    );
    assert_eq!(
        actions,
        vec![
            Action::FindThreadForNode { guild_id: s("2"), node_id: s("!a") },
            Action::FindPrimaryChannel { guild_id: s("2") },
            Action::CreateThread { channel_id: 500, name: s("Mesh DM: !a") },
            Action::InsertThread { thread_id: s("600"), guild_id: s("2"), destination: s("!a") },
            Action::LoadGuildChannel { guild_id: s("2") },
            Action::LoadGuildThreads { guild_id: s("2") },
            Action::EditMessage {
                channel_id: 500,
                message_id: 700,
                content: s("** :satellite: Meshtastic Active Threads**\n\n:arrow_right: <#600> - `!a`\n"),
            },
            reply("Opened a DM thread for `!a`: <#600>"),
        ]
    );
}

#[test]
fn opendm_reports_thread_and_link_failures() {
    let failed = run(
        "opendm",
        vec![opt("node_id", "!a")],
        1,
        Some(2),
        vec![Event::Text { value: None }, Event::Text { value: Some(s("500")) }, Event::Created { id: None }],
    );
    assert_eq!(failed[3], reply("Failed to create thread. Please make sure I have permission to create public threads!"));
    let unlinked = run(
        "opendm",
        vec![opt("node_id", "!a")],
        1,
        Some(2),
        vec![
            Event::Text { value: None },
            Event::Text { value: Some(s("500")) },
            Event::Created { id: Some(600) },
            Event::Written { ok: false },
        ],
    );
    assert_eq!(unlinked[4], reply("Created the thread, but failed to link it in the database."));
}

#[test]
fn setchannel_in_a_new_guild() {
    let actions = run(
        "setchannel",
        vec![],
        10,
        Some(2),
        vec![
            Event::GuildChannel { row: None },
            Event::Created { id: Some(30) },
            Event::Done,
            Event::Written { ok: true },
            Event::GuildChannel { row: Some(GuildChannelRow { channel_id: s("10"), index_message_id: Some(s("30")) }) },
            Event::Threads { rows: vec![] },
            Event::Done,
        ],
    );
    assert_eq!(
        actions,
        vec![
            Action::LoadGuildChannel { guild_id: s("2") },
            Action::SendMessage { channel_id: 10, content: s("** :satellite: Meshtastic Active Threads**\n\n*Initializing...*") },
            Action::PinMessage { channel_id: 10, message_id: 30 },
            Action::SaveGuildChannel { guild_id: s("2"), channel_id: s("10"), index_message_id: Some(s("30")) },
            Action::LoadGuildChannel { guild_id: s("2") },
            Action::LoadGuildThreads { guild_id: s("2") },
            Action::EditMessage {
                channel_id: 10,
                message_id: 30,
                content: s("** :satellite: Meshtastic Active Threads**\n\n*No active DMs or secondary channels."),
            },
            reply("Okay! I'll use this channel for Mesh messages from now on."),
        ]
    );
}

#[test]
fn setchannel_moving_cleans_up_the_old_channel() {
    let actions = run(
        "setchannel",
        vec![],
        10,
        Some(2),
        vec![
            Event::GuildChannel { row: Some(GuildChannelRow { channel_id: s("9"), index_message_id: Some(s("8")) }) },
            Event::Done,
            Event::ThreadIds { ids: vec![s("x"), s("41"), s("42")] },
            Event::Done,
            Event::Done,
            Event::Done,
            Event::Created { id: None },
            Event::Written { ok: false },
            Event::GuildChannel { row: Some(GuildChannelRow { channel_id: s("10"), index_message_id: None }) },
        ],
    );
    assert_eq!(
        actions,
        vec![
            Action::LoadGuildChannel { guild_id: s("2") },
            Action::DeleteMessage { channel_id: 9, message_id: 8 },
            Action::LoadStaleThreadIds { guild_id: s("2") },
            Action::DeleteChannel { channel_id: 41 },
            Action::DeleteChannel { channel_id: 42 },
            Action::ForgetGuildThreads { guild_id: s("2") },
            Action::SendMessage { channel_id: 10, content: s("** :satellite: Meshtastic Active Threads**\n\n*Initializing...*") },
            Action::SaveGuildChannel { guild_id: s("2"), channel_id: s("10"), index_message_id: None },
            Action::LoadGuildChannel { guild_id: s("2") },
            reply("Oops! I couldn't save your preferences for some reason."),
        ]
    );
}

#[test]
fn setchannel_again_in_the_same_channel_keeps_the_threads() {
    let actions = run(
        "setchannel",
        vec![],
        10,
        Some(2),
        vec![
            Event::GuildChannel { row: Some(GuildChannelRow { channel_id: s("10"), index_message_id: Some(s("8")) }) },
            Event::Created { id: None },
            Event::Written { ok: true },
            Event::GuildChannel { row: None },
        ],
    );
    assert_eq!(actions[1], Action::SendMessage { channel_id: 10, content: s("** :satellite: Meshtastic Active Threads**\n\n*Initializing...*") });
    assert_eq!(actions[4], reply("Okay! I'll use this channel for Mesh messages from now on."));
}

#[test]
fn setchannel_skips_an_old_index_message_that_is_not_a_number() {
    let actions = run(
        "setchannel",
        vec![],
        10,
        Some(2),
        vec![
            Event::GuildChannel { row: Some(GuildChannelRow { channel_id: s("9"), index_message_id: Some(s("?")) }) },
            Event::ThreadIds { ids: vec![] },
            Event::Done,
            Event::Created { id: None },
            Event::Written { ok: true },
            Event::GuildChannel { row: None },
        ],
    );
    assert_eq!(actions[1], Action::LoadStaleThreadIds { guild_id: s("2") });
    assert_eq!(actions[2], Action::ForgetGuildThreads { guild_id: s("2") });
}

#[test]
fn answers_must_fit_the_request() {
    assert!(answers_request(&Action::LoadAllChannels, &Event::Channels { ids: None }));
    assert!(!answers_request(&Action::LoadAllChannels, &Event::Done));
    assert!(!answers_request(&Action::Finish, &Event::Done));
    assert!(answers_request(&Action::CreateThread { channel_id: 1, name: s("n") }, &Event::Created { id: None }));
}

#[test]
fn handlers_start_like_the_commands() {
    let (state, action) = handle_setchannel(1311703210584068207, 5);
    assert!(matches!(state, CommandState::ChanAwaitOld { channel_id: 5, .. }));
    assert_eq!(action, Action::LoadGuildChannel { guild_id: s("1311703210584068207") });
    let (_, action) = handle_opendm(&vec![opt("node_id", "!n")], 42);
    assert_eq!(action, Action::FindThreadForNode { guild_id: s("42"), node_id: s("!n") });
    let (_, action) = handle_post(&vec![opt("destination", "!n"), opt("message", "m")], 3, None);
    assert_eq!(action, Action::SendToMesh { request: DiscordToMesh::Post { destination: Some(s("!n")), message: s("m") } });
    let (phase, action) = update_index_message(&s("42"));
    assert_eq!(phase, IndexPhase::AwaitRow);
    assert_eq!(action, Action::LoadGuildChannel { guild_id: s("42") });
}

#[test]
fn setchannel_aborts_on_an_old_channel_with_id_zero() {
    let actions = run(
        "setchannel",
        vec![],
        10,
        Some(2),
        vec![Event::GuildChannel { row: Some(GuildChannelRow { channel_id: s("0"), index_message_id: None }) }],
    );
    assert_eq!(actions, vec![Action::LoadGuildChannel { guild_id: s("2") }, Action::Abort]);
}

#[test]
fn every_registered_command_is_handled() {
    for def in command_definitions() {
        for guild in [None, Some(2)] {
            let (_, action) = begin_command(&def.name, &vec![opt("message", "m"), opt("node_id", "!n")], 3, guild);
            assert_ne!(action, reply("not implemented :("), "{}", def.name);
        }
    }
}

#[test]
fn opendm_inserts_only_after_a_lookup_found_nothing() {
    let actions = run(
        "opendm",
        vec![opt("node_id", "!z")],
        1,
        Some(9),
        vec![
            Event::Text { value: None },
            Event::Text { value: Some(s("500")) },
            Event::Created { id: Some(601) },
            Event::Written { ok: false },
        ],
    );
    let insert = actions.iter().position(|a| matches!(a, Action::InsertThread { .. })).unwrap();
    assert_eq!(actions[0], Action::FindThreadForNode { guild_id: s("9"), node_id: s("!z") });
    assert!(insert > 0);
    assert_eq!(actions[insert], Action::InsertThread { thread_id: s("601"), guild_id: s("9"), destination: s("!z") });
}
