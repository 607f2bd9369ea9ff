//! The slash commands that the bot registers with Discord.
use vstd::prelude::*;

verus! {

/// A string option of a slash command.
#[derive(Debug, PartialEq, Eq)]
pub struct OptionSpec {
    pub name: String,
    pub description: String,
    pub required: bool,
}

/// A slash command and its options.
#[derive(Debug, PartialEq, Eq)]
pub struct CommandSpec {
    pub name: String,
    pub description: String,
    pub options: Vec<OptionSpec>,
}

/// What an option's registration says.
pub struct OptionSpecText {
    pub name: Seq<char>,
    pub description: Seq<char>,
    pub required: bool,
}

/// What a command's registration says.
pub struct CommandSpecText {
    pub name: Seq<char>,
    pub description: Seq<char>,
    pub options: Seq<OptionSpecText>,
}

impl View for OptionSpec {
    type V = OptionSpecText;

    open spec fn view(&self) -> OptionSpecText {
        OptionSpecText { name: self.name@, description: self.description@, required: self.required }
    }
}

impl View for CommandSpec {
    type V = CommandSpecText;

    open spec fn view(&self) -> CommandSpecText {
        CommandSpecText {
            name: self.name@,
            description: self.description@,
            options: self.options@.map_values(|o: OptionSpec| o@),
        }
    }
}

/// The slash commands of the bot: `/setchannel`, `/opendm` with a required
/// node id, and `/post` with a required message and an optional destination.
pub open spec fn command_catalog() -> Seq<CommandSpecText> {
    seq![
        CommandSpecText {
            name: "setchannel"@,
            description: "Set the primary channel for mesh messages"@,
            options: Seq::empty(),
        },
        CommandSpecText {
            name: "opendm"@,
            description: "Open a DM thread with a node"@,
            options: seq![
                OptionSpecText {
                    name: "node_id"@,
                    description: "The Meshtastic Node ID (e.g. !1234abcd)"@,
                    required: true,
                },
            ],
        },
        CommandSpecText {
            name: "post"@,
            description: "Send a message to the mesh"@,
            options: seq![
                OptionSpecText {
                    name: "message"@,
                    description: "The message to send"@,
                    required: true,
                },
                OptionSpecText {
                    name: "destination"@,
                    description: "The Meshtastic Node ID (optional if inside a DM thread)"@,
                    required: false,
                },
            ],
        },
    ]
}

fn option_spec(name: &str, description: &str, required: bool) -> (o: OptionSpec)
    ensures
        o@ == (OptionSpecText { name: name@, description: description@, required }),
{
    OptionSpec { name: String::from_str(name), description: String::from_str(description), required }
}

/// The slash commands that the bot registers when it connects.
pub fn command_definitions() -> (commands: Vec<CommandSpec>)
    ensures
        commands@.map_values(|c: CommandSpec| c@) == command_catalog(),
{
    let mut commands: Vec<CommandSpec> = Vec::new();
    commands.push(
        CommandSpec {
            name: String::from_str("setchannel"),
            description: String::from_str("Set the primary channel for mesh messages"),
            options: Vec::new(),
        },
    );
    let mut opendm_options: Vec<OptionSpec> = Vec::new();
    opendm_options.push(option_spec("node_id", "The Meshtastic Node ID (e.g. !1234abcd)", true));
    commands.push(
        CommandSpec {
            name: String::from_str("opendm"),
            description: String::from_str("Open a DM thread with a node"),
            options: opendm_options,
        },
    );
    let mut post_options: Vec<OptionSpec> = Vec::new();
    post_options.push(option_spec("message", "The message to send", true));
    post_options.push(
        option_spec("destination", "The Meshtastic Node ID (optional if inside a DM thread)", false),
    );
    commands.push(
        CommandSpec {
            name: String::from_str("post"),
            description: String::from_str("Send a message to the mesh"),
            options: post_options,
        },
    );
    proof {
        let got = commands@.map_values(|c: CommandSpec| c@);
        let want = command_catalog();
        assert(got[0].options =~= want[0].options);
        assert(got[1].options =~= want[1].options);
        assert(got[2].options =~= want[2].options);
        assert(got =~= want);
    }
    commands
}

} // verus!
