//! Messages between the Discord side and the radio side of the bot.
use vstd::prelude::*;
use crate::text::{join3, join4};

verus! {

/// A request from Discord for the radio.
#[derive(Debug, Clone, PartialEq, Eq)]
pub enum DiscordToMesh {
    /// Send `message` to one node or channel, or broadcast it on the primary
    /// channel when there is no destination.
    Post { destination: Option<String>, message: String },
    /// Restart the radio node.
    Reboot,
}

/// A message heard on the radio, for Discord.
#[derive(Debug, Clone, PartialEq, Eq)]
pub enum MeshToDiscord {
    /// `text` from the node `sender`; `is_dm` when it was addressed to us alone.
    IncomingMessage { sender: String, text: String, is_dm: bool },
}

/// The text of an optional string.
pub open spec fn opt_text(o: Option<String>) -> Option<Seq<char>> {
    match o {
        Some(s) => Some(s@),
        None => None,
    }
}

/// What a request for the radio says.
pub enum RadioRequest {
    Post { destination: Option<Seq<char>>, message: Seq<char> },
    Reboot,
}

impl View for DiscordToMesh {
    type V = RadioRequest;

    open spec fn view(&self) -> RadioRequest {
        match self {
            DiscordToMesh::Post { destination, message } => RadioRequest::Post {
                destination: opt_text(*destination),
                message: message@,
            },
            DiscordToMesh::Reboot => RadioRequest::Reboot,
        }
    }
}

/// What a message heard on the radio says.
pub struct HeardMessage {
    pub sender: Seq<char>,
    pub text: Seq<char>,
    pub is_dm: bool,
}

impl View for MeshToDiscord {
    type V = HeardMessage;

    open spec fn view(&self) -> HeardMessage {
        match self {
            MeshToDiscord::IncomingMessage { sender, text, is_dm } => HeardMessage {
                sender: sender@,
                text: text@,
                is_dm: *is_dm,
            },
        }
    }
}

/// The line that the radio loop logs when it handles a request. The radio
/// link is not wired yet, so this line is all that a request does.
pub open spec fn radio_log_line(r: RadioRequest) -> Seq<char> {
    match r {
        RadioRequest::Post { destination: Some(d), message } =>
            "(MOCK MESH) Sending '"@ + message + "' directly to node/channel "@ + d,
        RadioRequest::Post { destination: None, message } =>
            "(MOCK MESH) Broadcasting '"@ + message + "' to primary channel"@,
        RadioRequest::Reboot => "(MOCK MESH) Rebooting node..."@,
    }
}

/// The log line for a request to the radio.
pub fn describe_radio_request(r: &DiscordToMesh) -> (line: String)
    ensures
        line@ == radio_log_line(r@),
{
    match r {
        DiscordToMesh::Post { destination: Some(d), message } => {
            join4("(MOCK MESH) Sending '", message.as_str(), "' directly to node/channel ", d.as_str())
        },
        DiscordToMesh::Post { destination: None, message } => {
            join3("(MOCK MESH) Broadcasting '", message.as_str(), "' to primary channel")
        },
        DiscordToMesh::Reboot => String::from_str("(MOCK MESH) Rebooting node..."),
    }
}

} // verus!
