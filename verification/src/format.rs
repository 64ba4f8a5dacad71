//! Rendering of outcomes into display payloads.
//!
//! Every reply the operator sees — process output, status panel, join-link
//! broadcast — is assembled here, and each renderer's contract pins its
//! text down to the character.
use crate::process::{ExecutionResult, PowerAction};
use crate::status::ServerStatus;
use crate::text::{dec_digits, u64_to_string};
use vstd::prelude::*;
use vstd::string::*;

verus! {

/// One field of a structured display panel.
pub struct PanelField {
    pub name: String,
    pub value: String,
    pub inline: bool,
}

/// A structured display panel: what the chat platform renders as an embed.
pub struct StatusPanel {
    pub title: String,
    pub description: Option<String>,
    pub fields: Vec<PanelField>,
    pub color: u32,
}

/// The message for a process that ran to completion: a positive header and
/// the captured standard output on success, a negative header and the
/// captured standard error on a nonzero exit.
pub open spec fn process_message_spec(action: PowerAction, r: ExecutionResult) -> Seq<char> {
    match action {
        PowerAction::Start => if r.success {
            "✅ **Server started successfully!**\n\n```\n"@ + r.stdout@ + "\n```"@
        } else {
            "❌ **Failed to start server**\n\n```\n"@ + r.stderr@ + "\n```"@
        },
        PowerAction::Stop => if r.success {
            "✅ **Server stopped successfully!**\n\n```\n"@ + r.stdout@ + "\n```"@
        } else {
            "❌ **Failed to stop server**\n\n```\n"@ + r.stderr@ + "\n```"@
        },
    }
}

/// The message for a process that could not be spawned at all: an error
/// header and the spawn error's text.
pub open spec fn spawn_error_message_spec(action: PowerAction, err: Seq<char>) -> Seq<char> {
    match action {
        PowerAction::Start => "❌ **Failed to execute start command**\n\n```\n"@ + err + "\n```"@,
        PowerAction::Stop => "❌ **Failed to execute stop command**\n\n```\n"@ + err + "\n```"@,
    }
}

/// Render the outcome of one lifecycle action. A nonzero exit is rendered
/// as a failure message, not as a spawn error.
pub fn format_process_outcome(action: PowerAction, outcome: &Result<ExecutionResult, String>) -> (m:
    String)
    ensures
        m@ == match outcome {
            Ok(r) => process_message_spec(action, *r),
            Err(e) => spawn_error_message_spec(action, e@),
        },
{
    match outcome {
        Ok(r) => {
            let head: &str = match action {
                PowerAction::Start => if r.success {
                    "✅ **Server started successfully!**\n\n```\n"
                } else {
                    "❌ **Failed to start server**\n\n```\n"
                },
                PowerAction::Stop => if r.success {
                    "✅ **Server stopped successfully!**\n\n```\n"
                } else {
                    "❌ **Failed to stop server**\n\n```\n"
                },
            };
            let mut m = head.to_owned();
            if r.success {
                m.append(r.stdout.as_str());
            } else {
                m.append(r.stderr.as_str());
            }
            m.append("\n```");
            m
        },
        Err(e) => {
            let head: &str = match action {
                PowerAction::Start => "❌ **Failed to execute start command**\n\n```\n",
                PowerAction::Stop => "❌ **Failed to execute stop command**\n\n```\n",
            };
            let mut m = head.to_owned();
            m.append(e.as_str());
            m.append("\n```");
            m
        },
    }
}

/// Render a status-query outcome as a panel: an online server gets its
/// metadata, the player ratio and the join link; an unreachable server
/// gets the distinct offline panel; a query error gets an error panel
/// holding the error's text.
pub fn format_status(outcome: &Result<ServerStatus, String>, join_url: &str) -> (p: StatusPanel)
    ensures
        match outcome {
            Ok(s) => if s.online {
                &&& p.title@ == "🟢 Server Online"@
                &&& p.description is None
                &&& p.color == 0x00ff00
                &&& p.fields@.len() == 5
                &&& p.fields@[0].name@ == "Name"@
                &&& p.fields@[0].value == s.name
                &&& !p.fields@[0].inline
                &&& p.fields@[1].name@ == "Game"@
                &&& p.fields@[1].value == s.game
                &&& p.fields@[1].inline
                &&& p.fields@[2].name@ == "Map"@
                &&& p.fields@[2].value == s.map
                &&& p.fields@[2].inline
                &&& p.fields@[3].name@ == "Players"@
                &&& p.fields@[3].value@ == dec_digits(s.players as nat) + "/"@ + dec_digits(
                    s.max_players as nat,
                )
                &&& p.fields@[3].inline
                &&& p.fields@[4].name@ == "Join Server"@
                &&& p.fields@[4].value@ == "<"@ + join_url@ + ">"@
                &&& !p.fields@[4].inline
            } else {
                &&& p.title@ == "🔴 Server Offline"@
                &&& p.description matches Some(d) && d@
                    == "The server is currently not responding to queries."@
                &&& p.color == 0xff0000
                &&& p.fields@.len() == 0
            },
            Err(e) => {
                &&& p.title@ == "❌ Failed to Query Server"@
                &&& p.description matches Some(d) && d == e
                &&& p.color == 0xff0000
                &&& p.fields@.len() == 0
            },
        },
{
    match outcome {
        Ok(s) => {
            if s.online {
                let mut fields: Vec<PanelField> = Vec::new();
                fields.push(
                    PanelField { name: "Name".to_owned(), value: s.name.clone(), inline: false },
                );
                fields.push(
                    PanelField { name: "Game".to_owned(), value: s.game.clone(), inline: true },
                );
                fields.push(
                    PanelField { name: "Map".to_owned(), value: s.map.clone(), inline: true },
                );
                let mut ratio = u64_to_string(s.players as u64);
                ratio.append("/");
                let maxp = u64_to_string(s.max_players as u64);
                ratio.append(maxp.as_str());
                fields.push(PanelField { name: "Players".to_owned(), value: ratio, inline: true });
                let mut link = "<".to_owned();
                link.append(join_url);
                link.append(">");
                fields.push(
                    PanelField { name: "Join Server".to_owned(), value: link, inline: false },
                );
                StatusPanel {
                    title: "🟢 Server Online".to_owned(),
                    description: None,
                    fields,
                    color: 0x00ff00,
                }
            } else {
                StatusPanel {
                    title: "🔴 Server Offline".to_owned(),
                    description: Some(
                        "The server is currently not responding to queries.".to_owned(),
                    ),
                    fields: Vec::new(),
                    color: 0xff0000,
                }
            }
        },
        Err(e) => StatusPanel {
            title: "❌ Failed to Query Server".to_owned(),
            description: Some(e.clone()),
            fields: Vec::new(),
            color: 0xff0000,
        },
    }
}

/// The startup broadcast that announces the join link.
pub fn broadcast_message(join_url: &str) -> (m: String)
    ensures
        m@ == "🎮 **Server is ready!**\n\n**Join the game server:**\n`"@ + join_url@
            + "`\nOr click: <"@ + join_url@ + ">"@,
{
    let mut m = "🎮 **Server is ready!**\n\n**Join the game server:**\n`".to_owned();
    m.append(join_url);
    m.append("`\nOr click: <");
    m.append(join_url);
    m.append(">");
    m
}

/// The reply sent to a caller that a privileged command denied.
pub fn permission_denied_message() -> (m: String)
    ensures
        m@ == "❌ You don't have permission to use this command."@,
{
    "❌ You don't have permission to use this command.".to_owned()
}

/// The error text for a host that is not an IP literal.
pub fn invalid_host_message(host: &str) -> (m: String)
    ensures
        m@ == "Invalid IP address: "@ + host@,
{
    let mut m = "Invalid IP address: ".to_owned();
    m.append(host);
    m
}

} // verus!
