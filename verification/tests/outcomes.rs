use ignite::format::{broadcast_message, format_process_outcome, format_status, invalid_host_message};
use ignite::process::{ExecutionResult, PowerAction};
use ignite::status::{QueryReply, ServerStatus};

#[test]
fn exit_zero_is_success() {
    let r = ExecutionResult::from_exit(Some(0), String::from("ok\n"), String::new());
    assert!(r.success);
    assert!(r.stdout.contains("ok"));
}

#[test]
fn nonzero_exit_is_a_result_not_an_error() {
    let r = ExecutionResult::from_exit(Some(1), String::new(), String::from("boom"));
    assert!(!r.success);
    assert_eq!(r.stderr, "boom");
}

#[test]
fn killed_process_is_not_success() {
    let r = ExecutionResult::from_exit(None, String::new(), String::new());
    assert!(!r.success);
}

#[test]
fn start_success_message() {
    let r = ExecutionResult::from_exit(Some(0), String::from("ok"), String::new());
    let m = format_process_outcome(PowerAction::Start, &Ok(r));
    assert_eq!(m, "✅ **Server started successfully!**\n\n```\nok\n```");
}

#[test]
fn start_failure_message_uses_stderr() {
    let r = ExecutionResult::from_exit(Some(1), String::from("ignored"), String::from("bad"));
    let m = format_process_outcome(PowerAction::Start, &Ok(r));
    assert_eq!(m, "❌ **Failed to start server**\n\n```\nbad\n```");
}

#[test]
fn stop_messages() {
    let ok = ExecutionResult::from_exit(Some(0), String::from("done"), String::new());
    let m = format_process_outcome(PowerAction::Stop, &Ok(ok));
    assert_eq!(m, "✅ **Server stopped successfully!**\n\n```\ndone\n```");
    let bad = ExecutionResult::from_exit(Some(2), String::new(), String::from("no"));
    let m = format_process_outcome(PowerAction::Stop, &Ok(bad));
    assert_eq!(m, "❌ **Failed to stop server**\n\n```\nno\n```");
}

#[test]
fn spawn_error_message() {
    let m = format_process_outcome(PowerAction::Start, &Err(String::from("shell missing")));
    assert_eq!(m, "❌ **Failed to execute start command**\n\n```\nshell missing\n```");
    let m = format_process_outcome(PowerAction::Stop, &Err(String::from("denied")));
    assert_eq!(m, "❌ **Failed to execute stop command**\n\n```\ndenied\n```");
}

#[test]
fn reply_maps_to_online_status() {
    let s = ServerStatus::from_query(Some(QueryReply {
        name: String::from("My Server"),
        map: String::from("de_dust2"),
        players: 3,
        max_players: 8,
        game: String::from("Counter-Strike"),
    }));
    assert!(s.online);
    assert_eq!(s.name, "My Server");
    assert_eq!(s.map, "de_dust2");
    assert_eq!(s.players, 3);
    assert_eq!(s.max_players, 8);
    assert_eq!(s.game, "Counter-Strike");
}

#[test]
fn no_reply_maps_to_offline_sentinels() {
    let s = ServerStatus::from_query(None);
    assert!(!s.online);
    assert_eq!(s.name, "Unknown");
    assert_eq!(s.map, "N/A");
    assert_eq!(s.game, "Unknown");
    assert_eq!(s.players, 0);
    assert_eq!(s.max_players, 0);
}

#[test]
fn online_panel() {
    let s = ServerStatus::from_query(Some(QueryReply {
        name: String::from("My Server"),
        map: String::from("de_dust2"),
        players: 3,
        max_players: 8,
        game: String::from("Counter-Strike"),
    }));
    let p = format_status(&Ok(s), "steam://connect/10.0.0.5:27016");
    assert_eq!(p.title, "🟢 Server Online");
    assert!(p.description.is_none());
    assert_eq!(p.color, 0x00ff00);
    assert_eq!(p.fields.len(), 5);
    assert_eq!(p.fields[0].name, "Name");
    assert_eq!(p.fields[0].value, "My Server");
    assert!(!p.fields[0].inline);
    assert_eq!(p.fields[1].name, "Game");
    assert_eq!(p.fields[1].value, "Counter-Strike");
    assert!(p.fields[1].inline);
    assert_eq!(p.fields[2].name, "Map");
    assert_eq!(p.fields[2].value, "de_dust2");
    assert!(p.fields[2].inline);
    assert_eq!(p.fields[3].name, "Players");
    assert_eq!(p.fields[3].value, "3/8");
    assert!(p.fields[3].inline);
    assert_eq!(p.fields[4].name, "Join Server");
    assert_eq!(p.fields[4].value, "<steam://connect/10.0.0.5:27016>");
    assert!(!p.fields[4].inline);
}

#[test]
fn offline_panel() {
    let s = ServerStatus::from_query(None);
    let p = format_status(&Ok(s), "steam://connect/127.0.0.1:27015");
    assert_eq!(p.title, "🔴 Server Offline");
    assert_eq!(
        p.description.as_deref(),
        Some("The server is currently not responding to queries.")
    );
    assert_eq!(p.color, 0xff0000);
    assert!(p.fields.is_empty());
}

#[test]
fn query_error_panel() {
    let p = format_status(
        &Err(String::from("Invalid IP address: not-an-ip")),
        "steam://connect/127.0.0.1:27015",
    );
    assert_eq!(p.title, "❌ Failed to Query Server");
    assert_eq!(p.description.as_deref(), Some("Invalid IP address: not-an-ip"));
    assert_eq!(p.color, 0xff0000);
    assert!(p.fields.is_empty());
}

#[test]
fn broadcast_text() {
    let m = broadcast_message("steam://connect/1.2.3.4:27015");
    assert_eq!(
        m,
        "🎮 **Server is ready!**\n\n**Join the game server:**\n`steam://connect/1.2.3.4:27015`\nOr click: <steam://connect/1.2.3.4:27015>"
    );
}

#[test]
fn invalid_host_text() {
    assert_eq!(
        invalid_host_message("not-an-ip"),
        "Invalid IP address: not-an-ip"
    );
}
