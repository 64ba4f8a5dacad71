use ignite::config::Config;
use ignite::permissions::{authorize, Decision};

fn base_config() -> Config {
    Config {
        working_dir: String::from("/srv/game"),
        start_command: String::from("./start.sh"),
        stop_command: String::from("./stop.sh"),
        admin_role_ids: Vec::new(),
        server_ids: Vec::new(),
        host: String::from("127.0.0.1"),
        port: 27015,
        broadcast_channel_id: None,
        join_address: None,
    }
}

#[test]
fn unrestricted_allows_anyone() {
    let c = base_config();
    assert_eq!(authorize(&c, None, None), Decision::Allow);
    assert_eq!(authorize(&c, Some(42), None), Decision::Allow);
    let roles = vec![1u64, 2, 3];
    assert_eq!(authorize(&c, None, Some(&roles)), Decision::Allow);
    assert_eq!(authorize(&c, Some(7), Some(&roles)), Decision::Allow);
}

#[test]
fn guild_restriction_denies_foreign_guild() {
    let mut c = base_config();
    c.server_ids = vec![100u64];
    assert_eq!(authorize(&c, Some(101), None), Decision::Deny);
    assert_eq!(authorize(&c, Some(100), None), Decision::Allow);
}

#[test]
fn guild_restriction_requires_guild_context() {
    let mut c = base_config();
    c.server_ids = vec![100u64];
    assert_eq!(authorize(&c, None, None), Decision::NoGuildContext);
}

#[test]
fn role_restriction_checks_intersection() {
    let mut c = base_config();
    c.admin_role_ids = vec![10u64, 20];
    let good = vec![5u64, 20];
    let bad = vec![5u64, 6];
    assert_eq!(authorize(&c, None, Some(&good)), Decision::Allow);
    assert_eq!(authorize(&c, None, Some(&bad)), Decision::Deny);
    assert_eq!(authorize(&c, None, Some(&Vec::new())), Decision::Deny);
}

#[test]
fn role_restriction_requires_roles() {
    let mut c = base_config();
    c.admin_role_ids = vec![10u64];
    assert_eq!(authorize(&c, None, None), Decision::RolesUnavailable);
}

#[test]
fn guild_check_runs_before_role_check() {
    let mut c = base_config();
    c.admin_role_ids = vec![10u64];
    c.server_ids = vec![100u64];
    let good = vec![10u64];
    // A foreign guild is denied even when the roles would pass.
    assert_eq!(authorize(&c, Some(101), Some(&good)), Decision::Deny);
    // A missing guild context is reported before any role trouble.
    assert_eq!(authorize(&c, None, None), Decision::NoGuildContext);
    // Both checks passing allows.
    assert_eq!(authorize(&c, Some(100), Some(&good)), Decision::Allow);
    // The right guild with the wrong roles is denied.
    assert_eq!(authorize(&c, Some(100), Some(&vec![9u64])), Decision::Deny);
}

#[test]
fn decision_messages() {
    assert_eq!(
        Decision::Deny.message(),
        "You don't have permission to use this command."
    );
    assert_eq!(
        Decision::NoGuildContext.message(),
        "This command can only be used in a server"
    );
    assert_eq!(
        Decision::RolesUnavailable.message(),
        "Could not fetch member information"
    );
}
