//! Authorization of privileged commands.
//!
//! A privileged command is allowed, denied, or fails with a context error,
//! as a pure function of the static configuration and the caller's guild
//! and roles. The guild check runs before the role check, and the first
//! failing check settles the outcome.
use crate::config::Config;
use vstd::prelude::*;
use vstd::string::*;

verus! {

/// Outcome of authorizing one privileged command.
#[derive(Clone, Copy, Debug, PartialEq, Eq, Structural)]
pub enum Decision {
    /// The caller may run the command.
    Allow,
    /// The caller is in a foreign guild or lacks every admin role.
    Deny,
    /// A guild restriction is configured but the command came without a
    /// guild context.
    NoGuildContext,
    /// A role restriction is configured but the caller's roles could not
    /// be resolved.
    RolesUnavailable,
}

/// Some element of `roles` occurs in `admins`.
pub open spec fn has_shared_id(roles: Seq<u64>, admins: Seq<u64>) -> bool {
    exists|i: int| 0 <= i < roles.len() && admins.contains(#[trigger] roles[i])
}

/// The required decision: allow unconditionally when no restriction is
/// configured; otherwise check the guild first, then the roles, and let
/// the first failing check settle the outcome.
pub open spec fn authorize_spec(
    admin_role_ids: Seq<u64>,
    server_ids: Seq<u64>,
    guild: Option<u64>,
    roles: Option<Seq<u64>>,
) -> Decision {
    if admin_role_ids.len() == 0 && server_ids.len() == 0 {
        Decision::Allow
    } else if server_ids.len() > 0 && guild is None {
        Decision::NoGuildContext
    } else if server_ids.len() > 0 && !server_ids.contains(guild.unwrap()) {
        Decision::Deny
    } else if admin_role_ids.len() > 0 && roles is None {
        Decision::RolesUnavailable
    } else if admin_role_ids.len() > 0 && !has_shared_id(roles.unwrap(), admin_role_ids) {
        Decision::Deny
    } else {
        Decision::Allow
    }
}

/// Whether `x` occurs in `v`.
fn contains_u64(v: &Vec<u64>, x: u64) -> (r: bool)
    ensures
        r == v@.contains(x),
{
    let mut i: usize = 0;
    while i < v.len()
        invariant
            0 <= i <= v@.len(),
            forall|j: int| 0 <= j < i ==> v@[j] != x,
        decreases v@.len() - i,
    {
        if v[i] == x {
            return true;
        }
        i = i + 1;
    }
    false
}

/// Whether some element of `roles` occurs in `admins`.
fn any_shared_id(roles: &Vec<u64>, admins: &Vec<u64>) -> (r: bool)
    ensures
        r == has_shared_id(roles@, admins@),
{
    let mut i: usize = 0;
    while i < roles.len()
        invariant
            0 <= i <= roles@.len(),
            forall|j: int| 0 <= j < i ==> !admins@.contains(#[trigger] roles@[j]),
        decreases roles@.len() - i,
    {
        if contains_u64(admins, roles[i]) {
            return true;
        }
        i = i + 1;
    }
    false
}

/// Authorize one privileged command, exactly as `authorize_spec` says.
///
/// `guild` is the guild the command arrived from, when any; `roles` is the
/// caller's role list, or `None` when it could not be resolved. No side
/// effects: the decision depends on the arguments alone.
pub fn authorize(config: &Config, guild: Option<u64>, roles: Option<&Vec<u64>>) -> (d: Decision)
    ensures
        d == authorize_spec(
            config.admin_role_ids@,
            config.server_ids@,
            guild,
            match roles {
                Some(r) => Some(r@),
                None => None,
            },
        ),
{
    if config.admin_role_ids.len() == 0 && config.server_ids.len() == 0 {
        return Decision::Allow;
    }
    if config.server_ids.len() > 0 {
        match guild {
            None => {
                return Decision::NoGuildContext;
            },
            Some(g) => {
                if !contains_u64(&config.server_ids, g) {
                    return Decision::Deny;
                }
            },
        }
    }
    if config.admin_role_ids.len() > 0 {
        match roles {
            None => {
                return Decision::RolesUnavailable;
            },
            Some(rs) => {
                if !any_shared_id(rs, &config.admin_role_ids) {
                    return Decision::Deny;
                }
            },
        }
    }
    Decision::Allow
}

/// With no role restriction and no guild restriction configured, every
/// caller is allowed, with or without a guild context or a role list.
pub proof fn lemma_unrestricted_allows_all(guild: Option<u64>, roles: Option<Seq<u64>>)
    ensures
        authorize_spec(Seq::empty(), Seq::empty(), guild, roles) == Decision::Allow,
{
}

/// With a guild allow-list of exactly one guild, a caller from any other
/// guild is denied, and a caller without a guild context gets the context
/// error — whatever the role configuration and the caller's roles.
pub proof fn lemma_single_guild_restriction(
    admin_role_ids: Seq<u64>,
    g: u64,
    h: u64,
    roles: Option<Seq<u64>>,
)
    requires
        h != g,
    ensures
        authorize_spec(admin_role_ids, seq![g], Some(h), roles) == Decision::Deny,
        authorize_spec(admin_role_ids, seq![g], None, roles) == Decision::NoGuildContext,
{
    assert(!seq![g].contains(h)) by {
        assert(forall|i: int| 0 <= i < seq![g].len() ==> seq![g][i] == g);
    }
}

/// The message shown for a decision that stops the command.
impl Decision {
    /// The user-facing text for a decision other than `Allow`.
    pub fn message(&self) -> (r: String)
        ensures
            *self is Deny ==> r@ == "You don't have permission to use this command."@,
            *self is NoGuildContext ==> r@ == "This command can only be used in a server"@,
            *self is RolesUnavailable ==> r@ == "Could not fetch member information"@,
            *self is Allow ==> r@ == ""@,
    {
        match self {
            Decision::Allow => "".to_owned(),
            Decision::Deny => "You don't have permission to use this command.".to_owned(),
            Decision::NoGuildContext => "This command can only be used in a server".to_owned(),
            Decision::RolesUnavailable => "Could not fetch member information".to_owned(),
        }
    }
}

} // verus!
