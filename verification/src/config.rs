//! Static configuration shared by every command invocation.
use crate::text::{
    dec_digits, lemma_split_step, parse_u64, parse_u64_spec, split_at_char, starts_with_spec,
    str_starts_with, trim, trim_spec, u64_to_string,
};
use vstd::prelude::*;
use vstd::string::*;

verus! {

/// Immutable configuration, created once at startup and never mutated.
///
/// Empty `admin_role_ids` / `server_ids` mean "no role restriction" /
/// "no guild restriction"; both empty means every caller is authorized.
pub struct Config {
    pub working_dir: String,
    pub start_command: String,
    pub stop_command: String,
    pub admin_role_ids: Vec<u64>,
    pub server_ids: Vec<u64>,
    pub host: String,
    pub port: u16,
    pub broadcast_channel_id: Option<u64>,
    pub join_address: Option<String>,
}

/// Host used when the configuration names none.
pub fn default_host() -> (r: String)
    ensures
        r@ == "127.0.0.1"@,
{
    String::from_str("127.0.0.1")
}

/// Query port used when the configuration names none.
pub fn default_port() -> (r: u16)
    ensures
        r == 27015,
{
    27015
}

/// The join link that `get_join_url` computes: the override when one is
/// set and non-empty (prefixed with the connect scheme when it lacks it),
/// otherwise the scheme, host and port of the configuration.
pub open spec fn join_url_spec(c: Config) -> Seq<char> {
    match c.join_address {
        Some(a) => if a@.len() > 0 {
            if starts_with_spec(a@, "steam://connect/"@) {
                a@
            } else {
                "steam://connect/"@ + a@
            }
        } else {
            built_join_url_spec(c)
        },
        None => built_join_url_spec(c),
    }
}

/// The join link derived from host and port.
pub open spec fn built_join_url_spec(c: Config) -> Seq<char> {
    "steam://connect/"@ + c.host@ + ":"@ + dec_digits(c.port as nat)
}

impl Config {
    /// Directory that holds the configuration file, under the given home
    /// directory.
    pub fn config_dir(home: &str) -> (r: String)
        ensures
            r@ == home@ + "/.ignition"@,
    {
        let mut r = home.to_owned();
        r.append("/.ignition");
        r
    }

    /// Default location of the configuration file, under the given home
    /// directory.
    pub fn default_config_path(home: &str) -> (r: String)
        ensures
            r@ == home@ + "/.ignition/ignition.json"@,
    {
        let mut r = Self::config_dir(home);
        r.append("/ignition.json");
        proof {
            assert(home@ + "/.ignition"@ + "/ignition.json"@ =~= home@
                + "/.ignition/ignition.json"@) by {
                reveal_strlit("/.ignition");
                reveal_strlit("/ignition.json");
                reveal_strlit("/.ignition/ignition.json");
            }
        }
        r
    }

    /// Choose the configuration path from the fixed search order: the file
    /// in the current directory when it exists, else the one in the local
    /// `config` directory, else the default path under `home` (which is
    /// also the answer when nothing exists, for the error message).
    pub fn find_config_path(home: &str, local_exists: bool, subdir_exists: bool) -> (r: String)
        ensures
            local_exists ==> r@ == "./ignition.json"@,
            !local_exists && subdir_exists ==> r@ == "./config/ignition.json"@,
            !local_exists && !subdir_exists ==> r@ == home@ + "/.ignition/ignition.json"@,
    {
        if local_exists {
            "./ignition.json".to_owned()
        } else if subdir_exists {
            "./config/ignition.json".to_owned()
        } else {
            Self::default_config_path(home)
        }
    }

    /// The join link for the server, exactly `join_url_spec`.
    pub fn get_join_url(&self) -> (r: String)
        ensures
            r@ == join_url_spec(*self),
    {
        let prefix = "steam://connect/";
        let addr: &str = match &self.join_address {
            Some(a) => a.as_str(),
            None => "",
        };
        proof {
            reveal_strlit("");
        }
        if addr.unicode_len() > 0 {
            if str_starts_with(addr, prefix) {
                addr.to_owned()
            } else {
                let mut r = prefix.to_owned();
                r.append(addr);
                r
            }
        } else {
            let mut r = prefix.to_owned();
            r.append(self.host.as_str());
            r.append(":");
            let port = u64_to_string(self.port as u64);
            r.append(port.as_str());
            r
        }
    }
}

/// The ids collected from the fields of `fields`: each field is trimmed
/// and kept when it parses as a decimal id.
pub open spec fn collect_ids(fields: Seq<Seq<char>>) -> Seq<u64>
    decreases fields.len(),
{
    if fields.len() == 0 {
        Seq::empty()
    } else {
        let head = match parse_u64_spec(trim_spec(fields[0])) {
            Some(v) => seq![v],
            None => Seq::<u64>::empty(),
        };
        head + collect_ids(fields.drop_first())
    }
}

/// The ids in the comma-separated list `s`: every field that, after
/// trimming, parses as a decimal id, in order; other fields are skipped.
pub open spec fn ids_spec(s: Seq<char>) -> Seq<u64> {
    collect_ids(split_at_char(s, ','))
}

/// Parse a comma-separated list of ids, exactly `ids_spec`.
pub fn parse_ids(s: &str) -> (r: Vec<u64>)
    ensures
        r@ == ids_spec(s@),
    decreases s@.len(),
{
    let len = s.unicode_len();
    let k = crate::text::find_char(s, ',');
    let head = s.substring_char(0, k);
    proof {
        lemma_split_step(s@, ',', k as int);
    }
    let mut v: Vec<u64> = Vec::new();
    let trimmed = trim(head);
    match parse_u64(trimmed) {
        Some(x) => v.push(x),
        None => {},
    }
    if k == len {
        proof {
            assert(s@.subrange(0, k as int) =~= s@);
            assert(split_at_char(s@, ',') =~= seq![s@]);
            assert(split_at_char(s@, ',').drop_first() =~= Seq::<Seq<char>>::empty());
            assert(collect_ids(Seq::<Seq<char>>::empty()) == Seq::<u64>::empty());
            match parse_u64_spec(trim_spec(s@)) {
                Some(x) => {
                    assert(v@ =~= seq![x] + Seq::<u64>::empty());
                },
                None => {
                    assert(v@ =~= Seq::<u64>::empty() + Seq::<u64>::empty());
                },
            }
            assert(v@ == ids_spec(s@));
        }
        v
    } else {
        let rest = s.substring_char(k + 1, len);
        let mut rv = parse_ids(rest);
        v.append(&mut rv);
        proof {
            let ghost fields = split_at_char(s@, ',');
            assert(fields =~= seq![s@.subrange(0, k as int)] + split_at_char(rest@, ','));
            assert(fields[0] == s@.subrange(0, k as int));
            assert(fields.drop_first() =~= split_at_char(rest@, ','));
            assert(v@ =~= collect_ids(fields));
            assert(v@ == ids_spec(s@));
        }
        v
    }
}

} // verus!
