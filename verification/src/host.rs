//! Validation of the game server's host address.
//!
//! The status query only ever targets an IP literal, and a malformed host
//! must be rejected before any network work begins. The accepted grammar is
//! the dotted-quad form: four decimal octets, each `0..=255`, written
//! without leading zeros.
use crate::text::{all_digits, dec_value, is_digit, split_at_char, lemma_split_step};
use vstd::prelude::*;
use vstd::string::*;

verus! {

/// `f` is one octet of a dotted-quad literal: one to three digits, no
/// leading zero, value at most 255.
pub open spec fn is_octet(f: Seq<char>) -> bool {
    1 <= f.len() <= 3 && all_digits(f) && dec_value(f) <= 255 && (f.len() > 1 ==> f[0] != '0')
}

/// The dot-separated fields of `s`.
pub open spec fn ipv4_fields(s: Seq<char>) -> Seq<Seq<char>> {
    split_at_char(s, '.')
}

/// Every field of `fields` is an octet.
pub open spec fn all_octets(fields: Seq<Seq<char>>) -> bool {
    forall|i: int| 0 <= i < fields.len() ==> is_octet(#[trigger] fields[i])
}

/// `s` is a dotted-quad IP literal.
pub open spec fn is_ipv4_literal(s: Seq<char>) -> bool {
    ipv4_fields(s).len() == 4 && all_octets(ipv4_fields(s))
}

/// Parse one octet; `Some` exactly on strings satisfying `is_octet`.
fn parse_octet(s: &str) -> (r: Option<u8>)
    ensures
        r is Some <==> is_octet(s@),
        r is Some ==> r.unwrap() == dec_value(s@),
{
    let len = s.unicode_len();
    if len == 0 || len > 3 {
        return None;
    }
    if len > 1 && s.get_char(0) == '0' {
        return None;
    }
    let mut val: u32 = 0;
    let mut i: usize = 0;
    while i < len
        invariant
            0 <= i <= len <= 3,
            len == s@.len(),
            all_digits(s@.subrange(0, i as int)),
            val == dec_value(s@.subrange(0, i as int)),
            i == 0 ==> val == 0,
            i == 1 ==> val <= 9,
            i == 2 ==> val <= 99,
            i == 3 ==> val <= 999,
        decreases len - i,
    {
        let c = s.get_char(i);
        let cu: u32 = c as u32;
        if cu < '0' as u32 || cu > '9' as u32 {
            proof {
                assert(!is_digit(s@[i as int]));
            }
            return None;
        }
        let d: u32 = cu - '0' as u32;
        proof {
            assert(s@.subrange(0, i as int + 1).drop_last() =~= s@.subrange(0, i as int));
            assert(s@.subrange(0, i as int + 1).last() == s@[i as int]);
        }
        val = val * 10 + d;
        i = i + 1;
    }
    proof {
        assert(s@.subrange(0, len as int) =~= s@);
    }
    if val > 255 {
        return None;
    }
    Some(val as u8)
}

/// Parse every dot-separated field of `s` as an octet. `Some` exactly when
/// all fields are octets, with the octet values in field order.
fn parse_octets(s: &str) -> (r: Option<Vec<u8>>)
    ensures
        r is Some <==> all_octets(ipv4_fields(s@)),
        r matches Some(v) ==> {
            &&& v@.len() == ipv4_fields(s@).len()
            &&& forall|i: int|
                0 <= i < v@.len() ==> v@[i] == dec_value(#[trigger] ipv4_fields(s@)[i])
        },
    decreases s@.len(),
{
    let len = s.unicode_len();
    let k = crate::text::find_char(s, '.');
    let head = s.substring_char(0, k);
    proof {
        lemma_split_step(s@, '.', k as int);
    }
    let first = match parse_octet(head) {
        Some(x) => x,
        None => {
            proof {
                if k == len {
                    assert(s@.subrange(0, k as int) =~= s@);
                    assert(ipv4_fields(s@)[0] == s@);
                } else {
                    assert(ipv4_fields(s@)[0] == s@.subrange(0, k as int));
                }
            }
            return None;
        },
    };
    if k == len {
        let mut v: Vec<u8> = Vec::new();
        v.push(first);
        proof {
            assert(s@.subrange(0, k as int) =~= s@);
            assert(ipv4_fields(s@) =~= seq![s@]);
            assert(v@ =~= seq![first]);
        }
        Some(v)
    } else {
        let rest = s.substring_char(k + 1, len);
        let ghost fields = ipv4_fields(s@);
        let ghost rfields = ipv4_fields(rest@);
        proof {
            assert(fields =~= seq![s@.subrange(0, k as int)] + rfields);
            assert(fields.drop_first() =~= rfields);
        }
        match parse_octets(rest) {
            Some(mut rv) => {
                let mut v: Vec<u8> = Vec::new();
                v.push(first);
                v.append(&mut rv);
                proof {
                    assert(v@.len() == fields.len());
                    assert(forall|i: int|
                        0 <= i < v@.len() ==> v@[i] == dec_value(#[trigger] fields[i]));
                }
                Some(v)
            },
            None => {
                proof {
                    let j = choose|j: int| 0 <= j < rfields.len() && !is_octet(rfields[j]);
                    assert(fields[j + 1] == rfields[j]);
                }
                None
            },
        }
    }
}

/// Parse `s` as a dotted-quad IP literal. `Some` exactly on literals, with
/// the four octet values in order; `None` on anything else, before any use
/// of the address.
pub fn parse_ipv4(s: &str) -> (r: Option<(u8, u8, u8, u8)>)
    ensures
        r is Some <==> is_ipv4_literal(s@),
        r matches Some(t) ==> {
            &&& t.0 == dec_value(ipv4_fields(s@)[0])
            &&& t.1 == dec_value(ipv4_fields(s@)[1])
            &&& t.2 == dec_value(ipv4_fields(s@)[2])
            &&& t.3 == dec_value(ipv4_fields(s@)[3])
        },
{
    match parse_octets(s) {
        Some(v) => {
            if v.len() == 4 {
                Some((v[0], v[1], v[2], v[3]))
            } else {
                None
            }
        },
        None => None,
    }
}

} // verus!
