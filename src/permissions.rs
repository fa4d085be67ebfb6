//! Reading what the platform's identity tools print, and Unix permission bits.

use vstd::prelude::*;
use crate::text::{
    chars_of, find_char, parse_u64, parse_u64_of, split_words, string_of, trim, trim_bounds,
    words,
};

verus! {

/// Which class of a file's permission bits applies to the current user.
#[derive(Debug, Clone, Copy, PartialEq, Eq, Structural)]
pub enum Relation {
    Owner,
    Group,
    Other,
}

#[derive(Debug, Clone, Copy, PartialEq, Eq, Structural)]
pub enum Access {
    Read,
    Write,
    Execute,
}

/// The permission bit that grants `access` to `relation`.
pub open spec fn mode_bit(relation: Relation, access: Access) -> u32 {
    let base: u32 = match access {
        Access::Read => 4,
        Access::Write => 2,
        Access::Execute => 1,
    };
    match relation {
        Relation::Owner => (base * 64) as u32,
        Relation::Group => (base * 8) as u32,
        Relation::Other => base,
    }
}

/// Whether a file's mode grants `access` to `relation`.
pub fn mode_allows(mode: u32, relation: Relation, access: Access) -> (r: bool)
    ensures
        r == (mode & mode_bit(relation, access) != 0),
{
    let base: u32 = match access {
        Access::Read => 4,
        Access::Write => 2,
        Access::Execute => 1,
    };
    let bit: u32 = match relation {
        Relation::Owner => base * 64,
        Relation::Group => base * 8,
        Relation::Other => base,
    };
    mode & bit != 0
}

/// The user ID that `id -u` printed.
pub open spec fn uid_of(output: Seq<char>) -> Option<u64> {
    match parse_u64_of(trim(output)) {
        Some(n) => if n <= u32::MAX {
            Some(n)
        } else {
            None
        },
        None => None,
    }
}

/// The user ID that `id -u` printed, if it is one.
pub fn parse_uid(output: &str) -> (r: Option<u32>)
    ensures
        match r {
            Some(u) => uid_of(output@) == Some(u as u64),
            None => uid_of(output@).is_none(),
        },
{
    let v = chars_of(output);
    let (a, b) = trim_bounds(&v, 0, v.len());
    assert(v@.subrange(0, v@.len() as int) =~= v@);
    let t = string_of(&v, a, b);
    match parse_u64(t.as_str()) {
        Some(n) => if n <= 4294967295u64 {
            Some(n as u32)
        } else {
            None
        },
        None => None,
    }
}

/// Whether the current user is the superuser, given what `id -u` printed
/// (`None` when it could not run); an unreadable answer counts as no.
pub fn is_root_user(id_output: Option<&str>) -> (r: bool)
    ensures
        r == match id_output {
            Some(t) => uid_of(t@) == Some(0u64),
            None => false,
        },
{
    match id_output {
        Some(t) => match parse_uid(t) {
            Some(u) => u == 0,
            None => false,
        },
        None => false,
    }
}

/// The group names that `groups` printed.
pub fn parse_groups(output: &str) -> (r: Vec<String>)
    ensures
        r@.len() == words(output@).len(),
        forall|k: int| 0 <= k < r@.len() ==> #[trigger] r@[k]@ == words(output@)[k],
{
    let v = chars_of(output);
    let ws = split_words(&v);
    let mut r: Vec<String> = Vec::new();
    let mut i: usize = 0;
    while i < ws.len()
        invariant
            v@ == output@,
            ws@.len() == words(output@).len(),
            forall|k: int| #![trigger ws@[k]] 0 <= k < ws@.len() ==> ws@[k].0 <= ws@[k].1 <= v@.len(),
            forall|k: int| 0 <= k < ws@.len() ==> v@.subrange(ws@[k].0 as int, ws@[k].1 as int) == #[trigger] words(output@)[k],
            i <= ws@.len(),
            r@.len() == i,
            forall|k: int| 0 <= k < i ==> #[trigger] r@[k]@ == words(output@)[k],
        decreases ws@.len() - i,
    {
        let (a, b) = ws[i];
        r.push(string_of(&v, a, b));
        i = i + 1;
    }
    r
}

/// The group name in a `getent group` entry: the text before its first `:`.
pub fn group_name_of(entry: &str) -> (r: String)
    ensures
        r@ == trim(entry@).subrange(0, crate::text::index_of(trim(entry@), ':')),
{
    let v = chars_of(entry);
    let (a, b) = trim_bounds(&v, 0, v.len());
    assert(v@.subrange(0, v@.len() as int) =~= v@);
    let c = find_char(&v, a, b, ':');
    assert(v@.subrange(a as int, c as int) =~= trim(entry@).subrange(0, crate::text::index_of(trim(entry@), ':')));
    string_of(&v, a, c)
}

} // verus!
