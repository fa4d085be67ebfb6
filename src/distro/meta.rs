//! The metadata record kept beside each installed instance, stored as flat
//! `key = value` lines and read back tolerantly.

use vstd::prelude::*;
use crate::config::{kv_entries, lookup, pairs_view, read_config_file};
use crate::error::InstallError;
use crate::text::{
    chars_of, find_char, index_of, is_space, lemma_index_of_concat, lemma_pieces_after_line,
    lemma_trim_after_space, lemma_trim_word_space, lines_of, pieces, split_lines, strip_cr,
    string_of, trim, trim_bounds,
};

verus! {

/// What the host platform reports, gathered where the record is made or read.
pub struct PlatformInfo {
    /// Seconds since the Unix epoch, or `None` when the clock is before it.
    pub now_secs: Option<u64>,
    /// The current user's name, or `None` when it could not be determined.
    pub user: Option<String>,
    /// Whether the current user is the superuser.
    pub is_root: bool,
}

#[derive(Debug, Clone)]
pub struct SystemMeta {
    pub name: String,
    pub os_type: String,
    pub created_at: String,
    pub user_group: String,
    pub permissions: String,
    pub mirror_url: Option<String>,
}

/// What chrono renders for a Unix timestamp in `%Y-%m-%dT%H:%M:%SZ` form,
/// or `None` when the timestamp is out of its range.
pub uninterp spec fn utc_text_of(secs: int) -> Option<Seq<char>>;

/// Relies on `chrono::DateTime::<Utc>::from_timestamp` and `format`: the UTC
/// date and time of a timestamp, `None` out of chrono's range. The format
/// always emits its literal `T` and `Z`, so the text is never empty.
#[verifier::external_body]
fn utc_timestamp(secs: i64) -> (r: Option<String>)
    ensures
        match r {
            Some(t) => utc_text_of(secs as int) == Some(t@) && t@.len() > 0,
            None => utc_text_of(secs as int).is_none(),
        },
{
    match chrono::DateTime::from_timestamp(secs, 0) {
        Some(dt) => Some(dt.format("%Y-%m-%dT%H:%M:%SZ").to_string()),
        None => None,
    }
}

pub open spec fn fallback_stamp() -> Seq<char> {
    "2025-01-01T00:00:00Z"@
}

/// The creation time recorded when none is given.
pub open spec fn created_default(p: PlatformInfo) -> Seq<char> {
    match p.now_secs {
        Some(s) => if s <= i64::MAX {
            match utc_text_of(s as int) {
                Some(t) => t,
                None => fallback_stamp(),
            }
        } else {
            fallback_stamp()
        },
        None => fallback_stamp(),
    }
}

/// The owner recorded when none is given.
pub open spec fn user_default(p: PlatformInfo) -> Seq<char> {
    match p.user {
        Some(u) => if u@.len() > 0 {
            u@
        } else {
            "unknown"@
        },
        None => "unknown"@,
    }
}

/// The permissions recorded when none are given.
pub open spec fn permissions_default(p: PlatformInfo) -> Seq<char> {
    if p.is_root {
        "755"@
    } else {
        "644"@
    }
}

/// One `key = value` line.
pub open spec fn meta_line(key: Seq<char>, value: Seq<char>) -> Seq<char> {
    key + " = "@ + value + "\n"@
}

/// The serialized form of a record.
pub open spec fn meta_text(m: SystemMeta) -> Seq<char> {
    meta_line("name"@, m.name@) + meta_line("os_type"@, m.os_type@) + meta_line(
        "created_at"@,
        m.created_at@,
    ) + meta_line("user_group"@, m.user_group@) + meta_line("permissions"@, m.permissions@)
        + match m.mirror_url {
        Some(u) => meta_line("mirror_url"@, u@),
        None => Seq::empty(),
    }
}

/// The pairs of a metadata text; a later line for a key overrides an earlier one.
pub open spec fn meta_entries(text: Seq<char>) -> Seq<(Seq<char>, Seq<char>)> {
    kv_entries(lines_of(text))
}

pub open spec fn value_or(o: Option<Seq<char>>, d: Seq<char>) -> Seq<char> {
    match o {
        Some(v) => v,
        None => d,
    }
}

fn owned_or(o: Option<&String>, d: &str) -> (r: String)
    ensures
        r@ == match o {
            Some(s) => s@,
            None => d@,
        },
{
    match o {
        Some(s) => s.clone(),
        None => String::from_str(d),
    }
}

/// The creation time for a new record.
pub fn default_created_at(p: &PlatformInfo) -> (r: String)
    ensures
        r@ == created_default(*p),
        r@.len() > 0,
{
    proof {
        reveal_strlit("2025-01-01T00:00:00Z");
    }
    match p.now_secs {
        Some(s) => if s <= i64::MAX as u64 {
            match utc_timestamp(s as i64) {
                Some(t) => t,
                None => String::from_str("2025-01-01T00:00:00Z"),
            }
        } else {
            String::from_str("2025-01-01T00:00:00Z")
        },
        None => String::from_str("2025-01-01T00:00:00Z"),
    }
}

/// The owner for a new record.
pub fn default_user_group(p: &PlatformInfo) -> (r: String)
    ensures
        r@ == user_default(*p),
        r@.len() > 0,
{
    proof {
        reveal_strlit("unknown");
    }
    match &p.user {
        Some(u) => if u.as_str().unicode_len() > 0 {
            u.clone()
        } else {
            String::from_str("unknown")
        },
        None => String::from_str("unknown"),
    }
}

/// The permissions for a new record.
pub fn default_permissions(p: &PlatformInfo) -> (r: String)
    ensures
        r@ == permissions_default(*p),
        r@.len() > 0,
{
    proof {
        reveal_strlit("755");
        reveal_strlit("644");
    }
    if p.is_root {
        String::from_str("755")
    } else {
        String::from_str("644")
    }
}

fn push_line(out: &mut String, key: &str, value: &str)
    ensures
        final(out)@ == old(out)@ + meta_line(key@, value@),
{
    let ghost start = out@;
    out.append(key);
    out.append(" = ");
    out.append(value);
    out.append("\n");
    assert(out@ =~= start + meta_line(key@, value@));
}

/// What reading `text` back yields, given the platform: each field takes
/// the value of its key when present, else its default; the defaults of the
/// time, owner and permissions are never empty.
pub open spec fn read_as(text: Seq<char>, platform: PlatformInfo, m: SystemMeta) -> bool {
    let e = meta_entries(text);
    &&& m.name@ == value_or(lookup(e, "name"@), Seq::empty())
    &&& m.os_type@ == value_or(lookup(e, "os_type"@), Seq::empty())
    &&& m.created_at@ == value_or(lookup(e, "created_at"@), created_default(platform))
    &&& m.user_group@ == value_or(lookup(e, "user_group"@), user_default(platform))
    &&& m.permissions@ == value_or(lookup(e, "permissions"@), permissions_default(platform))
    &&& match m.mirror_url {
        Some(u) => lookup(e, "mirror_url"@) == Some(u@),
        None => lookup(e, "mirror_url"@).is_none(),
    }
    &&& lookup(e, "created_at"@).is_none() ==> m.created_at@.len() > 0
    &&& lookup(e, "user_group"@).is_none() ==> m.user_group@.len() > 0
    &&& lookup(e, "permissions"@).is_none() ==> m.permissions@.len() > 0
}

impl SystemMeta {
    /// A record for a new instance, stamped with the platform's time, user
    /// and permissions.
    pub fn new(name: String, os_type: String, platform: &PlatformInfo) -> (r: SystemMeta)
        ensures
            r.name@ == name@,
            r.os_type@ == os_type@,
            r.created_at@ == created_default(*platform),
            r.user_group@ == user_default(*platform),
            r.permissions@ == permissions_default(*platform),
            r.mirror_url.is_none(),
            r.created_at@.len() > 0,
            r.user_group@.len() > 0,
            r.permissions@.len() > 0,
    {
        SystemMeta {
            name,
            os_type,
            created_at: default_created_at(platform),
            user_group: default_user_group(platform),
            permissions: default_permissions(platform),
            mirror_url: None,
        }
    }

    /// The flat `key = value` text of the record; `mirror_url` only when set.
    pub fn to_string(&self) -> (r: String)
        ensures
            r@ == meta_text(*self),
    {
        let mut out = String::new();
        push_line(&mut out, "name", self.name.as_str());
        push_line(&mut out, "os_type", self.os_type.as_str());
        push_line(&mut out, "created_at", self.created_at.as_str());
        push_line(&mut out, "user_group", self.user_group.as_str());
        push_line(&mut out, "permissions", self.permissions.as_str());
        match &self.mirror_url {
            Some(u) => push_line(&mut out, "mirror_url", u.as_str()),
            None => {},
        }
        assert(out@ =~= meta_text(*self));
        out
    }

        /// Reads a record back. Missing keys get defaults: an empty name and
    /// type, and the platform's time, user and permissions.
    pub fn from_string(content: &str, platform: &PlatformInfo) -> (r: Result<SystemMeta, InstallError>)
        ensures
            r matches Ok(m) && read_as(content@, *platform, m),
    {
        let pairs = read_config_file(content);
        proof {
            reveal_strlit("");
        }
        let created_at = match pairs.get("created_at") {
            Some(s) => s.clone(),
            None => default_created_at(platform),
        };
        let user_group = match pairs.get("user_group") {
            Some(s) => s.clone(),
            None => default_user_group(platform),
        };
        let permissions = match pairs.get("permissions") {
            Some(s) => s.clone(),
            None => default_permissions(platform),
        };
        let mirror_url = match pairs.get("mirror_url") {
            Some(s) => Some(s.clone()),
            None => None,
        };
        let m = SystemMeta {
            name: owned_or(pairs.get("name"), ""),
            os_type: owned_or(pairs.get("os_type"), ""),
            created_at,
            user_group,
            permissions,
            mirror_url,
        };
        let ghost e = meta_entries(content@);
        assert(m.name@ == value_or(lookup(e, "name"@), Seq::empty()));
        assert(m.os_type@ == value_or(lookup(e, "os_type"@), Seq::empty()));
        assert(m.created_at@ == value_or(lookup(e, "created_at"@), created_default(*platform)));
        assert(m.permissions@ == value_or(lookup(e, "permissions"@), permissions_default(*platform)));
        Ok(m)
    }
}

/// A field value that survives a text round trip: one line, no outer whitespace.
pub open spec fn field_ok(v: Seq<char>) -> bool {
    trim(v) == v && !v.contains('\n')
}

/// Every field of the record survives a text round trip.
pub open spec fn meta_fields_ok(m: SystemMeta) -> bool {
    &&& field_ok(m.name@)
    &&& field_ok(m.os_type@)
    &&& field_ok(m.created_at@)
    &&& field_ok(m.user_group@)
    &&& field_ok(m.permissions@)
    &&& match m.mirror_url {
        Some(u) => field_ok(u@),
        None => true,
    }
}

/// A key as the record writes it: a non-empty word without `=`.
pub open spec fn key_ok(k: Seq<char>) -> bool {
    k.len() > 0 && forall|i: int| 0 <= i < k.len() ==> !is_space(#[trigger] k[i]) && k[i] != '=' && k[i] != '\n'
}

pub open spec fn line_body(k: Seq<char>, v: Seq<char>) -> Seq<char> {
    k + " = "@ + v
}

/// The text of lines, each followed by a line break.
pub open spec fn joined_lines(ls: Seq<Seq<char>>) -> Seq<char>
    decreases ls.len(),
{
    if ls.len() == 0 {
        Seq::empty()
    } else {
        ls[0].push('\n') + joined_lines(ls.drop_first())
    }
}

/// Appending a line to a list appends it, with its line break, to the text.
pub proof fn lemma_joined_push(ls: Seq<Seq<char>>, x: Seq<char>)
    ensures
        joined_lines(ls.push(x)) == joined_lines(ls) + x.push('\n'),
    decreases ls.len(),
{
    if ls.len() == 0 {
        assert(ls.push(x).drop_first() =~= Seq::<Seq<char>>::empty());
        assert(ls.push(x)[0] == x);
        assert(joined_lines(Seq::<Seq<char>>::empty()) == Seq::<char>::empty());
        assert(joined_lines(ls) == Seq::<char>::empty());
        assert(joined_lines(ls.push(x)) =~= x.push('\n'));
    } else {
        assert(ls.push(x).drop_first() =~= ls.drop_first().push(x));
        assert(ls.push(x)[0] == ls[0]);
        lemma_joined_push(ls.drop_first(), x);
        assert(joined_lines(ls.push(x)) =~= joined_lines(ls) + x.push('\n'));
    }
}

pub proof fn lemma_line_body(k: Seq<char>, v: Seq<char>)
    requires
        key_ok(k),
        field_ok(v),
    ensures
        !line_body(k, v).contains('\n'),
        strip_cr(line_body(k, v)) == line_body(k, v),
        meta_line(k, v) == line_body(k, v).push('\n'),
        index_of(line_body(k, v), '=') == k.len() + 1,
        k.len() + 1 < line_body(k, v).len(),
        trim(line_body(k, v).subrange(0, k.len() + 1int)) == k,
        trim(line_body(k, v).subrange(k.len() + 2int, line_body(k, v).len() as int)) == v,
{
    reveal_strlit(" = ");
    reveal_strlit("\n");
    let l = line_body(k, v);
    assert(l =~= k + (seq![' ', '='] + (seq![' '] + v)));
    assert(meta_line(k, v) =~= l.push('\n'));
    assert(!l.contains('\n')) by {
        if l.contains('\n') {
            let i = choose|i: int| 0 <= i < l.len() && l[i] == '\n';
            if i < k.len() {
                assert(l[i] == k[i]);
            } else if i >= k.len() + 3 {
                assert(l[i] == v[i - k.len() - 3]);
            }
        }
    }
    if v.len() > 0 {
        crate::text::lemma_trimmed_ends(v);
        assert(l.last() == v.last());
    } else {
        assert(l.last() == ' ');
    }
    assert(!k.contains('=')) by {
        if k.contains('=') {
            let i = choose|i: int| 0 <= i < k.len() && k[i] == '=';
            assert(k[i] != '=');
        }
    }
    let t = seq![' ', '='] + (seq![' '] + v);
    lemma_index_of_concat(k, t, '=');
    assert(t.len() > 0 && t[0] == ' ');
    assert(t.drop_first() =~= seq!['='] + (seq![' '] + v));
    assert(t.drop_first().len() > 0 && t.drop_first()[0] == '=');
    assert(index_of(t.drop_first(), '=') == 0);
    assert(index_of(t, '=') == 1);
    assert(l.subrange(0, k.len() + 1int) =~= k.push(' '));
    lemma_trim_word_space(k);
    assert(l.subrange(k.len() + 2int, l.len() as int) =~= seq![' '] + v);
    lemma_trim_after_space(v);
}

pub proof fn lemma_lines_of_joined(ls: Seq<Seq<char>>)
    requires
        forall|i: int| 0 <= i < ls.len() ==> !(#[trigger] ls[i]).contains('\n') && strip_cr(ls[i]) == ls[i],
    ensures
        pieces(joined_lines(ls)) == ls.push(Seq::<char>::empty()),
        lines_of(joined_lines(ls)) == ls,
    decreases ls.len(),
{
    if ls.len() == 0 {
        assert(pieces(Seq::<char>::empty()) =~= seq![Seq::<char>::empty()]);
    } else {
        let rest = ls.drop_first();
        assert forall|i: int| 0 <= i < rest.len() implies !(#[trigger] rest[i]).contains('\n') && strip_cr(rest[i]) == rest[i] by {
            assert(rest[i] == ls[i + 1]);
        }
        lemma_lines_of_joined(rest);
        assert(!ls[0].contains('\n'));
        lemma_pieces_after_line(ls[0], joined_lines(rest));
        assert(seq![ls[0]] + rest.push(Seq::<char>::empty()) =~= ls.push(Seq::<char>::empty()));
    }
    let p = pieces(joined_lines(ls));
    assert(p.drop_last() =~= ls);
    assert(p.last() =~= Seq::<char>::empty());
    assert(p.drop_last().map_values(|l: Seq<char>| strip_cr(l)) =~= ls);
}

/// The pairs that the first `n` record lines yield.
proof fn lemma_kv_entries_of_lines(ks: Seq<Seq<char>>, vs: Seq<Seq<char>>, n: nat)
    requires
        n <= ks.len() == vs.len(),
        forall|i: int| 0 <= i < ks.len() ==> key_ok(#[trigger] ks[i]) && field_ok(vs[i]),
    ensures
        kv_entries(Seq::new(n, |i: int| line_body(ks[i], vs[i]))) == Seq::new(n, |i: int| (ks[i], vs[i])),
    decreases n,
{
    let ls = Seq::new(n, |i: int| line_body(ks[i], vs[i]));
    if n > 0 {
        let m = (n - 1) as nat;
        lemma_kv_entries_of_lines(ks, vs, m);
        assert(ls.drop_last() =~= Seq::new(m, |i: int| line_body(ks[i], vs[i])));
        assert(key_ok(ks[m as int]) && field_ok(vs[m as int]));
        lemma_line_body(ks[m as int], vs[m as int]);
        let l = ls.last();
        assert(l == line_body(ks[m as int], vs[m as int]));
        let e = index_of(l, '=');
        assert(e < l.len());
        assert(kv_entries(ls) == kv_entries(ls.drop_last()).push(
            (trim(l.subrange(0, e)), trim(l.subrange(e + 1, l.len() as int))),
        ));
        assert(Seq::new(m, |i: int| (ks[i], vs[i])).push((ks[m as int], vs[m as int])) =~= Seq::new(
            n,
            |i: int| (ks[i], vs[i]),
        ));
    } else {
        assert(ls =~= Seq::<Seq<char>>::empty());
        assert(Seq::new(n, |i: int| (ks[i], vs[i])) =~= Seq::<(Seq<char>, Seq<char>)>::empty());
    }
}

proof fn lemma_record_keys()
    ensures
        key_ok("name"@),
        key_ok("os_type"@),
        key_ok("created_at"@),
        key_ok("user_group"@),
        key_ok("permissions"@),
        key_ok("mirror_url"@),
        "name"@ != "os_type"@,
        "name"@ != "created_at"@,
        "name"@ != "user_group"@,
        "name"@ != "permissions"@,
        "name"@ != "mirror_url"@,
        "os_type"@ != "created_at"@,
        "os_type"@ != "user_group"@,
        "os_type"@ != "permissions"@,
        "os_type"@ != "mirror_url"@,
        "created_at"@ != "user_group"@,
        "created_at"@ != "permissions"@,
        "created_at"@ != "mirror_url"@,
        "user_group"@ != "permissions"@,
        "user_group"@ != "mirror_url"@,
        "permissions"@ != "mirror_url"@,
{
    reveal_strlit("name");
    reveal_strlit("os_type");
    reveal_strlit("created_at");
    reveal_strlit("user_group");
    reveal_strlit("permissions");
    reveal_strlit("mirror_url");
    assert("created_at"@[0] != "user_group"@[0]);
    assert("created_at"@[0] != "mirror_url"@[0]);
    assert("user_group"@[0] != "mirror_url"@[0]);
}

/// The keys that a record's text holds, in order.
pub open spec fn record_keys(m: SystemMeta) -> Seq<Seq<char>> {
    let base = seq!["name"@, "os_type"@, "created_at"@, "user_group"@, "permissions"@];
    match m.mirror_url {
        Some(u) => base.push("mirror_url"@),
        None => base,
    }
}

/// The values that a record's text holds, in order.
pub open spec fn record_values(m: SystemMeta) -> Seq<Seq<char>> {
    let base = seq![m.name@, m.os_type@, m.created_at@, m.user_group@, m.permissions@];
    match m.mirror_url {
        Some(u) => base.push(u@),
        None => base,
    }
}

proof fn lemma_joined_cons(x: Seq<char>, rest: Seq<Seq<char>>)
    ensures
        joined_lines(seq![x] + rest) == x.push('\n') + joined_lines(rest),
{
    assert((seq![x] + rest).drop_first() =~= rest);
    assert((seq![x] + rest)[0] == x);
}

proof fn lemma_meta_text_joined(m: SystemMeta)
    ensures
        meta_text(m) == joined_lines(Seq::new(
            record_keys(m).len(),
            |i: int| line_body(record_keys(m)[i], record_values(m)[i]),
        )),
{
    let ks = record_keys(m);
    let vs = record_values(m);
    let ls = Seq::new(ks.len(), |i: int| line_body(ks[i], vs[i]));
    assert forall|k: Seq<char>, v: Seq<char>| #[trigger] meta_line(k, v) == line_body(k, v).push('\n') by {
        reveal_strlit("\n");
        assert(meta_line(k, v) =~= line_body(k, v).push('\n'));
    }
    let tail: Seq<Seq<char>> = match m.mirror_url {
        Some(u) => seq![line_body("mirror_url"@, u@)],
        None => Seq::empty(),
    };
    let l0 = line_body(ks[0], vs[0]);
    let l1 = line_body(ks[1], vs[1]);
    let l2 = line_body(ks[2], vs[2]);
    let l3 = line_body(ks[3], vs[3]);
    let l4 = line_body(ks[4], vs[4]);
    assert(ls =~= seq![l0] + (seq![l1] + (seq![l2] + (seq![l3] + (seq![l4] + tail)))));
    lemma_joined_cons(l0, seq![l1] + (seq![l2] + (seq![l3] + (seq![l4] + tail))));
    lemma_joined_cons(l1, seq![l2] + (seq![l3] + (seq![l4] + tail)));
    lemma_joined_cons(l2, seq![l3] + (seq![l4] + tail));
    lemma_joined_cons(l3, seq![l4] + tail);
    lemma_joined_cons(l4, tail);
    let tail_text = match m.mirror_url {
        Some(u) => meta_line("mirror_url"@, u@),
        None => Seq::empty(),
    };
    match m.mirror_url {
        Some(u) => {
            lemma_joined_cons(line_body("mirror_url"@, u@), Seq::empty());
            assert(seq![line_body("mirror_url"@, u@)] + Seq::<Seq<char>>::empty() =~= tail);
            assert(joined_lines(Seq::<Seq<char>>::empty()) =~= Seq::<char>::empty());
            assert(joined_lines(tail) =~= tail_text);
        },
        None => {
            assert(joined_lines(tail) =~= tail_text);
        },
    }
    assert(meta_text(m) =~= l0.push('\n') + (l1.push('\n') + (l2.push('\n') + (l3.push('\n') + (
    l4.push('\n') + tail_text)))));
}

proof fn lemma_record_lookups(m: SystemMeta, e: Seq<(Seq<char>, Seq<char>)>)
    requires
        e == Seq::new(record_keys(m).len(), |i: int| (record_keys(m)[i], record_values(m)[i])),
    ensures
        lookup(e, "name"@) == Some(m.name@),
        lookup(e, "os_type"@) == Some(m.os_type@),
        lookup(e, "created_at"@) == Some(m.created_at@),
        lookup(e, "user_group"@) == Some(m.user_group@),
        lookup(e, "permissions"@) == Some(m.permissions@),
        lookup(e, "mirror_url"@) == match m.mirror_url {
            Some(u) => Some(u@),
            None => None::<Seq<char>>,
        },
{
    lemma_record_keys();
    let e5 = seq![("name"@, m.name@), ("os_type"@, m.os_type@), ("created_at"@, m.created_at@), ("user_group"@, m.user_group@), ("permissions"@, m.permissions@)];
    let e4 = e5.drop_last();
    let e3 = e4.drop_last();
    let e2 = e3.drop_last();
    let e1 = e2.drop_last();
    assert(e1.drop_last() =~= Seq::<(Seq<char>, Seq<char>)>::empty());
    match m.mirror_url {
        Some(u) => {
            assert(e =~= e5.push(("mirror_url"@, u@)));
            assert(e.drop_last() =~= e5);
        },
        None => {
            assert(e =~= e5);
        },
    }
    reveal_with_fuel(lookup, 7);
}

/// A record whose fields are single lines without outer whitespace reads
/// back from its text with every field it holds: with `from_string`, whose
/// result takes each present key's value, serializing and parsing again
/// gives the same record, whatever the platform.
pub proof fn lemma_meta_round_trip(m: SystemMeta)
    requires
        meta_fields_ok(m),
    ensures
        lookup(meta_entries(meta_text(m)), "name"@) == Some(m.name@),
        lookup(meta_entries(meta_text(m)), "os_type"@) == Some(m.os_type@),
        lookup(meta_entries(meta_text(m)), "created_at"@) == Some(m.created_at@),
        lookup(meta_entries(meta_text(m)), "user_group"@) == Some(m.user_group@),
        lookup(meta_entries(meta_text(m)), "permissions"@) == Some(m.permissions@),
        lookup(meta_entries(meta_text(m)), "mirror_url"@) == match m.mirror_url {
            Some(u) => Some(u@),
            None => None::<Seq<char>>,
        },
{
    lemma_record_keys();
    let ks = record_keys(m);
    let vs = record_values(m);
    assert forall|i: int| 0 <= i < ks.len() implies key_ok(#[trigger] ks[i]) && field_ok(vs[i]) by {
    }
    let ls = Seq::new(ks.len(), |i: int| line_body(ks[i], vs[i]));
    assert forall|i: int| 0 <= i < ls.len() implies !(#[trigger] ls[i]).contains('\n') && strip_cr(ls[i]) == ls[i] by {
        lemma_line_body(ks[i], vs[i]);
    }
    lemma_lines_of_joined(ls);
    lemma_kv_entries_of_lines(ks, vs, ks.len());
    lemma_meta_text_joined(m);
    lemma_record_lookups(m, Seq::new(ks.len(), |i: int| (ks[i], vs[i])));
}

/// A record text of just a name and a type reads back with that name and
/// type, no mirror, and the platform's non-empty defaults for the time, the
/// owner and the permissions.
pub proof fn lemma_two_field_record(n: Seq<char>, t: Seq<char>, platform: PlatformInfo, m: SystemMeta)
    requires
        field_ok(n),
        field_ok(t),
        read_as(meta_line("name"@, n) + meta_line("os_type"@, t), platform, m),
    ensures
        m.name@ == n,
        m.os_type@ == t,
        m.created_at@ == created_default(platform),
        m.user_group@ == user_default(platform),
        m.permissions@ == permissions_default(platform),
        m.created_at@.len() > 0,
        m.user_group@.len() > 0,
        m.permissions@.len() > 0,
        m.mirror_url.is_none(),
{
    lemma_record_keys();
    let ks = seq!["name"@, "os_type"@];
    let vs = seq![n, t];
    let ls = Seq::new(2, |i: int| line_body(ks[i], vs[i]));
    assert forall|i: int| 0 <= i < ks.len() implies key_ok(#[trigger] ks[i]) && field_ok(vs[i]) by {
    }
    assert forall|i: int| 0 <= i < ls.len() implies !(#[trigger] ls[i]).contains('\n') && strip_cr(ls[i]) == ls[i] by {
        lemma_line_body(ks[i], vs[i]);
    }
    lemma_lines_of_joined(ls);
    lemma_kv_entries_of_lines(ks, vs, 2);
    lemma_line_body("name"@, n);
    lemma_line_body("os_type"@, t);
    lemma_joined_cons(ls[0], seq![ls[1]]);
    lemma_joined_cons(ls[1], Seq::empty());
    assert(ls =~= seq![ls[0]] + seq![ls[1]]);
    assert(seq![ls[1]] =~= seq![ls[1]] + Seq::<Seq<char>>::empty());
    assert(joined_lines(Seq::<Seq<char>>::empty()) == Seq::<char>::empty());
    assert(meta_line("name"@, n) + meta_line("os_type"@, t) =~= joined_lines(ls));
    let e = Seq::new(2, |i: int| (ks[i], vs[i]));
    assert(e =~= seq![("name"@, n), ("os_type"@, t)]);
    assert(e.drop_last() =~= seq![("name"@, n)]);
    assert(e.drop_last().drop_last() =~= Seq::<(Seq<char>, Seq<char>)>::empty());
    reveal_with_fuel(lookup, 3);
}

} // verus!
