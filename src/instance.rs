//! Installed instances: choosing a free instance ID, locating instance
//! directories, deciding an uninstall, and gathering instance metadata.

use vstd::prelude::*;
use crate::distro::meta::{read_as, PlatformInfo, SystemMeta};
use crate::error::InstallError;
use crate::text::{
    chars_of, concat, decimal_of, str_eq, decimal_string, ends_with, parse_u64, parse_u64_of,
    range_ends_with, range_starts_with, starts_with, string_of,
};

verus! {

/// The number that `id` carries after `base`, when `id` is `base` followed
/// by the decimal text of an unsigned 32-bit integer.
pub open spec fn suffix_of(id: Seq<char>, base: Seq<char>) -> Option<u64> {
    if starts_with(id, base) {
        match parse_u64_of(id.subrange(base.len() as int, id.len() as int)) {
            Some(n) => if n <= u32::MAX {
                Some(n)
            } else {
                None
            },
            None => None,
        }
    } else {
        None
    }
}

/// The largest suffix after `base` among `ids`, or 0 when none has one.
pub open spec fn max_suffix(ids: Seq<Seq<char>>, base: Seq<char>) -> u64
    decreases ids.len(),
{
    if ids.len() == 0 {
        0
    } else {
        let m = max_suffix(ids.drop_last(), base);
        match suffix_of(ids.last(), base) {
            Some(n) => if n > m {
                n
            } else {
                m
            },
            None => m,
        }
    }
}

pub open spec fn names_view(v: Seq<String>) -> Seq<Seq<char>> {
    v.map_values(|s: String| s@)
}

proof fn lemma_max_suffix_bound(ids: Seq<Seq<char>>, base: Seq<char>)
    ensures
        max_suffix(ids, base) <= u32::MAX,
        forall|k: int| 0 <= k < ids.len() ==> match #[trigger] suffix_of(ids[k], base) {
            Some(n) => n <= max_suffix(ids, base),
            None => true,
        },
    decreases ids.len(),
{
    if ids.len() > 0 {
        lemma_max_suffix_bound(ids.drop_last(), base);
        assert forall|k: int| 0 <= k < ids.len() implies match #[trigger] suffix_of(ids[k], base) {
            Some(n) => n <= max_suffix(ids, base),
            None => true,
        } by {
            if k < ids.len() - 1 {
                assert(ids.drop_last()[k] == ids[k]);
            }
        }
    }
}

/// The suffix that `id` carries after `base`, if any.
fn suffix_after(id: &String, base: &str) -> (r: Option<u64>)
    ensures
        r == suffix_of(id@, base@),
{
    let v = chars_of(id.as_str());
    let n = v.len();
    if !range_starts_with(&v, 0, n, base) {
        assert(v@.subrange(0, n as int) =~= v@);
        return None;
    }
    assert(v@.subrange(0, n as int) =~= v@);
    let b = base.unicode_len();
    let rest = string_of(&v, b, n);
    match parse_u64(rest.as_str()) {
        Some(k) => if k <= 4294967295u64 {
            Some(k)
        } else {
            None
        },
        None => None,
    }
}

/// A fresh instance ID for `base_name`: one more than the largest numeric
/// suffix that an existing ID carries after `base_name` (`base_name1` when
/// none does). A gap left by a removed instance is not reused.
pub fn generate_instance_id(base_name: &str, existing: &Vec<String>) -> (r: String)
    ensures
        r@ == base_name@ + decimal_of((max_suffix(names_view(existing@), base_name@) + 1) as nat),
{
    let mut max: u64 = 0;
    let mut i: usize = 0;
    assert(names_view(existing@.subrange(0, 0)) =~= Seq::<Seq<char>>::empty());
    while i < existing.len()
        invariant
            i <= existing@.len(),
            max == max_suffix(names_view(existing@.subrange(0, i as int)), base_name@),
        decreases existing@.len() - i,
    {
        let ghost pre = names_view(existing@.subrange(0, i + 1));
        assert(pre.drop_last() =~= names_view(existing@.subrange(0, i as int)));
        assert(pre.last() == existing@[i as int]@);
        match suffix_after(&existing[i], base_name) {
            Some(k) => if k > max {
                max = k;
            },
            None => {},
        }
        i = i + 1;
    }
    assert(existing@.subrange(0, i as int) =~= existing@);
    proof {
        lemma_max_suffix_bound(names_view(existing@), base_name@);
    }
    let digits = decimal_string(max + 1);
    concat(base_name, digits.as_str())
}

/// Every suffix that an existing ID carries is below that of the ID that
/// `generate_instance_id` makes, so the new ID is not one of them.
pub proof fn lemma_generated_suffix_is_new(ids: Seq<Seq<char>>, base: Seq<char>, k: int)
    requires
        0 <= k < ids.len(),
        suffix_of(ids[k], base) is Some,
    ensures
        suffix_of(ids[k], base).unwrap() < max_suffix(ids, base) + 1,
{
    lemma_max_suffix_bound(ids, base);
    assert(match suffix_of(ids[k], base) {
        Some(n) => n <= max_suffix(ids, base),
        None => true,
    });
}

/// The ID an install would use: the custom name when one is given, else a
/// fresh ID after `existing`.
pub open spec fn chosen_id(custom_name: Option<String>, base: Seq<char>, existing: Seq<Seq<char>>) -> Seq<char> {
    match custom_name {
        Some(c) => c@,
        None => base + decimal_of((max_suffix(existing, base) + 1) as nat),
    }
}

/// Chooses the ID of a new instance among the `existing` ones: the custom
/// name when one is given, else a fresh ID; an ID that is already taken is
/// refused with `SystemAlreadyExists`.
pub fn allocate_instance_id(custom_name: Option<String>, base_name: &str, existing: &Vec<String>) -> (r: Result<String, InstallError>)
    ensures
        names_view(existing@).contains(chosen_id(custom_name, base_name@, names_view(existing@))) ==> (r matches Err(InstallError::SystemAlreadyExists(id)) && id@ == chosen_id(custom_name, base_name@, names_view(existing@))),
        !names_view(existing@).contains(chosen_id(custom_name, base_name@, names_view(existing@))) ==> (r matches Ok(id) && id@ == chosen_id(custom_name, base_name@, names_view(existing@))),
{
    let ghost ev = names_view(existing@);
    let ghost want = chosen_id(custom_name, base_name@, ev);
    let id = match custom_name {
        Some(c) => c,
        None => generate_instance_id(base_name, existing),
    };
    assert(id@ == want);
    let mut i: usize = 0;
    while i < existing.len()
        invariant
            i <= existing@.len(),
            ev == names_view(existing@),
            id@ == want,
            want == chosen_id(custom_name, base_name@, ev),
            forall|j: int| 0 <= j < i ==> ev[j] != id@,
        decreases existing@.len() - i,
    {
        assert(ev[i as int] == existing@[i as int]@);
        if str_eq(existing[i].as_str(), id.as_str()) {
            assert(ev[i as int] == want);
            assert(ev.contains(want));
            let r = Err(InstallError::SystemAlreadyExists(id));
            assert(r matches Err(InstallError::SystemAlreadyExists(x)) && x@ == want);
            return r;
        }
        i = i + 1;
    }
    Ok(id)
}

/// `dir` joined with the relative path `name`.
pub open spec fn join_path(dir: Seq<char>, name: Seq<char>) -> Seq<char> {
    if dir.len() == 0 {
        name
    } else if ends_with(dir, "/"@) {
        dir + name
    } else {
        dir + "/"@ + name
    }
}

/// `dir` joined with the relative path `name`.
pub fn join_path_exec(dir: &str, name: &str) -> (r: String)
    ensures
        r@ == join_path(dir@, name@),
{
    let v = chars_of(dir);
    let n = v.len();
    assert(v@.subrange(0, n as int) =~= v@);
    if n == 0 {
        String::from_str(name)
    } else if range_ends_with(&v, 0, n, "/") {
        concat(dir, name)
    } else {
        let d = concat(dir, "/");
        concat(d.as_str(), name)
    }
}

/// A filesystem step of an uninstall.
#[derive(Debug, Clone, PartialEq, Eq)]
pub enum RemovalStep {
    /// Recursively grant full permissions on the path.
    GrantAll(String),
    /// Recursively delete the path.
    Delete(String),
}

/// The instances root, under which each instance has a directory named by its ID.
pub struct SystemManager {
    pub base_dir: String,
}

impl SystemManager {
    pub fn new(base_dir: String) -> (r: SystemManager)
        ensures
            r.base_dir@ == base_dir@,
    {
        SystemManager { base_dir }
    }

    /// The directory of the instance `system_id`.
    pub fn get_system_dir(&self, system_id: &str) -> (r: String)
        ensures
            r@ == join_path(self.base_dir@, system_id@),
    {
        join_path_exec(self.base_dir.as_str(), system_id)
    }

    /// The steps that remove the instance `system_id`, given whether its
    /// directory exists: none, and `SystemNotFound`, when it does not.
    pub fn uninstall(&self, system_id: &str, dir_exists: bool) -> (r: Result<Vec<RemovalStep>, InstallError>)
        ensures
            !dir_exists ==> (r matches Err(InstallError::SystemNotFound(id)) && id@ == system_id@),
            dir_exists ==> (r matches Ok(steps) && steps@.len() == 2 && (steps@[0] matches RemovalStep::GrantAll(p) && p@ == join_path(self.base_dir@, system_id@)) && (steps@[1] matches RemovalStep::Delete(p) && p@ == join_path(self.base_dir@, system_id@))),
    {
        if !dir_exists {
            return Err(InstallError::SystemNotFound(String::from_str(system_id)));
        }
        let dir = self.get_system_dir(system_id);
        let dir2 = self.get_system_dir(system_id);
        let mut steps: Vec<RemovalStep> = Vec::new();
        steps.push(RemovalStep::GrantAll(dir));
        steps.push(RemovalStep::Delete(dir2));
        Ok(steps)
    }
}

/// The metadata of each instance whose metadata file could be read, in the
/// order of `ids`; an instance without one is left out.
pub fn get_system_metas(ids: Vec<String>, contents: Vec<Option<String>>, platform: &PlatformInfo) -> (r: Vec<(String, SystemMeta)>)
    requires
        ids@.len() == contents@.len(),
    ensures
        r@.len() == count_readable(contents@),
        r@.map_values(|p: (String, SystemMeta)| p.0@) == readable_ids(names_view(ids@), contents@),
        r@.len() == present_texts(contents@).len(),
        forall|k: int| 0 <= k < r@.len() ==> read_as(present_texts(contents@)[k], *platform, #[trigger] r@[k].1),
{
    let mut out: Vec<(String, SystemMeta)> = Vec::new();
    let mut ids = ids;
    let mut contents = contents;
    let ghost orig = contents@;
    let ghost orig_ids = names_view(ids@);
    let mut i: usize = 0;
    let n = contents.len();
    assert(orig.subrange(0, 0) =~= Seq::<Option<String>>::empty());
    assert(out@.map_values(|p: (String, SystemMeta)| p.0@) =~= Seq::<Seq<char>>::empty());
    while i < n
        invariant
            n == orig.len() == orig_ids.len(),
            i <= n,
            ids@.len() == contents@.len() == n - i,
            contents@ == orig.subrange(i as int, n as int),
            names_view(ids@) == orig_ids.subrange(i as int, n as int),
            out@.len() == count_readable(orig.subrange(0, i as int)),
            out@.len() == present_texts(orig.subrange(0, i as int)).len(),
            forall|k: int| 0 <= k < out@.len() ==> read_as(present_texts(orig.subrange(0, i as int))[k], *platform, #[trigger] out@[k].1),
            out@.map_values(|p: (String, SystemMeta)| p.0@) == readable_ids(
                orig_ids.subrange(0, i as int),
                orig.subrange(0, i as int),
            ),
        decreases n - i,
    {
        let ghost before = out@;
        let ghost old_ids = ids@;
        assert(names_view(old_ids)[0] == old_ids[0]@);
        assert(names_view(old_ids)[0] == orig_ids[i as int]);
        let id = ids.remove(0);
        assert(ids@ =~= old_ids.drop_first());
        assert(names_view(ids@) =~= names_view(old_ids).drop_first());
        let c = contents.remove(0);
        assert(id@ == orig_ids[i as int]);
        assert(orig.subrange(0, i + 1).drop_last() =~= orig.subrange(0, i as int));
        assert(orig_ids.subrange(0, i + 1).drop_last() =~= orig_ids.subrange(0, i as int));
        assert(contents@ =~= orig.subrange(i + 1, n as int));
        assert(names_view(ids@) =~= orig_ids.subrange(i + 1, n as int));
        match c {
            Some(text) => {
                match SystemMeta::from_string(text.as_str(), platform) {
                    Ok(m) => {
                        let ghost tv = text@;
                        out.push((id, m));
                        assert(present_texts(orig.subrange(0, i + 1)) =~= present_texts(orig.subrange(0, i as int)).push(tv));
                        assert forall|k: int| 0 <= k < out@.len() implies read_as(present_texts(orig.subrange(0, i + 1))[k], *platform, #[trigger] out@[k].1) by {
                            if k < out@.len() - 1 {
                                assert(out@[k] == before[k]);
                            }
                        }
                        assert(out@.map_values(|p: (String, SystemMeta)| p.0@) =~= before.map_values(
                            |p: (String, SystemMeta)| p.0@,
                        ).push(orig_ids[i as int]));
                    },
                    Err(_) => {},
                }
            },
            None => {},
        }
        i = i + 1;
    }
    assert(orig.subrange(0, n as int) =~= orig);
    assert(orig_ids.subrange(0, n as int) =~= orig_ids);
    out
}

/// The IDs, in order, whose metadata is present.
pub open spec fn readable_ids(ids: Seq<Seq<char>>, contents: Seq<Option<String>>) -> Seq<Seq<char>>
    decreases contents.len(),
{
    if contents.len() == 0 || ids.len() == 0 {
        Seq::empty()
    } else {
        let p = readable_ids(ids.drop_last(), contents.drop_last());
        if contents.last() is Some {
            p.push(ids.last())
        } else {
            p
        }
    }
}

/// The texts, in order, of the metadata that is present.
pub open spec fn present_texts(contents: Seq<Option<String>>) -> Seq<Seq<char>>
    decreases contents.len(),
{
    if contents.len() == 0 {
        Seq::empty()
    } else {
        let p = present_texts(contents.drop_last());
        match contents.last() {
            Some(t) => p.push(t@),
            None => p,
        }
    }
}

/// How many of `contents` are present.
pub open spec fn count_readable(contents: Seq<Option<String>>) -> nat
    decreases contents.len(),
{
    if contents.len() == 0 {
        0
    } else {
        count_readable(contents.drop_last()) + if contents.last() is Some {
            1nat
        } else {
            0nat
        }
    }
}

} // verus!
