//! One catalog entry: a distro's download URL for each architecture it
//! supports, with its description and default package list.

use vstd::prelude::*;
use crate::arch::Architecture;
use crate::distro::name::DistroName;

verus! {

#[derive(Debug, Clone)]
pub struct DistroDefinition {
    pub name: DistroName,
    pub display_name: String,
    /// At most one URL for each architecture.
    pub urls: Vec<(Architecture, String)>,
    pub description: String,
    pub default_packages: Vec<String>,
}

/// The architectures that a URL list covers, in order.
pub open spec fn arches_in(urls: Seq<(Architecture, String)>) -> Seq<Architecture> {
    urls.map_values(|p: (Architecture, String)| p.0)
}

/// The URL that a list gives for `a`: that of its first pair for `a`.
pub open spec fn url_in(urls: Seq<(Architecture, String)>, a: Architecture) -> Option<Seq<char>>
    decreases urls.len(),
{
    if urls.len() == 0 {
        None
    } else if urls[0].0 == a {
        Some(urls[0].1@)
    } else {
        url_in(urls.drop_first(), a)
    }
}

/// The URL texts of a list, in order.
pub open spec fn url_texts(urls: Seq<(Architecture, String)>) -> Seq<Seq<char>> {
    urls.map_values(|p: (Architecture, String)| p.1@)
}

pub open spec fn string_views(v: Seq<String>) -> Seq<Seq<char>> {
    v.map_values(|s: String| s@)
}

impl DistroDefinition {
    pub open spec fn arches(&self) -> Seq<Architecture> {
        arches_in(self.urls@)
    }

    pub open spec fn wf(&self) -> bool {
        self.arches().no_duplicates()
    }

    pub open spec fn supports(&self, a: Architecture) -> bool {
        self.arches().contains(a)
    }

    pub open spec fn url_of(&self, a: Architecture) -> Option<Seq<char>> {
        url_in(self.urls@, a)
    }

    pub fn get_url(&self, arch: &Architecture) -> (r: Option<&String>)
        ensures
            match r {
                Some(u) => self.url_of(*arch) == Some(u@),
                None => self.url_of(*arch).is_none(),
            },
    {
        let mut i: usize = 0;
        assert(self.urls@.subrange(0, self.urls@.len() as int) =~= self.urls@);
        while i < self.urls.len()
            invariant
                i <= self.urls@.len(),
                self.url_of(*arch) == url_in(self.urls@.subrange(i as int, self.urls@.len() as int), *arch),
            decreases self.urls@.len() - i,
        {
            let ghost rest = self.urls@.subrange(i as int, self.urls@.len() as int);
            assert(rest.drop_first() =~= self.urls@.subrange(i + 1, self.urls@.len() as int));
            if self.urls[i].0 == *arch {
                return Some(&self.urls[i].1);
            }
            i = i + 1;
        }
        None
    }

    pub fn supports_arch(&self, arch: &Architecture) -> (r: bool)
        ensures
            r == self.supports(*arch),
    {
        let mut i: usize = 0;
        while i < self.urls.len()
            invariant
                i <= self.urls@.len(),
                forall|j: int| 0 <= j < i ==> self.urls@[j].0 != *arch,
            decreases self.urls@.len() - i,
        {
            if self.urls[i].0 == *arch {
                assert(self.arches()[i as int] == *arch);
                return true;
            }
            i = i + 1;
        }
        assert(!self.arches().contains(*arch));
        false
    }
}

proof fn lemma_url_in_iff(urls: Seq<(Architecture, String)>, a: Architecture)
    ensures
        url_in(urls, a).is_some() <==> arches_in(urls).contains(a),
    decreases urls.len(),
{
    if urls.len() > 0 {
        lemma_url_in_iff(urls.drop_first(), a);
        assert(arches_in(urls.drop_first()) =~= arches_in(urls).drop_first());
        if urls[0].0 == a {
            assert(arches_in(urls)[0] == a);
        } else {
            if arches_in(urls).contains(a) {
                let i = choose|i: int| 0 <= i < arches_in(urls).len() && arches_in(urls)[i] == a;
                assert(arches_in(urls.drop_first())[i - 1] == a);
            }
            if arches_in(urls.drop_first()).contains(a) {
                let i = choose|i: int|
                    0 <= i < arches_in(urls.drop_first()).len() && arches_in(urls.drop_first())[i]
                        == a;
                assert(arches_in(urls)[i + 1] == a);
            }
        }
    }
}

/// A URL that a list gives is one of its URL texts.
pub proof fn lemma_url_in_member(urls: Seq<(Architecture, String)>, a: Architecture)
    requires
        url_in(urls, a) is Some,
    ensures
        exists|j: int| 0 <= j < urls.len() && #[trigger] url_texts(urls)[j] == url_in(urls, a).unwrap(),
    decreases urls.len(),
{
    if urls[0].0 == a {
        assert(url_texts(urls)[0] == url_in(urls, a).unwrap());
    } else {
        lemma_url_in_member(urls.drop_first(), a);
        let j = choose|j: int| 0 <= j < urls.drop_first().len() && #[trigger] url_texts(urls.drop_first())[j] == url_in(urls.drop_first(), a).unwrap();
        assert(url_texts(urls)[j + 1] == url_texts(urls.drop_first())[j]);
    }
}

/// An entry supports an architecture exactly when it has a URL for it.
pub proof fn lemma_supports_iff_url(d: &DistroDefinition, a: Architecture)
    ensures
        d.supports(a) <==> d.url_of(a).is_some(),
{
    lemma_url_in_iff(d.urls@, a);
}

/// The list of owned strings that `items` names.
pub fn owned_strings(items: &Vec<&str>) -> (r: Vec<String>)
    ensures
        r@.len() == items@.len(),
        forall|i: int| 0 <= i < r@.len() ==> #[trigger] r@[i]@ == items@[i]@,
{
    let mut r: Vec<String> = Vec::new();
    let mut i: usize = 0;
    while i < items.len()
        invariant
            i <= items@.len(),
            r@.len() == i,
            forall|j: int| 0 <= j < i ==> #[trigger] r@[j]@ == items@[j]@,
        decreases items@.len() - i,
    {
        r.push(String::from_str(items[i]));
        i = i + 1;
    }
    r
}

/// Builds an entry from a list of (architecture, URL) pairs.
pub fn create_distro(
    name: DistroName,
    display_name: &str,
    urls: Vec<(Architecture, &str)>,
    description: &str,
    packages: Vec<&str>,
) -> (r: DistroDefinition)
    ensures
        r.name == name,
        r.display_name@ == display_name@,
        r.description@ == description@,
        r.arches() == urls@.map_values(|p: (Architecture, &str)| p.0),
        forall|i: int| 0 <= i < urls@.len() ==> (#[trigger] r.urls@[i]).1@ == urls@[i].1@,
        r.default_packages@.len() == packages@.len(),
        forall|i: int| 0 <= i < packages@.len() ==> #[trigger] r.default_packages@[i]@ == packages@[i]@,
{
    let mut map: Vec<(Architecture, String)> = Vec::new();
    let mut i: usize = 0;
    while i < urls.len()
        invariant
            i <= urls@.len(),
            map@.len() == i,
            forall|j: int|
                0 <= j < i ==> (#[trigger] map@[j]).0 == urls@[j].0 && map@[j].1@ == urls@[j].1@,
        decreases urls@.len() - i,
    {
        let (a, u) = urls[i];
        map.push((a, String::from_str(u)));
        i = i + 1;
    }
    let r = DistroDefinition {
        name,
        display_name: String::from_str(display_name),
        urls: map,
        description: String::from_str(description),
        default_packages: owned_strings(&packages),
    };
    assert(r.arches() =~= urls@.map_values(|p: (Architecture, &str)| p.0));
    r
}

} // verus!
