//! The user configuration file: `key = value` lines, `#` comments, and
//! values that span several lines between `---` markers. Every query parses
//! the text afresh.

use vstd::prelude::*;
use crate::distro::meta::{joined_lines, key_ok, lemma_joined_push, lemma_line_body, lemma_lines_of_joined, line_body};
use crate::error::InstallError;
use crate::text::{
    chars_of, concat, ends_with, index_of, join, lines_of, lower_of, lowercase, push_range,
    range_ends_with, range_starts_with, split_lines, starts_with, str_eq, string_of,
    trim, trim_bounds, trim_end, trim_end_bound, find_char, is_space, strip_cr, trim_start,
};

verus! {

/// The block marker.
pub open spec fn marker() -> Seq<char> {
    "---"@
}

/// A value that opens a block: it starts with the marker and does not also
/// close on the same line.
pub open spec fn opens_block(value: Seq<char>) -> bool {
    starts_with(value, marker()) && !(value.len() >= 6 && ends_with(value, marker()))
}

/// The value stored for a single-line entry: a value framed by markers on
/// both sides loses them, anything else is kept as it is.
pub open spec fn inline_value(value: Seq<char>) -> Seq<char> {
    if value.len() >= 6 && starts_with(value, marker()) && ends_with(value, marker()) {
        trim(value.subrange(3, value.len() - 3))
    } else {
        value
    }
}

/// A line that ends a block: ignoring trailing whitespace, it ends with the marker.
pub open spec fn closes_block(line: Seq<char>) -> bool {
    ends_with(trim_end(line), marker())
}

/// The closing line with its marker and trailing whitespace removed.
pub open spec fn without_marker(line: Seq<char>) -> Seq<char> {
    trim_end(line).subrange(0, trim_end(line).len() - 3)
}

/// How many lines from `j` on precede the line that closes the block.
pub open spec fn block_len(lines: Seq<Seq<char>>, j: int) -> nat
    decreases lines.len() - j,
{
    if j < 0 || j >= lines.len() {
        0
    } else if closes_block(lines[j]) {
        0
    } else {
        1 + block_len(lines, j + 1)
    }
}

/// The parts of a block opened on line `i` with `value` and closed on line
/// `c` (or running to the end of the text when `c` is past it).
pub open spec fn block_parts(lines: Seq<Seq<char>>, i: int, c: int, value: Seq<char>) -> Seq<Seq<char>> {
    let first = if value.len() > 3 {
        seq![value.subrange(3, value.len() as int)]
    } else {
        Seq::empty()
    };
    let last = if c < lines.len() {
        seq![without_marker(lines[c])]
    } else {
        Seq::empty()
    };
    first + lines.subrange(i + 1, c) + last
}

/// The entries, in order, that the lines from `i` on define.
pub open spec fn entries_from(lines: Seq<Seq<char>>, i: int) -> Seq<(Seq<char>, Seq<char>)>
    decreases lines.len() - i,
{
    if i < 0 || i >= lines.len() {
        Seq::empty()
    } else {
        let t = trim(lines[i]);
        let eq = index_of(t, '=');
        if t.len() == 0 || t[0] == '#' || eq >= t.len() {
            entries_from(lines, i + 1)
        } else {
            let key = trim(t.subrange(0, eq));
            let value = trim(t.subrange(eq + 1, t.len() as int));
            if opens_block(value) {
                let c = i + 1 + block_len(lines, i + 1);
                let next = if c + 1 > lines.len() {
                    lines.len() as int
                } else {
                    c + 1
                };
                seq![(key, trim(join(block_parts(lines, i, c, value), "\n"@)))] + entries_from(
                    lines,
                    next,
                )
            } else {
                seq![(key, inline_value(value))] + entries_from(lines, i + 1)
            }
        }
    }
}

/// The entries of a configuration text, in order of appearance.
pub open spec fn config_entries(text: Seq<char>) -> Seq<(Seq<char>, Seq<char>)> {
    entries_from(lines_of(text), 0)
}

/// The value of the last entry for `key`: a later line overrides an earlier one.
pub open spec fn lookup(entries: Seq<(Seq<char>, Seq<char>)>, key: Seq<char>) -> Option<Seq<char>>
    decreases entries.len(),
{
    if entries.len() == 0 {
        None
    } else if entries.last().0 == key {
        Some(entries.last().1)
    } else {
        lookup(entries.drop_last(), key)
    }
}

pub open spec fn pairs_view(v: Seq<(String, String)>) -> Seq<(Seq<char>, Seq<char>)> {
    v.map_values(|p: (String, String)| (p.0@, p.1@))
}

/// The parsed key/value entries of a configuration text.
pub struct ConfigMap {
    pub entries: Vec<(String, String)>,
}

/// Whether some entry of `e` has key `k`.
pub open spec fn has_key(e: Seq<(Seq<char>, Seq<char>)>, k: Seq<char>) -> bool {
    exists|i: int| 0 <= i < e.len() && (#[trigger] e[i]).0 == k
}

/// How many different keys `e` has.
pub open spec fn distinct_keys(e: Seq<(Seq<char>, Seq<char>)>) -> nat
    decreases e.len(),
{
    if e.len() == 0 {
        0
    } else {
        distinct_keys(e.drop_last()) + if has_key(e.drop_last(), e.last().0) {
            0nat
        } else {
            1nat
        }
    }
}

impl ConfigMap {
    pub open spec fn view_entries(&self) -> Seq<(Seq<char>, Seq<char>)> {
        pairs_view(self.entries@)
    }

    /// How many different keys have a value.
    pub fn len(&self) -> (r: usize)
        ensures
            r == distinct_keys(self.view_entries()),
    {
        let n = self.entries.len();
        let ghost e = self.view_entries();
        let mut count: usize = 0;
        let mut i: usize = 0;
        assert(e.subrange(0, 0) =~= Seq::<(Seq<char>, Seq<char>)>::empty());
        while i < n
            invariant
                n == self.entries@.len(),
                e == self.view_entries(),
                i <= n,
                count <= i,
                count == distinct_keys(e.subrange(0, i as int)),
            decreases n - i,
        {
            let mut j: usize = 0;
            let mut seen = false;
            while j < i
                invariant
                    i < n == self.entries@.len(),
                    e == self.view_entries(),
                    j <= i,
                    seen == exists|q: int| 0 <= q < j && (#[trigger] e[q]).0 == e[i as int].0,
                decreases i - j,
            {
                assert(e[j as int].0 == self.entries@[j as int].0@);
                assert(e[i as int].0 == self.entries@[i as int].0@);
                if str_eq(self.entries[j].0.as_str(), self.entries[i].0.as_str()) {
                    seen = true;
                }
                j = j + 1;
            }
            let ghost pre = e.subrange(0, i as int);
            let ghost cur = e.subrange(0, i + 1);
            assert(cur.drop_last() =~= pre);
            assert(cur.last() == e[i as int]);
            assert(seen == has_key(pre, e[i as int].0)) by {
                if seen {
                    let q = choose|q: int| 0 <= q < i && (#[trigger] e[q]).0 == e[i as int].0;
                    assert(pre[q] == e[q]);
                }
                if has_key(pre, e[i as int].0) {
                    let q = choose|q: int| 0 <= q < pre.len() && (#[trigger] pre[q]).0 == e[i as int].0;
                    assert(pre[q] == e[q]);
                }
            }
            if !seen {
                count = count + 1;
            }
            i = i + 1;
        }
        assert(e.subrange(0, n as int) =~= e);
        count
    }

    /// Whether there are no entries at all.
    pub fn is_empty(&self) -> (r: bool)
        ensures
            r == (self.view_entries().len() == 0),
    {
        self.entries.len() == 0
    }

    /// The value stored under `key`, if any.
    pub fn get(&self, key: &str) -> (r: Option<&String>)
        ensures
            match r {
                Some(v) => lookup(self.view_entries(), key@) == Some(v@),
                None => lookup(self.view_entries(), key@).is_none(),
            },
    {
        let mut i: usize = self.entries.len();
        assert(self.entries@.subrange(0, i as int) =~= self.entries@);
        while i > 0
            invariant
                i <= self.entries@.len(),
                lookup(self.view_entries(), key@) == lookup(pairs_view(self.entries@.subrange(0, i as int)), key@),
            decreases i,
        {
            let ghost pre = pairs_view(self.entries@.subrange(0, i as int));
            assert(pre.drop_last() =~= pairs_view(self.entries@.subrange(0, i - 1)));
            assert(pre.last() == (self.entries@[i - 1].0@, self.entries@[i - 1].1@));
            if str_eq(self.entries[i - 1].0.as_str(), key) {
                return Some(&self.entries[i - 1].1);
            }
            i = i - 1;
        }
        None
    }
}

/// Appends `v[lo..hi]` to a block being joined with newlines.
fn push_part(
    acc: &mut String,
    v: &Vec<char>,
    lo: usize,
    hi: usize,
    is_first: bool,
    Ghost(parts): Ghost<Seq<Seq<char>>>,
)
    requires
        lo <= hi <= v@.len(),
        is_first == (parts.len() == 0),
        old(acc)@ == join(parts, "\n"@),
    ensures
        final(acc)@ == join(parts.push(v@.subrange(lo as int, hi as int)), "\n"@),
{
    let ghost p = v@.subrange(lo as int, hi as int);
    assert(parts.push(p).drop_last() =~= parts);
    if is_first {
        assert(acc@.len() == 0);
        push_range(acc, v, lo, hi);
        assert(acc@ =~= p);
    } else {
        let ghost before = acc@;
        acc.append("\n");
        proof {
            reveal_strlit("\n");
        }
        push_range(acc, v, lo, hi);
        assert(acc@ =~= before + "\n"@ + p);
    }
}

/// The value of a block opened at line `i` whose value text is `v[vlo..vhi]`,
/// with the index of its closing line (the line count when it never closes).
fn read_block(
    v: &Vec<char>,
    lines: &Vec<(usize, usize)>,
    i: usize,
    vlo: usize,
    vhi: usize,
    Ghost(ls): Ghost<Seq<Seq<char>>>,
) -> (r: (String, usize))
    requires
        i < lines@.len() == ls.len(),
        vlo <= vhi <= v@.len(),
        vhi - vlo >= 3,
        forall|k: int|
            #![trigger lines@[k]]
            0 <= k < lines@.len() ==> lines@[k].0 <= lines@[k].1 <= v@.len(),
        forall|k: int|
            0 <= k < lines@.len() ==> v@.subrange(lines@[k].0 as int, lines@[k].1 as int) == #[trigger] ls[k],
    ensures
        r.1 == i + 1 + block_len(ls, i + 1),
        r.1 <= ls.len(),
        r.0@ == trim(join(block_parts(ls, i as int, r.1 as int, v@.subrange(vlo as int, vhi as int)), "\n"@)),
{
    let ghost value = v@.subrange(vlo as int, vhi as int);
    let mut acc = String::new();
    let ghost mut parts: Seq<Seq<char>> = Seq::empty();
    proof {
        reveal_strlit("\n");
    }
    if vhi - vlo > 3 {
        push_part(&mut acc, v, vlo + 3, vhi, true, Ghost(parts));
        proof {
            parts = parts.push(v@.subrange(vlo + 3, vhi as int));
            assert(v@.subrange(vlo + 3, vhi as int) =~= value.subrange(3, value.len() as int));
        }
    }
    let ghost first = parts;
    let mut empty = vhi - vlo <= 3;
    let n = lines.len();
    let mut k: usize = i + 1;
    assert(ls.subrange(i + 1, i + 1) =~= Seq::<Seq<char>>::empty());
    while k < n
        invariant
            i < n == lines@.len() == ls.len(),
            vlo <= vhi <= v@.len(),
            value == v@.subrange(vlo as int, vhi as int),
            i + 1 <= k <= n,
            forall|q: int|
                #![trigger lines@[q]]
                0 <= q < lines@.len() ==> lines@[q].0 <= lines@[q].1 <= v@.len(),
            forall|q: int|
                0 <= q < lines@.len() ==> v@.subrange(lines@[q].0 as int, lines@[q].1 as int) == #[trigger] ls[q],
            block_len(ls, i + 1) == (k - (i + 1)) + block_len(ls, k as int),
            parts == first + ls.subrange(i + 1, k as int),
            acc@ == join(parts, "\n"@),
            empty == (parts.len() == 0),
            first == (if value.len() > 3 { seq![value.subrange(3, value.len() as int)] } else { Seq::<Seq<char>>::empty() }),
        decreases n - k,
    {
        let (lo, hi) = lines[k];
        let e = trim_end_bound(v, lo, hi);
        assert(v@.subrange(lo as int, e as int) == trim_end(ls[k as int]));
        if range_ends_with(v, lo, e, "---") {
            assert(closes_block(ls[k as int]));
            assert(block_len(ls, k as int) == 0);
            proof {
                reveal_strlit("---");
            }
            push_part(&mut acc, v, lo, e - 3, empty, Ghost(parts));
            proof {
                assert(v@.subrange(lo as int, e - 3) =~= without_marker(ls[k as int]));
                assert(block_parts(ls, i as int, k as int, value) =~= parts.push(without_marker(ls[k as int])));
            }
            assert(acc@ == join(block_parts(ls, i as int, k as int, value), "\n"@));
            let value_chars = chars_of(acc.as_str());
            let (a, b) = trim_bounds(&value_chars, 0, value_chars.len());
            assert(value_chars@.subrange(0, value_chars@.len() as int) =~= value_chars@);
            let out = string_of(&value_chars, a, b);
            assert(out@ == trim(join(block_parts(ls, i as int, k as int, value), "\n"@)));
            return (out, k);
        }
        push_part(&mut acc, v, lo, hi, empty, Ghost(parts));
        empty = false;
        proof {
            assert(ls.subrange(i + 1, k + 1) =~= ls.subrange(i + 1, k as int).push(ls[k as int]));
            parts = parts.push(ls[k as int]);
            assert(parts =~= first + ls.subrange(i + 1, k + 1));
        }
        k = k + 1;
    }
    assert(block_len(ls, k as int) == 0);
    assert(block_parts(ls, i as int, k as int, value) =~= parts);
    let value_chars = chars_of(acc.as_str());
    let (a, b) = trim_bounds(&value_chars, 0, value_chars.len());
    assert(value_chars@.subrange(0, value_chars@.len() as int) =~= value_chars@);
    (string_of(&value_chars, a, b), k)
}

/// The entry that line `i` starts, if any, and the line where the next
/// entry may start.
fn parse_entry(
    v: &Vec<char>,
    lines: &Vec<(usize, usize)>,
    i: usize,
    Ghost(ls): Ghost<Seq<Seq<char>>>,
) -> (r: (Option<(String, String)>, usize))
    requires
        i < lines@.len() == ls.len(),
        forall|k: int|
            #![trigger lines@[k]]
            0 <= k < lines@.len() ==> lines@[k].0 <= lines@[k].1 <= v@.len(),
        forall|k: int|
            0 <= k < lines@.len() ==> v@.subrange(lines@[k].0 as int, lines@[k].1 as int) == #[trigger] ls[k],
    ensures
        i < r.1 <= ls.len(),
        entries_from(ls, i as int) == match r.0 {
            Some(p) => seq![(p.0@, p.1@)] + entries_from(ls, r.1 as int),
            None => entries_from(ls, r.1 as int),
        },
{
    proof {
        reveal_strlit("---");
    }
    let n = lines.len();
    let (lo, hi) = lines[i];
    let (a, b) = trim_bounds(v, lo, hi);
    let ghost t = trim(ls[i as int]);
    assert(v@.subrange(a as int, b as int) == t);
    let eq = find_char(v, a, b, '=');
    if a == b || v[a] == '#' || eq == b {
        assert(t.len() == 0 || t[0] == '#' || index_of(t, '=') >= t.len());
        return (None, i + 1);
    }
    let (ka, kb) = trim_bounds(v, a, eq);
    let (va, vb) = trim_bounds(v, eq + 1, b);
    assert(v@.subrange(a as int, eq as int) =~= t.subrange(0, index_of(t, '=')));
    assert(v@.subrange(eq + 1, b as int) =~= t.subrange(index_of(t, '=') + 1, t.len() as int));
    let key = string_of(v, ka, kb);
    let ghost value = v@.subrange(va as int, vb as int);
    let starts = range_starts_with(v, va, vb, "---");
    let ends = range_ends_with(v, va, vb, "---");
    if starts && !(vb - va >= 6 && ends) {
        assert(opens_block(value));
        let (val, c) = read_block(v, lines, i, va, vb, Ghost(ls));
        let next = if c < lines.len() {
            c + 1
        } else {
            lines.len()
        };
        (Some((key, val)), next)
    } else {
        let val = if vb - va >= 6 && starts && ends {
            let (ia, ib) = trim_bounds(v, va + 3, vb - 3);
            assert(v@.subrange(va + 3, vb - 3) =~= value.subrange(3, value.len() - 3));
            string_of(v, ia, ib)
        } else {
            string_of(v, va, vb)
        };
        (Some((key, val)), i + 1)
    }
}

/// Parses a configuration text into its entries.
pub fn parse_config(content: &str) -> (r: ConfigMap)
    ensures
        r.view_entries() == config_entries(content@),
{
    let v = chars_of(content);
    let lines = split_lines(&v);
    let ghost ls = lines_of(v@);
    let n = lines.len();
    let mut out: Vec<(String, String)> = Vec::new();
    let mut i: usize = 0;
    while i < n
        invariant
            n == lines@.len() == ls.len(),
            i <= n,
            ls == lines_of(v@),
            v@ == content@,
            forall|q: int|
                #![trigger lines@[q]]
                0 <= q < lines@.len() ==> lines@[q].0 <= lines@[q].1 <= v@.len(),
            forall|q: int|
                0 <= q < lines@.len() ==> v@.subrange(lines@[q].0 as int, lines@[q].1 as int) == #[trigger] ls[q],
            entries_from(ls, 0) == pairs_view(out@) + entries_from(ls, i as int),
        decreases n - i,
    {
        let (entry, next) = parse_entry(&v, &lines, i, Ghost(ls));
        match entry {
            Some(p) => {
                let ghost before = out@;
                let ghost pv = (p.0@, p.1@);
                out.push(p);
                assert(pairs_view(out@) =~= pairs_view(before).push(pv));
                assert(pairs_view(out@) + entries_from(ls, next as int) =~= pairs_view(before) + (
                seq![pv] + entries_from(ls, next as int)));
            },
            None => {},
        }
        i = next;
    }
    assert(entries_from(ls, i as int) =~= Seq::<(Seq<char>, Seq<char>)>::empty());
    assert(pairs_view(out@) + Seq::<(Seq<char>, Seq<char>)>::empty() =~= pairs_view(out@));
    ConfigMap { entries: out }
}

/// The built-in mirror for a lowercased distro name.
pub open spec fn default_mirror_of(t: Seq<char>) -> Option<Seq<char>> {
    if t == "ubuntu"@ {
        Some("https://mirrors.ustc.edu.cn/ubuntu/"@)
    } else if t == "debian"@ {
        Some("https://mirrors.163.com/debian/"@)
    } else if t == "kali"@ {
        Some("http://http.kali.org/kali/"@)
    } else if t == "centos"@ {
        Some("https://mirrors.aliyun.com/centos/"@)
    } else if t == "fedora"@ {
        Some("https://mirrors.tuna.tsinghua.edu.cn/fedora/"@)
    } else {
        None
    }
}

/// The built-in mirror for a distro name in any letter case.
pub fn get_default_mirror(distro_name: &str) -> (r: Result<String, InstallError>)
    ensures
        match default_mirror_of(lower_of(distro_name@)) {
            Some(m) => r matches Ok(s) && s@ == m,
            None => r matches Err(InstallError::UnknownDistro(n)) && n@ == distro_name@,
        },
{
    let l = lowercase(distro_name);
    let t = l.as_str();
    if str_eq(t, "ubuntu") {
        Ok(String::from_str("https://mirrors.ustc.edu.cn/ubuntu/"))
    } else if str_eq(t, "debian") {
        Ok(String::from_str("https://mirrors.163.com/debian/"))
    } else if str_eq(t, "kali") {
        Ok(String::from_str("http://http.kali.org/kali/"))
    } else if str_eq(t, "centos") {
        Ok(String::from_str("https://mirrors.aliyun.com/centos/"))
    } else if str_eq(t, "fedora") {
        Ok(String::from_str("https://mirrors.tuna.tsinghua.edu.cn/fedora/"))
    } else {
        Err(InstallError::UnknownDistro(String::from_str(distro_name)))
    }
}

/// The lines of the template written when no configuration file exists yet.
pub open spec fn default_config_lines() -> Seq<Seq<char>> {
    seq![
        "# 镜像源配置"@,
        "ubuntu-mirror = https://mirrors.ustc.edu.cn/ubuntu/"@,
        "debian-mirror = https://mirrors.163.com/debian/"@,
        "kali-mirror = http://http.kali.org/kali/"@,
        "centos-mirror = https://mirrors.aliyun.com/centos/"@,
        "fedora-mirror = https://mirrors.tuna.tsinghua.edu.cn/fedora/"@,
        ""@,
        "# 自定义下载链接配置（可选）"@,
        "# ubuntu-link = https://custom-mirror.com/ubuntu-rootfs-arm64.tar.xz"@,
        "# debian-link = https://custom-mirror.com/debian-rootfs-arm64.tar.xz"@,
        "# kali-link = https://custom-mirror.com/kali-rootfs-arm64.tar.xz"@,
        "# centos-link = https://custom-mirror.com/centos-rootfs-arm64.tar.xz"@,
        "# fedora-link = https://custom-mirror.com/fedora-rootfs-arm64.tar.xz"@,
        ""@,
        "# Shell 配置（可选）"@,
        "# 自定义登录 shell 命令，默认为 /bin/bash --login"@,
        "# shell = /bin/zsh --login"@,
        ""@,
        "# 自定义初始化命令（可选，支持多行格式）"@,
        "# ubuntu-init = ---"@,
        "# apt update"@,
        "# apt install -y vim curl wget"@,
        "# ---"@,
        "# debian-init = ---"@,
        "# apt update"@,
        "# apt install -y build-essential git"@,
        "# ---"@,
    ]
}

/// The entries that the template defines: the built-in mirror of each of
/// the five distros that have one, and nothing else.
pub open spec fn default_config_entries() -> Seq<(Seq<char>, Seq<char>)> {
    seq![
        ("ubuntu-mirror"@, default_mirror_of("ubuntu"@).unwrap()),
        ("debian-mirror"@, default_mirror_of("debian"@).unwrap()),
        ("kali-mirror"@, default_mirror_of("kali"@).unwrap()),
        ("centos-mirror"@, default_mirror_of("centos"@).unwrap()),
        ("fedora-mirror"@, default_mirror_of("fedora"@).unwrap()),
    ]
}

/// A line that does not define an entry.
proof fn lemma_skipped_line(ls: Seq<Seq<char>>, i: int)
    requires
        0 <= i < ls.len(),
        ls[i].len() == 0 || (ls[i][0] == '#'),
    ensures
        entries_from(ls, i) == entries_from(ls, i + 1),
{
    if ls[i].len() > 0 {
        lemma_trim_first(ls[i]);
    } else {
        assert(trim(ls[i]).len() == 0);
    }
}

/// The first character of a text that does not start with whitespace
/// survives trimming.
proof fn lemma_trim_first(l: Seq<char>)
    requires
        l.len() > 0,
        !is_space(l[0]),
    ensures
        trim(l).len() > 0,
        trim(l)[0] == l[0],
    decreases l.len(),
{
    assert(trim_start(l) == l);
    lemma_trim_end_keeps_first(l);
    crate::text::lemma_trim_end_prefix(l);
    assert(trim(l)[0] == trim_end(l).subrange(0, trim_end(l).len() as int)[0]);
}

proof fn lemma_trim_end_keeps_first(l: Seq<char>)
    requires
        l.len() > 0,
        !is_space(l[0]),
    ensures
        trim_end(l).len() > 0,
    decreases l.len(),
{
    if is_space(l.last()) {
        assert(l.len() >= 2) by {
            if l.len() == 1 {
                assert(l.last() == l[0]);
            }
        }
        assert(l.drop_last()[0] == l[0]);
        lemma_trim_end_keeps_first(l.drop_last());
    }
}

/// A `key = value` line with a plain value defines that entry.
proof fn lemma_mirror_line(ls: Seq<Seq<char>>, i: int, k: Seq<char>, v: Seq<char>)
    requires
        0 <= i < ls.len(),
        ls[i] == line_body(k, v),
        key_ok(k),
        k[0] != '#',
        trim(v) == v,
        !v.contains('\n'),
        v.len() > 0,
        v[0] != '-',
    ensures
        entries_from(ls, i) == seq![(k, v)] + entries_from(ls, i + 1),
{
    reveal_strlit(" = ");
    reveal_strlit("---");
    let l = ls[i];
    lemma_line_body(k, v);
    crate::text::lemma_trimmed_ends(v);
    assert(l =~= k + (seq![' ', '=', ' '] + v));
    assert(l[0] == k[0]);
    assert(!is_space(k[0]));
    assert(l.last() == v.last());
    assert(trim_start(l) == l);
    assert(trim_end(l) == l);
    assert(trim(l) == l);
    assert(!starts_with(v, marker())) by {
        if starts_with(v, marker()) {
            assert(v.subrange(0, 3)[0] == v[0]);
        }
    }
    let t = trim(l);
    let eq = index_of(t, '=');
    assert(eq == k.len() + 1);
    assert(eq < t.len());
    assert(t.len() > 0 && t[0] != '#');
    assert(trim(t.subrange(0, eq)) == k);
    assert(trim(t.subrange(eq + 1, t.len() as int)) == v);
    assert(!opens_block(v));
    assert(inline_value(v) == v);
}

/// The template defines exactly the entries of `default_config_entries`.
pub proof fn lemma_default_config_entries()
    ensures
        config_entries(joined_lines(default_config_lines())) == default_config_entries(),
{
    reveal_strlit(" = ");
    reveal_strlit("# 镜像源配置");
    reveal_strlit("ubuntu-mirror = https://mirrors.ustc.edu.cn/ubuntu/");
    reveal_strlit("debian-mirror = https://mirrors.163.com/debian/");
    reveal_strlit("kali-mirror = http://http.kali.org/kali/");
    reveal_strlit("centos-mirror = https://mirrors.aliyun.com/centos/");
    reveal_strlit("fedora-mirror = https://mirrors.tuna.tsinghua.edu.cn/fedora/");
    reveal_strlit("");
    reveal_strlit("# 自定义下载链接配置（可选）");
    reveal_strlit("# ubuntu-link = https://custom-mirror.com/ubuntu-rootfs-arm64.tar.xz");
    reveal_strlit("# debian-link = https://custom-mirror.com/debian-rootfs-arm64.tar.xz");
    reveal_strlit("# kali-link = https://custom-mirror.com/kali-rootfs-arm64.tar.xz");
    reveal_strlit("# centos-link = https://custom-mirror.com/centos-rootfs-arm64.tar.xz");
    reveal_strlit("# fedora-link = https://custom-mirror.com/fedora-rootfs-arm64.tar.xz");
    reveal_strlit("");
    reveal_strlit("# Shell 配置（可选）");
    reveal_strlit("# 自定义登录 shell 命令，默认为 /bin/bash --login");
    reveal_strlit("# shell = /bin/zsh --login");
    reveal_strlit("");
    reveal_strlit("# 自定义初始化命令（可选，支持多行格式）");
    reveal_strlit("# ubuntu-init = ---");
    reveal_strlit("# apt update");
    reveal_strlit("# apt install -y vim curl wget");
    reveal_strlit("# ---");
    reveal_strlit("# debian-init = ---");
    reveal_strlit("# apt update");
    reveal_strlit("# apt install -y build-essential git");
    reveal_strlit("# ---");
    reveal_strlit("ubuntu-mirror");
    reveal_strlit("https://mirrors.ustc.edu.cn/ubuntu/");
    reveal_strlit("ubuntu");
    reveal_strlit("debian-mirror");
    reveal_strlit("https://mirrors.163.com/debian/");
    reveal_strlit("debian");
    reveal_strlit("kali-mirror");
    reveal_strlit("http://http.kali.org/kali/");
    reveal_strlit("kali");
    reveal_strlit("centos-mirror");
    reveal_strlit("https://mirrors.aliyun.com/centos/");
    reveal_strlit("centos");
    reveal_strlit("fedora-mirror");
    reveal_strlit("https://mirrors.tuna.tsinghua.edu.cn/fedora/");
    reveal_strlit("fedora");
    let ls = default_config_lines();
    assert forall|i: int| 0 <= i < ls.len() implies !(#[trigger] ls[i]).contains('\n') && strip_cr(ls[i]) == ls[i] by {
        assert(ls[i].len() == 0 || ls[i].last() != '\r');
        if ls[i].contains('\n') {
            let j = choose|j: int| 0 <= j < ls[i].len() && ls[i][j] == '\n';
        }
    }
    lemma_lines_of_joined(ls);
    lemma_skipped_line(ls, 26);
    lemma_skipped_line(ls, 25);
    lemma_skipped_line(ls, 24);
    lemma_skipped_line(ls, 23);
    lemma_skipped_line(ls, 22);
    lemma_skipped_line(ls, 21);
    lemma_skipped_line(ls, 20);
    lemma_skipped_line(ls, 19);
    lemma_skipped_line(ls, 18);
    lemma_skipped_line(ls, 17);
    lemma_skipped_line(ls, 16);
    lemma_skipped_line(ls, 15);
    lemma_skipped_line(ls, 14);
    lemma_skipped_line(ls, 13);
    lemma_skipped_line(ls, 12);
    lemma_skipped_line(ls, 11);
    lemma_skipped_line(ls, 10);
    lemma_skipped_line(ls, 9);
    lemma_skipped_line(ls, 8);
    lemma_skipped_line(ls, 7);
    lemma_skipped_line(ls, 6);
    assert(ls[5] =~= line_body("fedora-mirror"@, "https://mirrors.tuna.tsinghua.edu.cn/fedora/"@));
    lemma_mirror_line(ls, 5, "fedora-mirror"@, "https://mirrors.tuna.tsinghua.edu.cn/fedora/"@);
    assert(ls[4] =~= line_body("centos-mirror"@, "https://mirrors.aliyun.com/centos/"@));
    lemma_mirror_line(ls, 4, "centos-mirror"@, "https://mirrors.aliyun.com/centos/"@);
    assert(ls[3] =~= line_body("kali-mirror"@, "http://http.kali.org/kali/"@));
    lemma_mirror_line(ls, 3, "kali-mirror"@, "http://http.kali.org/kali/"@);
    assert(ls[2] =~= line_body("debian-mirror"@, "https://mirrors.163.com/debian/"@));
    lemma_mirror_line(ls, 2, "debian-mirror"@, "https://mirrors.163.com/debian/"@);
    assert(ls[1] =~= line_body("ubuntu-mirror"@, "https://mirrors.ustc.edu.cn/ubuntu/"@));
    lemma_mirror_line(ls, 1, "ubuntu-mirror"@, "https://mirrors.ustc.edu.cn/ubuntu/"@);
    lemma_skipped_line(ls, 0);
    assert(entries_from(ls, 27) =~= Seq::<(Seq<char>, Seq<char>)>::empty());
    assert(default_mirror_of("ubuntu"@) == Some("https://mirrors.ustc.edu.cn/ubuntu/"@));
    assert("debian"@[0] != "ubuntu"@[0] || "debian"@.len() != "ubuntu"@.len());
    assert(default_mirror_of("debian"@) == Some("https://mirrors.163.com/debian/"@));
    assert("kali"@[0] != "ubuntu"@[0] || "kali"@.len() != "ubuntu"@.len());
    assert("kali"@[0] != "debian"@[0] || "kali"@.len() != "debian"@.len());
    assert(default_mirror_of("kali"@) == Some("http://http.kali.org/kali/"@));
    assert("centos"@[0] != "ubuntu"@[0] || "centos"@.len() != "ubuntu"@.len());
    assert("centos"@[0] != "debian"@[0] || "centos"@.len() != "debian"@.len());
    assert("centos"@[0] != "kali"@[0] || "centos"@.len() != "kali"@.len());
    assert(default_mirror_of("centos"@) == Some("https://mirrors.aliyun.com/centos/"@));
    assert("fedora"@[0] != "ubuntu"@[0] || "fedora"@.len() != "ubuntu"@.len());
    assert("fedora"@[0] != "debian"@[0] || "fedora"@.len() != "debian"@.len());
    assert("fedora"@[0] != "kali"@[0] || "fedora"@.len() != "kali"@.len());
    assert("fedora"@[0] != "centos"@[0] || "fedora"@.len() != "centos"@.len());
    assert(default_mirror_of("fedora"@) == Some("https://mirrors.tuna.tsinghua.edu.cn/fedora/"@));
    assert(entries_from(ls, 6) == Seq::<(Seq<char>, Seq<char>)>::empty());
    assert(entries_from(ls, 1) =~= seq![("ubuntu-mirror"@, "https://mirrors.ustc.edu.cn/ubuntu/"@), ("debian-mirror"@, "https://mirrors.163.com/debian/"@), ("kali-mirror"@, "http://http.kali.org/kali/"@), ("centos-mirror"@, "https://mirrors.aliyun.com/centos/"@), ("fedora-mirror"@, "https://mirrors.tuna.tsinghua.edu.cn/fedora/"@)]);
    assert(default_config_entries() =~= seq![("ubuntu-mirror"@, "https://mirrors.ustc.edu.cn/ubuntu/"@), ("debian-mirror"@, "https://mirrors.163.com/debian/"@), ("kali-mirror"@, "http://http.kali.org/kali/"@), ("centos-mirror"@, "https://mirrors.aliyun.com/centos/"@), ("fedora-mirror"@, "https://mirrors.tuna.tsinghua.edu.cn/fedora/"@)]);
    assert(entries_from(ls, 0) =~= default_config_entries());
}

/// The commented template written when no configuration file exists yet:
/// the built-in mirrors as entries, and commented examples of custom links,
/// the login shell and initialisation commands.
pub fn get_default_config_content() -> (r: String)
    ensures
        r@ == joined_lines(default_config_lines()),
        config_entries(r@) == default_config_entries(),
{
    let lines: Vec<&str> = vec![
        "# 镜像源配置",
        "ubuntu-mirror = https://mirrors.ustc.edu.cn/ubuntu/",
        "debian-mirror = https://mirrors.163.com/debian/",
        "kali-mirror = http://http.kali.org/kali/",
        "centos-mirror = https://mirrors.aliyun.com/centos/",
        "fedora-mirror = https://mirrors.tuna.tsinghua.edu.cn/fedora/",
        "",
        "# 自定义下载链接配置（可选）",
        "# ubuntu-link = https://custom-mirror.com/ubuntu-rootfs-arm64.tar.xz",
        "# debian-link = https://custom-mirror.com/debian-rootfs-arm64.tar.xz",
        "# kali-link = https://custom-mirror.com/kali-rootfs-arm64.tar.xz",
        "# centos-link = https://custom-mirror.com/centos-rootfs-arm64.tar.xz",
        "# fedora-link = https://custom-mirror.com/fedora-rootfs-arm64.tar.xz",
        "",
        "# Shell 配置（可选）",
        "# 自定义登录 shell 命令，默认为 /bin/bash --login",
        "# shell = /bin/zsh --login",
        "",
        "# 自定义初始化命令（可选，支持多行格式）",
        "# ubuntu-init = ---",
        "# apt update",
        "# apt install -y vim curl wget",
        "# ---",
        "# debian-init = ---",
        "# apt update",
        "# apt install -y build-essential git",
        "# ---",
    ];
    assert(lines@.map_values(|l: &str| l@) =~= default_config_lines());
    let mut out = String::new();
    let mut i: usize = 0;
    assert(default_config_lines().subrange(0, 0) =~= Seq::<Seq<char>>::empty());
    while i < lines.len()
        invariant
            i <= lines@.len(),
            lines@.map_values(|l: &str| l@) == default_config_lines(),
            out@ == joined_lines(default_config_lines().subrange(0, i as int)),
        decreases lines@.len() - i,
    {
        let ghost before = out@;
        out.append(lines[i]);
        out.append("\n");
        proof {
            reveal_strlit("\n");
            let ls = default_config_lines();
            lemma_joined_push(ls.subrange(0, i as int), ls[i as int]);
            assert(ls.subrange(0, i + 1) =~= ls.subrange(0, i as int).push(ls[i as int]));
            assert(ls[i as int] == lines@[i as int]@);
            assert(out@ =~= before + ls[i as int].push('\n'));
        }
        i = i + 1;
    }
    assert(default_config_lines().subrange(0, i as int) =~= default_config_lines());
    proof {
        lemma_default_config_entries();
    }
    out
}

/// Access to the user's configuration: the text of the configuration file as
/// it was read, or why it could not be read. Each query parses the text anew.
pub struct ConfigManager {
    pub source: Result<String, String>,
}

/// What a query for `key` finds in a configuration source.
pub open spec fn query(source: Result<String, String>, key: Seq<char>) -> Result<Option<Seq<char>>, Seq<char>> {
    match source {
        Ok(t) => Ok(lookup(config_entries(t@), key)),
        Err(e) => Err(e@),
    }
}

/// The key under which `kind` is configured for a distro.
pub open spec fn distro_key(name: Seq<char>, kind: Seq<char>) -> Seq<char> {
    lower_of(name) + kind
}

/// The outcome of an optional lookup, as the queries return it.
pub open spec fn optional_result(q: Result<Option<Seq<char>>, Seq<char>>, r: Result<Option<String>, InstallError>) -> bool {
    match q {
        Ok(Some(v)) => r matches Ok(Some(s)) && s@ == v,
        Ok(None) => r matches Ok(None),
        Err(e) => r matches Err(InstallError::ConfigIOError(m)) && m@ == e,
    }
}

impl ConfigManager {
    /// A manager over configuration text that was read successfully.
    pub fn with_content(text: String) -> (r: ConfigManager)
        ensures
            r.source matches Ok(t) && t@ == text@,
    {
        ConfigManager { source: Ok(text) }
    }

    /// A manager whose configuration file could not be read.
    pub fn unreadable(reason: String) -> (r: ConfigManager)
        ensures
            r.source matches Err(e) && e@ == reason@,
    {
        ConfigManager { source: Err(reason) }
    }

    /// Parses the configuration text.
    pub fn load_config(&self) -> (r: Result<ConfigMap, InstallError>)
        ensures
            match self.source {
                Ok(t) => r matches Ok(m) && m.view_entries() == config_entries(t@),
                Err(e) => r matches Err(InstallError::ConfigIOError(m)) && m@ == e@,
            },
    {
        match &self.source {
            Ok(t) => Ok(parse_config(t.as_str())),
            Err(e) => Err(InstallError::ConfigIOError(e.clone())),
        }
    }

    /// The value configured under `key`, if any.
    pub fn get_value(&self, key: &str) -> (r: Result<Option<String>, InstallError>)
        ensures
            optional_result(query(self.source, key@), r),
    {
        match self.load_config() {
            Ok(m) => match m.get(key) {
                Some(v) => Ok(Some(v.clone())),
                None => Ok(None),
            },
            Err(e) => Err(e),
        }
    }

    /// The configured mirror for a distro, else its built-in mirror; an
    /// unknown distro without a configured mirror is an error.
    pub fn get_mirror_for_distro(&self, distro_name: &str) -> (r: Result<String, InstallError>)
        ensures
            match query(self.source, distro_key(distro_name@, "-mirror"@)) {
                Ok(Some(v)) => r matches Ok(s) && s@ == v,
                Ok(None) => match default_mirror_of(lower_of(distro_name@)) {
                    Some(m) => r matches Ok(s) && s@ == m,
                    None => r matches Err(InstallError::UnknownDistro(n)) && n@ == distro_name@,
                },
                Err(e) => r matches Err(InstallError::ConfigIOError(m)) && m@ == e,
            },
    {
        let l = lowercase(distro_name);
        let key = concat(l.as_str(), "-mirror");
        match self.get_value(key.as_str()) {
            Ok(Some(v)) => Ok(v),
            Ok(None) => get_default_mirror(distro_name),
            Err(e) => Err(e),
        }
    }

    /// A custom download link for a distro, used in place of the catalog URL.
    pub fn get_download_link_for_distro(&self, distro_name: &str) -> (r: Result<Option<String>, InstallError>)
        ensures
            optional_result(query(self.source, distro_key(distro_name@, "-link"@)), r),
    {
        let l = lowercase(distro_name);
        let key = concat(l.as_str(), "-link");
        self.get_value(key.as_str())
    }

    /// The configured login-shell command, if any.
    pub fn get_shell_command(&self) -> (r: Result<Option<String>, InstallError>)
        ensures
            optional_result(query(self.source, "shell"@), r),
    {
        self.get_value("shell")
    }

    /// Commands configured to run in a new instance of a distro, if any.
    pub fn get_init_commands_for_distro(&self, distro_name: &str) -> (r: Result<Option<String>, InstallError>)
        ensures
            optional_result(query(self.source, distro_key(distro_name@, "-init"@)), r),
    {
        let l = lowercase(distro_name);
        let key = concat(l.as_str(), "-init");
        self.get_value(key.as_str())
    }
}

/// The `key = value` pairs of a list of lines: each line with an `=` is split
/// at its first one, and both sides are trimmed; other lines are ignored.
pub open spec fn kv_entries(lines: Seq<Seq<char>>) -> Seq<(Seq<char>, Seq<char>)>
    decreases lines.len(),
{
    if lines.len() == 0 {
        Seq::empty()
    } else {
        let p = kv_entries(lines.drop_last());
        let l = lines.last();
        let e = index_of(l, '=');
        if e < l.len() {
            p.push((trim(l.subrange(0, e)), trim(l.subrange(e + 1, l.len() as int))))
        } else {
            p
        }
    }
}

/// Reads plain `key = value` lines: each line with an `=` is split at its
/// first one and both sides are trimmed; there are no comments or blocks.
pub fn read_config_file(content: &str) -> (r: ConfigMap)
    ensures
        r.view_entries() == kv_entries(lines_of(content@)),
{
    let v = chars_of(content);
    let lines = split_lines(&v);
    let ghost ls = lines_of(v@);
    let n = lines.len();
    let mut out: Vec<(String, String)> = Vec::new();
    let mut i: usize = 0;
    assert(ls.subrange(0, 0) =~= Seq::<Seq<char>>::empty());
    while i < n
        invariant
            n == lines@.len() == ls.len(),
            i <= n,
            ls == lines_of(v@),
            v@ == content@,
            forall|q: int|
                #![trigger lines@[q]]
                0 <= q < lines@.len() ==> lines@[q].0 <= lines@[q].1 <= v@.len(),
            forall|q: int|
                0 <= q < lines@.len() ==> v@.subrange(lines@[q].0 as int, lines@[q].1 as int) == #[trigger] ls[q],
            pairs_view(out@) == kv_entries(ls.subrange(0, i as int)),
        decreases n - i,
    {
        let (lo, hi) = lines[i];
        let ghost l = ls[i as int];
        assert(ls.subrange(0, i + 1).drop_last() =~= ls.subrange(0, i as int));
        assert(ls.subrange(0, i + 1).last() == l);
        let e = find_char(&v, lo, hi, '=');
        if e < hi {
            let (ka, kb) = trim_bounds(&v, lo, e);
            let (va, vb) = trim_bounds(&v, e + 1, hi);
            assert(v@.subrange(lo as int, e as int) =~= l.subrange(0, index_of(l, '=')));
            assert(v@.subrange(e + 1, hi as int) =~= l.subrange(index_of(l, '=') + 1, l.len() as int));
            let key = string_of(&v, ka, kb);
            let val = string_of(&v, va, vb);
            let ghost before = out@;
            out.push((key, val));
            assert(pairs_view(out@) =~= pairs_view(before).push((key@, val@)));
        }
        i = i + 1;
    }
    assert(ls.subrange(0, n as int) =~= ls);
    ConfigMap { entries: out }
}


/// The commands of an initialisation value, with their 1-based line
/// numbers: every line that is not blank, without surrounding whitespace.
pub open spec fn command_lines(ls: Seq<Seq<char>>) -> Seq<(int, Seq<char>)>
    decreases ls.len(),
{
    if ls.len() == 0 {
        Seq::empty()
    } else {
        let p = command_lines(ls.drop_last());
        if trim(ls.last()).len() > 0 {
            p.push((ls.len() as int, trim(ls.last())))
        } else {
            p
        }
    }
}

/// The commands of an initialisation value, one per non-blank line, with
/// their line numbers counted from 1.
pub fn init_command_lines(commands: &str) -> (r: Vec<(usize, String)>)
    ensures
        r@.map_values(|p: (usize, String)| (p.0 as int, p.1@)) == command_lines(lines_of(commands@)),
{
    let v = chars_of(commands);
    let lines = split_lines(&v);
    let ghost ls = lines_of(v@);
    let mut out: Vec<(usize, String)> = Vec::new();
    let mut i: usize = 0;
    assert(ls.subrange(0, 0) =~= Seq::<Seq<char>>::empty());
    while i < lines.len()
        invariant
            ls == lines_of(v@),
            v@ == commands@,
            lines@.len() == ls.len(),
            i <= lines@.len(),
            forall|q: int| #![trigger lines@[q]] 0 <= q < lines@.len() ==> lines@[q].0 <= lines@[q].1 <= v@.len(),
            forall|q: int| 0 <= q < lines@.len() ==> v@.subrange(lines@[q].0 as int, lines@[q].1 as int) == #[trigger] ls[q],
            out@.map_values(|p: (usize, String)| (p.0 as int, p.1@)) == command_lines(ls.subrange(0, i as int)),
        decreases lines@.len() - i,
    {
        let (lo, hi) = lines[i];
        let (a, b) = trim_bounds(&v, lo, hi);
        assert(v@.subrange(lo as int, hi as int) == ls[i as int]);
        let ghost sub = ls.subrange(0, i + 1);
        assert(sub.drop_last() =~= ls.subrange(0, i as int));
        assert(sub.last() == ls[i as int]);
        if a < b {
            let ghost before = out@;
            out.push((i + 1, string_of(&v, a, b)));
            assert(out@.map_values(|p: (usize, String)| (p.0 as int, p.1@)) =~= before.map_values(
                |p: (usize, String)| (p.0 as int, p.1@),
            ).push(((i + 1) as int, trim(ls[i as int]))));
        }
        i = i + 1;
    }
    assert(ls.subrange(0, i as int) =~= ls);
    out
}

proof fn lemma_block_len(ls: Seq<Seq<char>>, j: int, c: int)
    requires
        0 <= j <= c < ls.len(),
        forall|q: int| j <= q < c ==> !closes_block(#[trigger] ls[q]),
        closes_block(ls[c]),
    ensures
        block_len(ls, j) == c - j,
    decreases c - j,
{
    if j < c {
        lemma_block_len(ls, j + 1, c);
    }
}

/// A block opened by a `key = ---` line and closed by the first later line
/// that ends with the marker holds the lines in between, blank ones
/// included, and the closing line without its marker, joined with line
/// breaks and trimmed; parsing resumes after the closing line.
pub proof fn lemma_block_value(ls: Seq<Seq<char>>, i: int, c: int, k: Seq<char>)
    requires
        0 <= i < c < ls.len(),
        ls[i] == line_body(k, "---"@),
        key_ok(k),
        k[0] != '#',
        forall|q: int| i < q < c ==> !closes_block(#[trigger] ls[q]),
        closes_block(ls[c]),
    ensures
        entries_from(ls, i) == seq![(k, trim(join(ls.subrange(i + 1, c).push(without_marker(ls[c])), "\n"@)))]
            + entries_from(ls, c + 1),
{
    reveal_strlit("---");
    reveal_strlit(" = ");
    let v = "---"@;
    assert(v =~= seq!['-', '-', '-']);
    assert(trim_start(v) == v);
    assert(trim_end(v) == v);
    assert(!v.contains('\n')) by {
        if v.contains('\n') {
            let j = choose|j: int| 0 <= j < v.len() && v[j] == '\n';
        }
    }
    let l = ls[i];
    lemma_line_body(k, v);
    assert(l =~= k + (seq![' ', '=', ' '] + v));
    assert(l[0] == k[0]);
    assert(!is_space(k[0]));
    assert(l.last() == '-');
    assert(trim_start(l) == l);
    assert(trim_end(l) == l);
    let t = trim(l);
    let eq = index_of(t, '=');
    assert(eq == k.len() + 1);
    assert(trim(t.subrange(0, eq)) == k);
    assert(trim(t.subrange(eq + 1, t.len() as int)) == v);
    assert(v.subrange(0, 3) =~= v);
    assert(opens_block(v));
    lemma_block_len(ls, i + 1, c);
    assert(block_parts(ls, i, c, v) =~= ls.subrange(i + 1, c).push(without_marker(ls[c])));
}

} // verus!
