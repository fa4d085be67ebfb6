//! Reading the progress that external transfer and archive tools report, one
//! output line at a time, and deciding how each stage ended.

use vstd::prelude::*;
use crate::error::InstallError;
use crate::text::{
    chars_of, contains_seq, ends_with, find_char, index_of, is_digit, lines_of, parse_u64, parse_u64_of, range_contains,
    range_eq, range_starts_with, split_lines, split_words, starts_with, string_of, trim,
    trim_bounds, words,
};

verus! {

/// The size announced in a word list: the word after the first `Length:`
/// (from `i` on) that two more words follow and that parses as a `u64`.
pub open spec fn total_from(ws: Seq<Seq<char>>, i: int) -> Option<u64>
    decreases ws.len() - i,
{
    if i < 0 || i >= ws.len() {
        None
    } else if ws[i] == "Length:"@ && i + 2 < ws.len() && parse_u64_of(ws[i + 1]) is Some {
        parse_u64_of(ws[i + 1])
    } else {
        total_from(ws, i + 1)
    }
}

/// The total size that a length-announcement line gives, if it is one.
pub open spec fn total_size_of(line: Seq<char>) -> Option<u64> {
    total_from(words(line), 0)
}

/// The whole part of a percentage word: the word ends in `%`, and before it
/// stand a `u64` and, optionally, a `.` and more digits, which are dropped.
pub open spec fn percent_value(w: Seq<char>) -> Option<u64> {
    if ends_with(w, "%"@) {
        let b = w.drop_last();
        let d = index_of(b, '.');
        let frac = if d < b.len() {
            b.subrange(d + 1, b.len() as int)
        } else {
            Seq::<char>::empty()
        };
        if digits_only(frac) {
            parse_u64_of(b.subrange(0, d))
        } else {
            None
        }
    } else {
        None
    }
}

/// Whether `s` holds only ASCII digits.
pub open spec fn digits_only(s: Seq<char>) -> bool {
    forall|j: int| 0 <= j < s.len() ==> is_digit(#[trigger] s[j])
}

/// The first percentage among the words from `i` on.
pub open spec fn percent_from(ws: Seq<Seq<char>>, i: int) -> Option<u64>
    decreases ws.len() - i,
{
    if i < 0 || i >= ws.len() {
        None
    } else if percent_value(ws[i]) is Some {
        percent_value(ws[i])
    } else {
        percent_from(ws, i + 1)
    }
}

/// Whether `v[lo..hi]` holds only ASCII digits.
fn all_digits(v: &Vec<char>, lo: usize, hi: usize) -> (r: bool)
    requires
        lo <= hi <= v@.len(),
    ensures
        r == digits_only(v@.subrange(lo as int, hi as int)),
{
    let mut i: usize = lo;
    while i < hi
        invariant
            lo <= i <= hi <= v@.len(),
            forall|j: int| 0 <= j < i - lo ==> is_digit(#[trigger] v@.subrange(lo as int, hi as int)[j]),
        decreases hi - i,
    {
        let c = v[i];
        assert(v@.subrange(lo as int, hi as int)[i - lo] == c);
        if !(48 <= (c as u32) && (c as u32) <= 57) {
            assert(!is_digit(v@.subrange(lo as int, hi as int)[i - lo]));
            return false;
        }
        i = i + 1;
    }
    assert(digits_only(v@.subrange(lo as int, hi as int)));
    true
}

/// `total * percent / 100`, rounded down and capped at `u64::MAX`.
pub open spec fn share_of(total: u64, percent: u64) -> u64 {
    let x = total as int * percent as int / 100;
    if x > u64::MAX {
        u64::MAX
    } else {
        x as u64
    }
}

/// The downloaded byte count that a bar-style line reports against `total`:
/// the line holds a `%` and a `[`, and its first percentage scales `total`.
pub open spec fn progress_of(line: Seq<char>, total: u64) -> Option<u64> {
    if contains_seq(line, "%"@) && contains_seq(line, "["@) {
        match percent_from(words(line), 0) {
            Some(p) => Some(share_of(total, p)),
            None => None,
        }
    } else {
        None
    }
}

/// A line that reports the transfer complete.
pub open spec fn completes(line: Seq<char>) -> bool {
    contains_seq(line, "100%"@) && contains_seq(line, "="@)
}

fn words_of(line: &str) -> (r: (Vec<char>, Vec<(usize, usize)>))
    ensures
        r.0@ == line@,
        r.1@.len() == words(line@).len(),
        forall|k: int| #![trigger r.1@[k]] 0 <= k < r.1@.len() ==> r.1@[k].0 <= r.1@[k].1 <= r.0@.len(),
        forall|k: int|
            0 <= k < r.1@.len() ==> r.0@.subrange(r.1@[k].0 as int, r.1@[k].1 as int) == #[trigger] words(line@)[k],
{
    let v = chars_of(line);
    let ws = split_words(&v);
    (v, ws)
}

/// The total size announced by a line such as `Length: 1234 (1.2K) [type]`.
pub fn parse_total_size(line: &str) -> (r: Option<u64>)
    ensures
        r == total_size_of(line@),
{
    let (v, ws) = words_of(line);
    let ghost w = words(line@);
    let mut i: usize = 0;
    proof {
        reveal_strlit("Length:");
    }
    while i < ws.len()
        invariant
            v@ == line@,
            w == words(line@),
            ws@.len() == w.len(),
            i <= ws@.len(),
            forall|k: int| #![trigger ws@[k]] 0 <= k < ws@.len() ==> ws@[k].0 <= ws@[k].1 <= v@.len(),
            forall|k: int| 0 <= k < ws@.len() ==> v@.subrange(ws@[k].0 as int, ws@[k].1 as int) == #[trigger] w[k],
            total_from(w, 0) == total_from(w, i as int),
        decreases ws@.len() - i,
    {
        let (a, b) = ws[i];
        assert(v@.subrange(a as int, b as int) == w[i as int]);
        if range_eq(&v, a, b, "Length:") && ws.len() - i > 2 {
            let (c, d) = ws[i + 1];
            assert(v@.subrange(c as int, d as int) == w[i + 1]);
            let num = string_of(&v, c, d);
            match parse_u64(num.as_str()) {
                Some(n) => {
                    return Some(n);
                },
                None => {},
            }
        }
        i = i + 1;
    }
    None
}

/// The first percentage among the words of `line`.
fn first_percent(line: &str) -> (r: Option<u64>)
    ensures
        r == percent_from(words(line@), 0),
{
    let (v, ws) = words_of(line);
    let ghost w = words(line@);
    let mut i: usize = 0;
    while i < ws.len()
        invariant
            v@ == line@,
            w == words(line@),
            ws@.len() == w.len(),
            i <= ws@.len(),
            forall|k: int| #![trigger ws@[k]] 0 <= k < ws@.len() ==> ws@[k].0 <= ws@[k].1 <= v@.len(),
            forall|k: int| 0 <= k < ws@.len() ==> v@.subrange(ws@[k].0 as int, ws@[k].1 as int) == #[trigger] w[k],
            percent_from(w, 0) == percent_from(w, i as int),
        decreases ws@.len() - i,
    {
        let (a, b) = ws[i];
        assert(v@.subrange(a as int, b as int) == w[i as int]);
        let ghost word = w[i as int];
        if b > a && v[b - 1] == '%' {
            assert(ends_with(word, "%"@)) by {
                reveal_strlit("%");
                assert(word.subrange(word.len() - 1, word.len() as int) =~= "%"@);
            }
            let ghost body = word.drop_last();
            assert(v@.subrange(a as int, b - 1) =~= body);
            let d = find_char(&v, a, b - 1, '.');
            let ghost frac = if index_of(body, '.') < body.len() {
                body.subrange(index_of(body, '.') + 1, body.len() as int)
            } else {
                Seq::<char>::empty()
            };
            let frac_ok = if d < b - 1 {
                let ok = all_digits(&v, d + 1, b - 1);
                assert(v@.subrange(d + 1, b - 1) =~= frac);
                ok
            } else {
                assert(frac.len() == 0);
                true
            };
            assert(frac_ok == digits_only(frac));
            assert(percent_value(word) == if frac_ok {
                parse_u64_of(body.subrange(0, index_of(body, '.')))
            } else {
                None
            });
            if frac_ok {
                let num = string_of(&v, a, d);
                assert(num@ =~= body.subrange(0, index_of(body, '.')));
                match parse_u64(num.as_str()) {
                    Some(n) => {
                        return Some(n);
                    },
                    None => {},
                }
            }
            assert(percent_value(word).is_none());
        } else {
            assert(!ends_with(word, "%"@)) by {
                reveal_strlit("%");
                if word.len() >= 1 {
                    assert(word.subrange(word.len() - 1, word.len() as int)[0] == v@[b - 1]);
                }
            }
        }
        i = i + 1;
    }
    None
}

/// The downloaded byte count that a bar-style line reports against `total`.
pub fn parse_current_progress(line: &str, total: u64) -> (r: Option<u64>)
    ensures
        r == progress_of(line@, total),
{
    let v = chars_of(line);
    let n = v.len();
    assert(v@.subrange(0, n as int) =~= v@);
    if range_contains(&v, 0, n, "%") && range_contains(&v, 0, n, "[") {
        match first_percent(line) {
            Some(p) => {
                assert((total as int) * (p as int) <= 0xffff_ffff_ffff_ffff_ffff_ffff_ffff_ffff) by (nonlinear_arith)
                    requires
                        total <= 0xffff_ffff_ffff_ffff,
                        p <= 0xffff_ffff_ffff_ffff,
                ;
                let x: u128 = (total as u128) * (p as u128) / 100;
                if x > u64::MAX as u128 {
                    Some(u64::MAX)
                } else {
                    Some(x as u64)
                }
            },
            None => None,
        }
    } else {
        None
    }
}

/// Whether a line reports the transfer complete.
pub fn is_completion_line(line: &str) -> (r: bool)
    ensures
        r == completes(line@),
{
    let v = chars_of(line);
    let n = v.len();
    assert(v@.subrange(0, n as int) =~= v@);
    range_contains(&v, 0, n, "100%") && range_contains(&v, 0, n, "=")
}

/// The progress events that one line of the transfer tool's diagnostics
/// yields against the total known so far: the line may announce the total,
/// report a percentage, and report completion.
pub open spec fn download_events(total: u64, line: Seq<char>) -> Seq<(u64, u64)> {
    let t = match total_size_of(line) {
        Some(s) => s,
        None => total,
    };
    let a = match progress_of(line, t) {
        Some(c) => seq![(c, t)],
        None => Seq::empty(),
    };
    let b = if completes(line) {
        seq![(t, t)]
    } else {
        Seq::empty()
    };
    a + b
}

/// The state of a transfer being followed through its diagnostic output.
pub struct DownloadProgress {
    /// The total size announced so far; 0 until one is.
    pub total: u64,
}

impl DownloadProgress {
    pub fn new() -> (r: DownloadProgress)
        ensures
            r.total == 0,
    {
        DownloadProgress { total: 0 }
    }

    /// Takes one diagnostic line; returns the `(downloaded, total)` pairs to
    /// report for it, in order.
    pub fn on_line(&mut self, line: &str) -> (r: Vec<(u64, u64)>)
        ensures
            final(self).total == match total_size_of(line@) {
                Some(s) => s,
                None => old(self).total,
            },
            r@ == download_events(old(self).total, line@),
    {
        match parse_total_size(line) {
            Some(s) => {
                self.total = s;
            },
            None => {},
        }
        let t = self.total;
        let mut events: Vec<(u64, u64)> = Vec::new();
        match parse_current_progress(line, t) {
            Some(c) => events.push((c, t)),
            None => {},
        }
        if is_completion_line(line) {
            events.push((t, t));
        }
        assert(events@ =~= download_events(old(self).total, line@));
        events
    }
}

/// How a transfer ended: it fails when the tool exited with failure or left
/// no file behind; otherwise it yields the total size announced.
pub fn finish_download(exit_ok: bool, file_exists: bool, url: &str, total: u64) -> (r: Result<u64, InstallError>)
    ensures
        exit_ok && file_exists ==> r == Ok::<u64, InstallError>(total),
        !(exit_ok && file_exists) ==> (r matches Err(InstallError::DownloadFailed(u)) && u@ == url@),
{
    if exit_ok && file_exists {
        Ok(total)
    } else {
        Err(InstallError::DownloadFailed(String::from_str(url)))
    }
}

/// The state of an extraction being followed through its verbose output.
pub struct ExtractionProgress {
    /// How many entries have been reported so far.
    pub extracted: u64,
}

impl ExtractionProgress {
    pub fn new() -> (r: ExtractionProgress)
        ensures
            r.extracted == 0,
    {
        ExtractionProgress { extracted: 0 }
    }

    /// Takes one output line, which names one entry; returns the count so
    /// far and the entry's name without surrounding whitespace.
    pub fn on_line(&mut self, line: &str) -> (r: (u64, String))
        ensures
            final(self).extracted == if old(self).extracted < u64::MAX {
                (old(self).extracted + 1) as u64
            } else {
                u64::MAX
            },
            r.0 == final(self).extracted,
            r.1@ == trim(line@),
    {
        if self.extracted < u64::MAX {
            self.extracted = self.extracted + 1;
        }
        let v = chars_of(line);
        let (a, b) = trim_bounds(&v, 0, v.len());
        assert(v@.subrange(0, v@.len() as int) =~= v@);
        (self.extracted, string_of(&v, a, b))
    }
}

/// How an extraction ended.
pub fn finish_extraction(exit_ok: bool, extracted: u64) -> (r: Result<u64, InstallError>)
    ensures
        exit_ok ==> r == Ok::<u64, InstallError>(extracted),
        !exit_ok ==> r == Err::<u64, InstallError>(InstallError::ExtractionFailed),
{
    if exit_ok {
        Ok(extracted)
    } else {
        Err(InstallError::ExtractionFailed)
    }
}

/// The estimate used when an archive cannot be listed or lists nothing.
pub open spec fn fallback_entry_count() -> u64 {
    100
}

/// The number of entries to expect from an archive listing (one path per
/// line); a fixed estimate when the listing failed or is empty.
pub fn count_entries(listing: Option<&str>) -> (r: u64)
    ensures
        match listing {
            Some(t) => if 0 < lines_of(t@).len() <= u64::MAX {
                r == lines_of(t@).len()
            } else {
                r == fallback_entry_count()
            },
            None => r == fallback_entry_count(),
        },
{
    match listing {
        Some(t) => {
            let v = chars_of(t);
            let lines = split_lines(&v);
            let n = lines.len();
            if n > 0 && n as u64 <= u64::MAX {
                n as u64
            } else {
                100
            }
        },
        None => 100,
    }
}

/// The size that a header block announces: the rest of the first line that
/// starts with `Content-Length:`, without surrounding whitespace, when it
/// parses as a `u64`.
pub open spec fn content_length_from(ls: Seq<Seq<char>>, i: int) -> Option<u64>
    decreases ls.len() - i,
{
    if i < 0 || i >= ls.len() {
        None
    } else if starts_with(ls[i], "Content-Length:"@) && parse_u64_of(trim(ls[i].subrange(15, ls[i].len() as int))) is Some {
        parse_u64_of(trim(ls[i].subrange(15, ls[i].len() as int)))
    } else {
        content_length_from(ls, i + 1)
    }
}

/// The content length that a header-only probe's response announces.
pub fn parse_content_length(headers: &str) -> (r: Option<u64>)
    ensures
        r == content_length_from(lines_of(headers@), 0),
{
    let v = chars_of(headers);
    let lines = split_lines(&v);
    let ghost ls = lines_of(v@);
    let mut i: usize = 0;
    proof {
        reveal_strlit("Content-Length:");
    }
    while i < lines.len()
        invariant
            ls == lines_of(headers@),
            v@ == headers@,
            lines@.len() == ls.len(),
            i <= lines@.len(),
            forall|q: int| #![trigger lines@[q]] 0 <= q < lines@.len() ==> lines@[q].0 <= lines@[q].1 <= v@.len(),
            forall|q: int| 0 <= q < lines@.len() ==> v@.subrange(lines@[q].0 as int, lines@[q].1 as int) == #[trigger] ls[q],
            content_length_from(ls, 0) == content_length_from(ls, i as int),
        decreases lines@.len() - i,
    {
        proof {
            reveal_strlit("Content-Length:");
        }
        let (lo, hi) = lines[i];
        let ghost l = ls[i as int];
        assert(v@.subrange(lo as int, hi as int) == l);
        if range_starts_with(&v, lo, hi, "Content-Length:") {
            let (a, b) = trim_bounds(&v, lo + 15, hi);
            assert(v@.subrange(lo + 15, hi as int) =~= l.subrange(15, l.len() as int));
            let num = string_of(&v, a, b);
            match parse_u64(num.as_str()) {
                Some(n) => {
                    return Some(n);
                },
                None => {},
            }
        }
        i = i + 1;
    }
    None
}

} // verus!
