//! Terminal presentation helpers: progress-bar state and its rendering, and
//! optional ANSI coloring.

use vstd::prelude::*;
use crate::text::{chars_of, concat, decimal_of, decimal_string, push_char, string_of};

verus! {

/// `cur` out of `total` as a whole percentage, rounded down; 0 without a total.
pub open spec fn percent_of(cur: u64, total: u64) -> u64 {
    if total == 0 {
        0
    } else {
        let x = cur as int * 100 / total as int;
        if x > u64::MAX {
            u64::MAX
        } else {
            x as u64
        }
    }
}

/// How many of `width` cells a bar fills for `cur` out of `total`, at most all.
pub open spec fn filled_of(cur: u64, total: u64, width: usize) -> nat {
    if total == 0 {
        0
    } else {
        let x = cur as int * width as int / total as int;
        if x > width {
            width as nat
        } else {
            x as nat
        }
    }
}

/// `n` copies of `c`.
pub open spec fn repeat(c: char, n: nat) -> Seq<char> {
    Seq::new(n, |i: int| c)
}

/// `s` padded on the left with spaces to at least three characters.
pub open spec fn pad3(s: Seq<char>) -> Seq<char> {
    if s.len() < 3 {
        repeat(' ', (3 - s.len()) as nat) + s
    } else {
        s
    }
}

/// The rendered bar: `  {message} {percent:>3}% [{bar}]`.
pub open spec fn bar_text(message: Seq<char>, cur: u64, total: u64, width: usize) -> Seq<char> {
    let f = filled_of(cur, total, width);
    "  "@ + message + " "@ + pad3(decimal_of(percent_of(cur, total) as nat)) + "% ["@ + repeat('=', f)
        + repeat(' ', (width - f) as nat) + "]"@
}

/// `cur` out of `total` as a whole percentage.
pub fn percentage(cur: u64, total: u64) -> (r: u64)
    ensures
        r == percent_of(cur, total),
{
    if total == 0 {
        return 0;
    }
    let x: u128 = (cur as u128) * 100 / (total as u128);
    if x > u64::MAX as u128 {
        u64::MAX
    } else {
        x as u64
    }
}

/// The number of filled cells of a bar of `width` cells.
pub fn filled_cells(cur: u64, total: u64, width: usize) -> (r: usize)
    ensures
        r == filled_of(cur, total, width),
{
    if total == 0 {
        return 0;
    }
    assert((cur as int) * (width as int) <= 0xffff_ffff_ffff_ffff_ffff_ffff_ffff_ffff) by (nonlinear_arith)
        requires
            cur <= 0xffff_ffff_ffff_ffff,
            width <= 0xffff_ffff_ffff_ffff,
    ;
    let x: u128 = (cur as u128) * (width as u128) / (total as u128);
    if x > width as u128 {
        width
    } else {
        x as usize
    }
}

fn push_repeat(s: &mut String, c: char, n: usize)
    ensures
        final(s)@ == old(s)@ + repeat(c, n as nat),
{
    let ghost start = s@;
    let mut i: usize = 0;
    while i < n
        invariant
            i <= n,
            s@ == start + repeat(c, i as nat),
        decreases n - i,
    {
        push_char(s, c);
        assert(start + repeat(c, (i + 1) as nat) =~= (start + repeat(c, i as nat)).push(c));
        i = i + 1;
    }
}

/// Renders a bar line for `cur` out of `total`.
pub fn render_bar(message: &str, cur: u64, total: u64, width: usize) -> (r: String)
    ensures
        r@ == bar_text(message@, cur, total, width),
{
    let p = percentage(cur, total);
    let f = filled_cells(cur, total, width);
    let digits = decimal_string(p);
    let mut out = concat("  ", message);
    out.append(" ");
    let ghost before_pad = out@;
    let dv = chars_of(digits.as_str());
    if dv.len() < 3 {
        push_repeat(&mut out, ' ', 3 - dv.len());
    }
    out.append(digits.as_str());
    assert(out@ =~= before_pad + pad3(decimal_of(p as nat)));
    out.append("% [");
    push_repeat(&mut out, '=', f);
    push_repeat(&mut out, ' ', width - f);
    out.append("]");
    assert(out@ =~= bar_text(message@, cur, total, width));
    out
}

/// A bar for a count of known total.
pub struct ProgressBar {
    pub total: u64,
    pub current: u64,
    pub width: usize,
    pub message: String,
}

impl ProgressBar {
    pub fn new(total: u64, message: String) -> (r: ProgressBar)
        ensures
            r.total == total,
            r.current == 0,
            r.width == 20,
            r.message@ == message@,
    {
        ProgressBar { total, current: 0, width: 20, message }
    }

    pub fn update(&mut self, current: u64)
        ensures
            final(self).current == current,
            final(self).total == old(self).total,
            final(self).width == old(self).width,
            final(self).message@ == old(self).message@,
    {
        self.current = current;
    }

    /// Advances the count, saturating at `u64::MAX`.
    pub fn increment(&mut self, amount: u64)
        ensures
            final(self).current == if old(self).current as int + amount as int > u64::MAX {
                u64::MAX
            } else {
                (old(self).current + amount) as u64
            },
            final(self).total == old(self).total,
            final(self).width == old(self).width,
            final(self).message@ == old(self).message@,
    {
        if self.current > u64::MAX - amount {
            self.current = u64::MAX;
        } else {
            self.current = self.current + amount;
        }
    }

    /// The bar line for the current count.
    pub fn render(&self) -> (r: String)
        ensures
            r@ == bar_text(self.message@, self.current, self.total, self.width),
    {
        render_bar(self.message.as_str(), self.current, self.total, self.width)
    }

    pub fn is_complete(&self) -> (r: bool)
        ensures
            r == (self.current >= self.total),
    {
        self.current >= self.total
    }
}

/// A bar for a transfer whose size may become known only after it starts.
pub struct DownloadProgressBar {
    pub total_size: u64,
    pub downloaded: u64,
    pub width: usize,
    pub message: String,
}

impl DownloadProgressBar {
    pub fn new(message: String) -> (r: DownloadProgressBar)
        ensures
            r.total_size == 0,
            r.downloaded == 0,
            r.width == 20,
            r.message@ == message@,
    {
        DownloadProgressBar { total_size: 0, downloaded: 0, width: 20, message }
    }

    pub fn set_total_size(&mut self, total: u64)
        ensures
            final(self).total_size == total,
            final(self).downloaded == old(self).downloaded,
            final(self).width == old(self).width,
            final(self).message@ == old(self).message@,
    {
        self.total_size = total;
    }

    pub fn update(&mut self, downloaded: u64)
        ensures
            final(self).downloaded == downloaded,
            final(self).total_size == old(self).total_size,
            final(self).width == old(self).width,
            final(self).message@ == old(self).message@,
    {
        self.downloaded = downloaded;
    }

    /// The bar line for the bytes downloaded so far.
    pub fn render(&self) -> (r: String)
        ensures
            r@ == bar_text(self.message@, self.downloaded, self.total_size, self.width),
    {
        render_bar(self.message.as_str(), self.downloaded, self.total_size, self.width)
    }

    pub fn is_complete(&self) -> (r: bool)
        ensures
            r == (self.total_size > 0 && self.downloaded >= self.total_size),
    {
        self.total_size > 0 && self.downloaded >= self.total_size
    }
}

/// A name shortened for display: longer than 30 characters, it keeps its
/// last 27 behind `...`.
pub open spec fn short_name(s: Seq<char>) -> Seq<char> {
    if s.len() > 30 {
        "..."@ + s.subrange(s.len() - 27, s.len() as int)
    } else {
        s
    }
}

/// A bar for an extraction of a known number of entries.
pub struct ExtractionProgressBar {
    pub total_files: u64,
    pub extracted_files: u64,
    pub width: usize,
    pub message: String,
    pub current_file: String,
}

impl ExtractionProgressBar {
    pub fn new(total_files: u64, message: String) -> (r: ExtractionProgressBar)
        ensures
            r.total_files == total_files,
            r.extracted_files == 0,
            r.width == 20,
            r.message@ == message@,
            r.current_file@.len() == 0,
    {
        ExtractionProgressBar { total_files, extracted_files: 0, width: 20, message, current_file: String::new() }
    }

    pub fn update(&mut self, extracted: u64, current_file: &str)
        ensures
            final(self).extracted_files == extracted,
            final(self).current_file@ == current_file@,
            final(self).total_files == old(self).total_files,
            final(self).width == old(self).width,
            final(self).message@ == old(self).message@,
    {
        self.extracted_files = extracted;
        self.current_file = String::from_str(current_file);
    }

    /// Counts one more entry, saturating at `u64::MAX`.
    pub fn increment(&mut self, current_file: &str)
        ensures
            final(self).extracted_files == if old(self).extracted_files < u64::MAX {
                (old(self).extracted_files + 1) as u64
            } else {
                u64::MAX
            },
            final(self).current_file@ == current_file@,
            final(self).total_files == old(self).total_files,
            final(self).width == old(self).width,
            final(self).message@ == old(self).message@,
    {
        if self.extracted_files < u64::MAX {
            self.extracted_files = self.extracted_files + 1;
        }
        self.current_file = String::from_str(current_file);
    }

    /// The current entry's name as shown beside the bar.
    pub fn file_display(&self) -> (r: String)
        ensures
            r@ == short_name(self.current_file@),
    {
        let v = chars_of(self.current_file.as_str());
        let n = v.len();
        if n > 30 {
            let tail = string_of(&v, n - 27, n);
            concat("...", tail.as_str())
        } else {
            assert(v@.subrange(0, n as int) =~= v@);
            string_of(&v, 0, n)
        }
    }

    /// The bar line for the entries extracted so far, with the current entry.
    pub fn render(&self) -> (r: String)
        ensures
            r@ == bar_text(self.message@, self.extracted_files, self.total_files, self.width) + " ["@
                + short_name(self.current_file@) + "]"@,
    {
        let bar = render_bar(self.message.as_str(), self.extracted_files, self.total_files, self.width);
        let name = self.file_display();
        let a = concat(bar.as_str(), " [");
        let b = concat(a.as_str(), name.as_str());
        concat(b.as_str(), "]")
    }

    pub fn is_complete(&self) -> (r: bool)
        ensures
            r == (self.total_files > 0 && self.extracted_files >= self.total_files),
    {
        self.total_files > 0 && self.extracted_files >= self.total_files
    }
}

/// Whether text is colored with ANSI escape sequences.
pub struct Theme {
    pub no_color: bool,
}

/// `text` wrapped in the ANSI sequence for `code`, or left plain.
pub open spec fn colored(no_color: bool, text: Seq<char>, code: Seq<char>) -> Seq<char> {
    if no_color {
        text
    } else {
        "\x1b["@ + code + "m"@ + text + "\x1b[0m"@
    }
}

impl Theme {
    pub fn new(no_color: bool) -> (r: Theme)
        ensures
            r.no_color == no_color,
    {
        Theme { no_color }
    }

    pub fn colorize(&self, text: &str, color_code: &str) -> (r: String)
        ensures
            r@ == colored(self.no_color, text@, color_code@),
    {
        if self.no_color {
            String::from_str(text)
        } else {
            let a = concat("\x1b[", color_code);
            let b = concat(a.as_str(), "m");
            let c = concat(b.as_str(), text);
            concat(c.as_str(), "\x1b[0m")
        }
    }

    /// Green.
    pub fn success(&self, text: &str) -> (r: String)
        ensures
            r@ == colored(self.no_color, text@, "32"@),
    {
        self.colorize(text, "32")
    }

    /// Red.
    pub fn error(&self, text: &str) -> (r: String)
        ensures
            r@ == colored(self.no_color, text@, "31"@),
    {
        self.colorize(text, "31")
    }

    /// Yellow.
    pub fn warning(&self, text: &str) -> (r: String)
        ensures
            r@ == colored(self.no_color, text@, "33"@),
    {
        self.colorize(text, "33")
    }

    /// Blue.
    pub fn info(&self, text: &str) -> (r: String)
        ensures
            r@ == colored(self.no_color, text@, "34"@),
    {
        self.colorize(text, "34")
    }

    /// Cyan.
    pub fn progress(&self, text: &str) -> (r: String)
        ensures
            r@ == colored(self.no_color, text@, "36"@),
    {
        self.colorize(text, "36")
    }
}

} // verus!
