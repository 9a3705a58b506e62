//! Terminal message formatting: a plain tagged form for pipes and files, and
//! a coloured form with an icon for terminals.

use vstd::prelude::*;

use colored::Colorize;
use is_terminal::IsTerminal;

use crate::text::{contains, is_prefix_of, join3, occurs_at};

verus! {

/// The sequence that ends a coloured span.
pub open spec fn reset_code() -> Seq<char> {
    seq!['\x1B', '[', '0', 'm']
}

/// A style code starts with the control sequence introducer `ESC [`.
pub open spec fn is_style_code(style: Seq<char>) -> bool {
    style.len() >= 2 && style[0] == '\x1B' && style[1] == '['
}

/// `r` shows `s` with a colour style: `s` itself where colouring is off, or
/// `s` between a style code and the reset code. Where `s` itself holds the
/// reset code nothing is promised.
pub open spec fn painted(r: Seq<char>, s: Seq<char>) -> bool {
    !contains(s, reset_code()) ==> (r == s || exists|style: Seq<char>|
        is_style_code(style) && r == style + s + reset_code())
}

/// Relies on `is_terminal::IsTerminal::is_terminal` on standard output.
#[verifier::external_body]
pub fn is_tty() -> bool {
    std::io::stdout().is_terminal()
}

/// Relies on `colored::Colorize::green` and its `Display`.
#[verifier::external_body]
fn green(s: &str) -> (r: String)
    ensures
        painted(r@, s@),
{
    s.green().to_string()
}

/// Relies on `colored::Colorize::red` and its `Display`.
#[verifier::external_body]
fn red(s: &str) -> (r: String)
    ensures
        painted(r@, s@),
{
    s.red().to_string()
}

/// Relies on `colored::Colorize::red`, then `bold`, and their `Display`.
#[verifier::external_body]
fn red_bold(s: &str) -> (r: String)
    ensures
        painted(r@, s@),
{
    s.red().bold().to_string()
}

/// Relies on `colored::Colorize::yellow` and its `Display`.
#[verifier::external_body]
fn yellow(s: &str) -> (r: String)
    ensures
        painted(r@, s@),
{
    s.yellow().to_string()
}

/// Relies on `colored::Colorize::blue` and its `Display`.
#[verifier::external_body]
fn blue(s: &str) -> (r: String)
    ensures
        painted(r@, s@),
{
    s.blue().to_string()
}

/// Relies on `colored::Colorize::blue`, then `underline`, and their `Display`.
#[verifier::external_body]
pub(crate) fn blue_underline(s: &str) -> (r: String)
    ensures
        painted(r@, s@),
{
    s.blue().underline().to_string()
}

/// Relies on `colored::Colorize::cyan` and its `Display`.
#[verifier::external_body]
fn cyan(s: &str) -> (r: String)
    ensures
        painted(r@, s@),
{
    s.cyan().to_string()
}

/// Relies on `colored::Colorize::bold`, then `cyan`, and their `Display`.
#[verifier::external_body]
fn bold_cyan(s: &str) -> (r: String)
    ensures
        painted(r@, s@),
{
    s.bold().cyan().to_string()
}

/// A coloured icon, a space, and the coloured message.
pub open spec fn styled_line(r: Seq<char>, icon: Seq<char>, msg: Seq<char>) -> bool {
    exists|a: Seq<char>, b: Seq<char>| r == a + " "@ + b && painted(a, icon) && painted(b, msg)
}

/// Which kind of message a line carries.
#[derive(Debug, Clone, Copy, PartialEq, Eq)]
pub enum Level {
    Success,
    Error,
    Warning,
    Info,
}

/// The tag of a plain line.
pub open spec fn plain_tag(l: Level) -> Seq<char> {
    match l {
        Level::Success => "[OK]"@,
        Level::Error => "[ERROR]"@,
        Level::Warning => "[WARNING]"@,
        Level::Info => "[INFO]"@,
    }
}

/// The icon of a coloured line.
pub open spec fn icon(l: Level) -> Seq<char> {
    match l {
        Level::Success => "✅"@,
        Level::Error => "❌"@,
        Level::Warning => "⚠️"@,
        Level::Info => "ℹ️"@,
    }
}

/// A message line: coloured with an icon for a terminal, else `[TAG] msg`.
pub fn format_message(level: Level, msg: &str, tty: bool) -> (r: String)
    ensures
        !tty ==> r@ == plain_tag(level) + " "@ + msg@,
        tty ==> styled_line(r@, icon(level), msg@) && !is_prefix_of(plain_tag(level), r@),
{
    if tty {
        let (a, b) = match level {
            Level::Success => (green("✅"), green(msg)),
            Level::Error => (red("❌"), red_bold(msg)),
            Level::Warning => (yellow("⚠️"), yellow(msg)),
            Level::Info => (blue("ℹ️"), blue(msg)),
        };
        let r = join3(a.as_str(), " ", b.as_str());
        assert(r@ == a@ + " "@ + b@);
        proof {
            lemma_icon_line_not_tagged(level, a@, b@, r@);
        }
        r
    } else {
        let tag = match level {
            Level::Success => "[OK]",
            Level::Error => "[ERROR]",
            Level::Warning => "[WARNING]",
            Level::Info => "[INFO]",
        };
        join3(tag, " ", msg)
    }
}

proof fn lemma_icon_line_not_tagged(level: Level, a: Seq<char>, b: Seq<char>, r: Seq<char>)
    requires
        painted(a, icon(level)),
        r == a + " "@ + b,
    ensures
        !is_prefix_of(plain_tag(level), r),
{
    reveal_strlit("✅");
    reveal_strlit("❌");
    reveal_strlit("⚠️");
    reveal_strlit("ℹ️");
    reveal_strlit("[OK]");
    reveal_strlit("[ERROR]");
    reveal_strlit("[WARNING]");
    reveal_strlit("[INFO]");
    let i = icon(level);
    assert(i.len() <= 2);
    assert(!contains(i, reset_code())) by {
        if contains(i, reset_code()) {
            let k = choose|k: int| #[trigger] occurs_at(i, reset_code(), k);
            assert(k + 4 <= i.len());
        }
    }
    assert(r[0] == a[0]);
    assert(plain_tag(level)[0] == '[');
    if a != i {
        let style = choose|style: Seq<char>| is_style_code(style) && a == style + i + reset_code();
        assert(a[0] == style[0]);
    }
    if is_prefix_of(plain_tag(level), r) {
        assert(r.subrange(0, plain_tag(level).len() as int)[0] == r[0]);
    }
}

/// A message line for standard output: the plain tagged form, or the
/// coloured form with its icon, which never starts with the tag.
pub open spec fn message_line(r: Seq<char>, level: Level, msg: Seq<char>) -> bool {
    r == plain_tag(level) + " "@ + msg || (styled_line(r, icon(level), msg) && !is_prefix_of(
        plain_tag(level),
        r,
    ))
}

/// A success line for standard output.
pub fn success(msg: &str) -> (r: String)
    ensures
        message_line(r@, Level::Success, msg@),
{
    format_message(Level::Success, msg, is_tty())
}

/// An error line for standard output.
pub fn error(msg: &str) -> (r: String)
    ensures
        message_line(r@, Level::Error, msg@),
{
    format_message(Level::Error, msg, is_tty())
}

/// A warning line for standard output.
pub fn warning(msg: &str) -> (r: String)
    ensures
        message_line(r@, Level::Warning, msg@),
{
    format_message(Level::Warning, msg, is_tty())
}

/// An information line for standard output.
pub fn info(msg: &str) -> (r: String)
    ensures
        message_line(r@, Level::Info, msg@),
{
    format_message(Level::Info, msg, is_tty())
}

/// `width` equals signs.
pub open spec fn rule_of(width: nat) -> Seq<char> {
    Seq::new(width, |i: int| '=')
}

/// A line of `width` equals signs.
pub fn rule(width: usize) -> (r: String)
    ensures
        r@ == rule_of(width as nat),
{
    let mut r = String::new();
    let mut i: usize = 0;
    while i < width
        invariant
            i <= width,
            r@ == rule_of(i as nat),
        decreases width - i,
    {
        r.append("=");
        proof {
            reveal_strlit("=");
        }
        assert(r@ =~= rule_of((i + 1) as nat));
        i = i + 1;
    }
    r
}

/// A title over a rule of `width` equals signs, coloured for a terminal.
pub fn format_header(title: &str, width: usize, tty: bool) -> (r: String)
    ensures
        !tty ==> r@ == title@ + "\n"@ + rule_of(width as nat),
        tty ==> exists|a: Seq<char>, b: Seq<char>|
            r@ == a + "\n"@ + b && painted(a, title@) && painted(b, rule_of(width as nat)),
{
    let line = rule(width);
    if tty {
        let a = bold_cyan(title);
        let b = cyan(line.as_str());
        let r = join3(a.as_str(), "\n", b.as_str());
        assert(r@ == a@ + "\n"@ + b@);
        r
    } else {
        join3(title, "\n", line.as_str())
    }
}

/// A header for standard output, coloured when it is a terminal.
pub fn header(title: &str, width: usize) -> (r: String)
    ensures
        r@ == title@ + "\n"@ + rule_of(width as nat) || exists|a: Seq<char>, b: Seq<char>|
            r@ == a + "\n"@ + b && painted(a, title@) && painted(b, rule_of(width as nat)),
{
    format_header(title, width, is_tty())
}

} // verus!
