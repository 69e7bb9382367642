use vstd::prelude::*;

use crate::data::{update_outcome, AppData};
use crate::types::{FetchError, WebData};
use crate::util::{commafied, commafy, decimal, has_prefix, omitted, omitted_string, push_decimal, same_text, starts_with};

verus! {

/// Unicode white space: the characters that Rust's `char::is_whitespace` accepts.
pub open spec fn is_space(c: char) -> bool {
    let u = c as u32;
    ||| 0x9 <= u <= 0xd
    ||| u == 0x20
    ||| u == 0x85
    ||| u == 0xa0
    ||| u == 0x1680
    ||| 0x2000 <= u <= 0x200a
    ||| u == 0x2028
    ||| u == 0x2029
    ||| u == 0x202f
    ||| u == 0x205f
    ||| u == 0x3000
}

/// `s` without its leading white space.
pub open spec fn trim_start(s: Seq<char>) -> Seq<char>
    decreases s.len(),
{
    if s.len() > 0 && is_space(s[0]) {
        trim_start(s.drop_first())
    } else {
        s
    }
}

/// `s` without its trailing white space.
pub open spec fn trim_end(s: Seq<char>) -> Seq<char>
    decreases s.len(),
{
    if s.len() > 0 && is_space(s.last()) {
        trim_end(s.drop_last())
    } else {
        s
    }
}

/// `s` without white space at either end.
pub open spec fn trimmed(s: Seq<char>) -> Seq<char> {
    trim_end(trim_start(s))
}

/// The characters of `s` up to its first white space.
pub open spec fn take_word(s: Seq<char>) -> Seq<char>
    decreases s.len(),
{
    if s.len() == 0 || is_space(s[0]) {
        Seq::empty()
    } else {
        seq![s[0]] + take_word(s.drop_first())
    }
}

/// The first whitespace-separated word of `s`, empty when there is none.
pub open spec fn first_word(s: Seq<char>) -> Seq<char> {
    take_word(trim_start(s))
}

/// Whether `c` is white space.
pub fn is_space_char(c: char) -> (r: bool)
    ensures
        r == is_space(c),
{
    let u = c as u32;
    (0x9 <= u && u <= 0xd) || u == 0x20 || u == 0x85 || u == 0xa0 || u == 0x1680
        || (0x2000 <= u && u <= 0x200a) || u == 0x2028 || u == 0x2029 || u == 0x202f
        || u == 0x205f || u == 0x3000
}

/// Where the text of `s` starts once its leading white space is skipped.
fn skip_spaces(s: &str) -> (r: usize)
    ensures
        r <= s@.len(),
        trim_start(s@) == s@.skip(r as int),
{
    let n = s.unicode_len();
    let mut a: usize = 0;
    assert(s@.skip(0) =~= s@);
    while a < n && is_space_char(s.get_char(a))
        invariant
            n == s@.len(),
            a <= n,
            trim_start(s@) == trim_start(s@.skip(a as int)),
        decreases n - a,
    {
        assert(s@.skip(a as int).drop_first() =~= s@.skip(a + 1));
        a = a + 1;
    }
    a
}

/// `s` without white space at either end.
pub fn trim(s: &str) -> (r: &str)
    ensures
        r@ == trimmed(s@),
{
    let n = s.unicode_len();
    let a = skip_spaces(s);
    let mut b: usize = n;
    while b > a && is_space_char(s.get_char(b - 1))
        invariant
            n == s@.len(),
            a <= b <= n,
            trim_end(s@.subrange(a as int, n as int)) == trim_end(s@.subrange(a as int, b as int)),
        decreases b - a,
    {
        assert(s@.subrange(a as int, b as int).drop_last() =~= s@.subrange(a as int, b - 1));
        b = b - 1;
    }
    assert(s@.skip(a as int) =~= s@.subrange(a as int, n as int));
    s.substring_char(a, b)
}

/// The first whitespace-separated word of `s`, empty when there is none.
pub fn first_word_of(s: &str) -> (r: &str)
    ensures
        r@ == first_word(s@),
{
    let n = s.unicode_len();
    let a = skip_spaces(s);
    let mut c: usize = a;
    while c < n && !is_space_char(s.get_char(c))
        invariant
            n == s@.len(),
            a <= c <= n,
            take_word(s@.skip(a as int)) == s@.subrange(a as int, c as int) + take_word(s@.skip(c as int)),
        decreases n - c,
    {
        assert(s@.skip(c as int).drop_first() =~= s@.skip(c + 1));
        assert(s@.subrange(a as int, c as int) + seq![s@[c as int]] =~= s@.subrange(a as int, c + 1));
        assert(s@.subrange(a as int, c as int) + (seq![s@[c as int]] + take_word(s@.skip(c + 1)))
            =~= s@.subrange(a as int, c + 1) + take_word(s@.skip(c + 1)));
        c = c + 1;
    }
    assert(take_word(s@.skip(c as int)) =~= Seq::<char>::empty());
    assert(s@.subrange(a as int, c as int) + Seq::<char>::empty() =~= s@.subrange(a as int, c as int));
    s.substring_char(a, c)
}

/// What a line of input asks for, in terms of its characters.
pub ghost enum ParsedLine {
    Quit,
    Help,
    Add(Seq<char>),
    AddWithoutUrl,
    Update,
    List,
    Unrecognized,
}

/// A command of the interactive loop.
#[derive(Debug, Clone, PartialEq, Eq)]
pub enum Command {
    /// `quit` or `q`: leave the loop.
    Quit,
    /// `help` or `h`: show the usage text.
    Help,
    /// `add <url>` or `a <url>`: start tracking the product at the URL.
    Add(String),
    /// `add` or `a` alone: the URL is missing.
    AddWithoutUrl,
    /// `update` or `u`: fetch every tracked product again.
    Update,
    /// `list` or `l`: show every tracked product with its prices.
    List,
    /// Anything else: nothing to do.
    Unrecognized,
}

impl View for Command {
    type V = ParsedLine;

    open spec fn view(&self) -> ParsedLine {
        match self {
            Command::Quit => ParsedLine::Quit,
            Command::Help => ParsedLine::Help,
            Command::Add(url) => ParsedLine::Add(url@),
            Command::AddWithoutUrl => ParsedLine::AddWithoutUrl,
            Command::Update => ParsedLine::Update,
            Command::List => ParsedLine::List,
            Command::Unrecognized => ParsedLine::Unrecognized,
        }
    }
}

/// The command that `line` asks for. The line is read without white space
/// at its ends, and the rules are tried in this order: a line beginning with
/// `quit` or `q `, or that is `q`, quits; one beginning with `help`, or that
/// is `h`, asks for help; one beginning with `add ` or `a ` adds the word that
/// follows; one beginning with `update`, or that is `u`, updates; one
/// beginning with `list`, or that is `l`, lists; `add` or `a` alone lacks its URL.
pub open spec fn parse_line(line: Seq<char>) -> ParsedLine {
    let t = trimmed(line);
    if has_prefix(t, "quit"@) || t == "q"@ || has_prefix(t, "q "@) {
        ParsedLine::Quit
    } else if has_prefix(t, "help"@) || t == "h"@ {
        ParsedLine::Help
    } else if has_prefix(t, "add "@) {
        ParsedLine::Add(first_word(t.skip("add "@.len() as int)))
    } else if has_prefix(t, "a "@) {
        ParsedLine::Add(first_word(t.skip("a "@.len() as int)))
    } else if has_prefix(t, "update"@) || t == "u"@ {
        ParsedLine::Update
    } else if has_prefix(t, "list"@) || t == "l"@ {
        ParsedLine::List
    } else if t == "add"@ || t == "a"@ {
        ParsedLine::AddWithoutUrl
    } else {
        ParsedLine::Unrecognized
    }
}

/// The word after a command of `prefix@.len()` characters at the start of `t`.
fn argument_after(t: &str, prefix: &str) -> (r: String)
    requires
        has_prefix(t@, prefix@),
    ensures
        r@ == first_word(t@.skip(prefix@.len() as int)),
{
    let k = prefix.unicode_len();
    let rest = t.substring_char(k, t.unicode_len());
    assert(rest@ =~= t@.skip(k as int));
    String::from_str(first_word_of(rest))
}

/// Reads a line of input as a command.
pub fn parse_command(line: &str) -> (r: Command)
    ensures
        r@ == parse_line(line@),
{
    let t = trim(line);
    if starts_with(t, "quit") || same_text(t, "q") || starts_with(t, "q ") {
        Command::Quit
    } else if starts_with(t, "help") || same_text(t, "h") {
        Command::Help
    } else if starts_with(t, "add ") {
        Command::Add(argument_after(t, "add "))
    } else if starts_with(t, "a ") {
        Command::Add(argument_after(t, "a "))
    } else if starts_with(t, "update") || same_text(t, "u") {
        Command::Update
    } else if starts_with(t, "list") || same_text(t, "l") {
        Command::List
    } else if same_text(t, "add") || same_text(t, "a") {
        Command::AddWithoutUrl
    } else {
        Command::Unrecognized
    }
}

/// The `update` command: records a pass of fetches over `app_state`, where
/// `fetched[i]` is what the fetch of the product at position `i` gave, and
/// returns one message per failed fetch for the caller to show.
pub fn update_all(app_state: &mut AppData, fetched: Vec<Result<WebData, FetchError>>) -> (r: Vec<String>)
    requires
        fetched@.len() == old(app_state).histories@.len(),
    ensures
        exists|t: i64| t >= 0 && update_outcome(*old(app_state), *final(app_state), fetched@, t, r@),
        old(app_state).wf() ==> final(app_state).wf(),
{
    app_state.update_all(fetched)
}

/// The line that the `list` command shows for a product: its number, its
/// shortened name, and its latest, highest and lowest price.
pub open spec fn list_line_text(index: u64, name: Seq<char>, high: u64, low: u64, now: u64) -> Seq<char> {
    decimal(index as nat) + ": "@ + omitted(name) + "  ￥"@ + commafied(now as int) + " - (￥"@
        + commafied(high as int) + "/￥"@ + commafied(low as int) + ")"@
}

/// The line that the `list` command shows for the product numbered `index`
/// named `name`, whose prices are summed up as `(high, low, now)`.
pub fn list_line(index: u64, name: &str, summary: (u64, u64, u64)) -> (r: String)
    ensures
        r@ == list_line_text(index, name@, summary.0, summary.1, summary.2),
{
    let (high, low, now) = summary;
    let mut out = String::new();
    push_decimal(index as u128, &mut out);
    out.append(": ");
    out.append(omitted_string(name).as_str());
    out.append("  ￥");
    out.append(commafy(now as i128).as_str());
    out.append(" - (￥");
    out.append(commafy(high as i128).as_str());
    out.append("/￥");
    out.append(commafy(low as i128).as_str());
    out.append(")");
    assert(out@ =~= list_line_text(index, name@, high, low, now));
    out
}

} // verus!
