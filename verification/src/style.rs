//! Terminal styling of the lines that the run shows.
//!
//! The styling itself is done by the `colored` crate, which decides from the
//! terminal and the environment whether a text is decorated at all. What is
//! known of a styled text is that it is the text itself with, at most,
//! something before it and something after it; what is proved is how the
//! lines are put together around the styled parts.

use vstd::prelude::*;
use vstd::string::*;
use colored::ColoredString;
use colored::Colorize;
use crate::commands::banner;
use crate::commands::command_banner;
use crate::commands::Invocation;
use crate::commands::phase_title;
use crate::commands::Phase;
use crate::deploy::compose_report_line;
use crate::deploy::report_line_around;
use crate::deploy::ReportEntry;
use crate::run_util::label_line;

verus! {

/// A text with the style that `colored` will show it in.
#[verifier::external_type_specification]
#[verifier::external_body]
pub struct ExColoredString(ColoredString);

/// The plain text that a `ColoredString` carries, its field `input`.
pub uninterp spec fn styled_text(styled: ColoredString) -> Seq<char>;

/// The sequence with which a terminal is told to drop all styles.
pub open spec fn reset_sequence() -> Seq<char> {
    seq!['\u{1b}', '[', '0', 'm']
}

/// The reset sequence occurs somewhere in `text`.
pub open spec fn has_reset(text: Seq<char>) -> bool {
    exists|i: int|
        0 <= i && i + 4 <= text.len() && #[trigger] text.subrange(i, i + 4) == reset_sequence()
}

/// `shown` is `text` with, at most, something before it and something after
/// it.
pub open spec fn decorates(shown: Seq<char>, text: Seq<char>) -> bool {
    exists|before: Seq<char>, after: Seq<char>| shown == before + text + after
}

/// No character of `text` is the escape character.
pub open spec fn no_escape(text: Seq<char>) -> bool {
    forall|i: int| 0 <= i < text.len() ==> text[i] != '\u{1b}'
}

/// A text without the escape character holds no reset sequence.
pub proof fn lemma_no_escape_no_reset(text: Seq<char>)
    requires
        no_escape(text),
    ensures
        !has_reset(text),
{
    if has_reset(text) {
        let i = choose|i: int|
            0 <= i && i + 4 <= text.len() && #[trigger] text.subrange(i, i + 4)
                == reset_sequence();
        assert(text.subrange(i, i + 4)[0] == text[i]);
        assert(reset_sequence()[0] == '\u{1b}');
    }
}

/// `line` is `rest` under a label that shows `name`: the label, a colon and
/// a space, then `rest`; and the label is `name`, decorated or not, where
/// `name` holds no reset sequence.
pub open spec fn labelled(
    line: Seq<char>,
    label: Seq<char>,
    name: Seq<char>,
    rest: Seq<char>,
) -> bool {
    &&& line == label + ": "@ + rest
    &&& !has_reset(name) ==> decorates(label, name)
}

/// `line` is the report line of `entry` around the shown host name `host`
/// and the shown detail `detail`, each of which is the plain text, decorated
/// or not, where that text holds no reset sequence.
pub open spec fn styled_entry(
    line: Seq<char>,
    entry: ReportEntry,
    host: Seq<char>,
    detail: Seq<char>,
) -> bool {
    &&& line == report_line_around(entry.outcome@, host, detail)
    &&& !has_reset(entry.host@) ==> decorates(host, entry.host@)
    &&& !has_reset(entry.outcome@.detail()) ==> decorates(detail, entry.outcome@.detail())
}

/// `ColoredString::from`: the text with no style yet. The result carries
/// the text as it was given.
#[verifier::external_body]
fn unstyled(text: &str) -> (r: ColoredString)
    ensures
        styled_text(r) == text@,
{
    ColoredString::from(text)
}

/// `Colorize::red` on a `&str`. The result carries the text as it was
/// given.
#[verifier::external_body]
fn in_red(text: &str) -> (r: ColoredString)
    ensures
        styled_text(r) == text@,
{
    text.red()
}

/// `Colorize::green` on a `&str`. The result carries the text as it was
/// given.
#[verifier::external_body]
fn in_green(text: &str) -> (r: ColoredString)
    ensures
        styled_text(r) == text@,
{
    text.green()
}

/// `Colorize::yellow` on a `&str`. The result carries the text as it was
/// given.
#[verifier::external_body]
fn in_yellow(text: &str) -> (r: ColoredString)
    ensures
        styled_text(r) == text@,
{
    text.yellow()
}

/// `Colorize::purple` on a `&str`. The result carries the text as it was
/// given.
#[verifier::external_body]
fn in_purple(text: &str) -> (r: ColoredString)
    ensures
        styled_text(r) == text@,
{
    text.purple()
}

/// `Colorize::bold` on a `ColoredString`. The result carries the text that
/// the argument carried.
#[verifier::external_body]
fn in_bold(text: ColoredString) -> (r: ColoredString)
    ensures
        styled_text(r) == styled_text(text),
{
    text.bold()
}

/// The `Display` of a `ColoredString`, as a `String`. Whether the text is
/// decorated is decided by the terminal and the environment. Either way, a
/// text that holds no reset sequence comes out as it is, with at most one
/// escape sequence before it and one after it. Of a text that holds a reset
/// sequence nothing is claimed: the crate rewrites it.
#[verifier::external_body]
fn shown(text: &ColoredString) -> (r: String)
    ensures
        !has_reset(styled_text(*text)) ==> decorates(r@, styled_text(*text)),
{
    text.to_string()
}

/// One line of the report for the terminal: the mark, the host's name in
/// bold, and the version in green or the cause in red.
pub fn styled_report_line(entry: &ReportEntry) -> (r: String)
    ensures
        exists|host: Seq<char>, detail: Seq<char>| styled_entry(r@, *entry, host, detail),
{
    let host = shown(&in_bold(unstyled(entry.host.as_str())));
    let text = entry.outcome.detail();
    let detail = if entry.outcome.is_success() {
        shown(&in_green(text.as_str()))
    } else {
        shown(&in_red(text.as_str()))
    };
    let r = compose_report_line(&entry.outcome, host.as_str(), detail.as_str());
    assert(styled_entry(r@, *entry, host@, detail@));
    r
}

/// The label under which a line of a command's output is shown: the name in
/// bold, and in red as well for a line of its error stream.
pub fn stream_label(name: &str, err: bool) -> (r: String)
    ensures
        !has_reset(name@) ==> decorates(r@, name@),
{
    if err {
        shown(&in_bold(in_red(name)))
    } else {
        shown(&in_bold(unstyled(name)))
    }
}

/// One line of a command's output for the terminal: the styled label, then
/// the line as the command printed it.
pub fn styled_stream_line(name: &str, err: bool, line: &str) -> (r: String)
    ensures
        exists|label: Seq<char>| labelled(r@, label, name@, line@),
{
    let label = stream_label(name, err);
    let r = label_line(label.as_str(), line);
    assert(labelled(r@, label@, name@, line@));
    r
}

/// The notice that a command is started for a host: the host's name in
/// purple and bold, then the command as one line.
pub fn running_notice(host_name: &str, invocation: &Invocation) -> (r: String)
    ensures
        exists|label: Seq<char>|
            labelled(r@, label, host_name@, "Running "@ + invocation@.command_line()),
{
    let label = shown(&in_bold(in_purple(host_name)));
    let mut what = String::from_str("Running ");
    let line = invocation.command_line();
    what.append(line.as_str());
    let r = label_line(label.as_str(), what.as_str());
    assert(labelled(r@, label@, host_name@, "Running "@ + invocation@.command_line()));
    r
}

/// The notice that a host is passed over because it has no remote shell.
pub fn skip_notice(host_name: &str) -> (r: String)
    ensures
        exists|label: Seq<char>| labelled(r@, label, host_name@, "Skipping local host"@),
{
    let label = shown(&in_bold(in_purple(host_name)));
    let r = label_line(label.as_str(), "Skipping local host");
    assert(labelled(r@, label@, host_name@, "Skipping local host"@));
    r
}

/// The text of the banner of a section of the run.
pub open spec fn banner_text(phase: Phase) -> Seq<char> {
    "=== "@ + phase_title(phase) + " ==="@
}

/// The text of the banner of the run of a command on the hosts.
pub open spec fn command_banner_text(command: Seq<char>) -> Seq<char> {
    "=== Start Run: "@ + command + " ==="@
}

/// No banner of a section holds the escape character.
pub proof fn lemma_banner_has_no_escape(phase: Phase)
    ensures
        no_escape(banner_text(phase)),
        !has_reset(banner_text(phase)),
{
    reveal_strlit("=== ");
    reveal_strlit(" ===");
    reveal_strlit("Start Update");
    reveal_strlit("Start Build");
    reveal_strlit("Start Deploy");
    reveal_strlit("Result");
    let text = banner_text(phase);
    let title = phase_title(phase);
    assert forall|i: int| 0 <= i < text.len() implies text[i] != '\u{1b}' by {
        if i < 4 {
            assert(text[i] == "=== "@[i]);
        } else if i < 4 + title.len() {
            assert(text[i] == title[i - 4]);
        } else {
            assert(text[i] == " ==="@[i - 4 - title.len()]);
        }
    }
    lemma_no_escape_no_reset(text);
}

/// The banner of a section of the run, in yellow and bold: the banner's
/// text, decorated or not.
pub fn styled_banner(phase: Phase) -> (r: String)
    ensures
        decorates(r@, banner_text(phase)),
{
    let text = banner(phase);
    proof {
        lemma_banner_has_no_escape(phase);
    }
    shown(&in_bold(in_yellow(text.as_str())))
}

/// The banner of the run of a command on the hosts, in yellow and bold: the
/// banner's text, decorated or not, where the command holds no reset
/// sequence of its own.
pub fn styled_command_banner(command: &str) -> (r: String)
    ensures
        !has_reset(command_banner_text(command@)) ==> decorates(
            r@,
            command_banner_text(command@),
        ),
{
    let text = command_banner(command);
    shown(&in_bold(in_yellow(text.as_str())))
}

} // verus!
