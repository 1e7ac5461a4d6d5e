//! Status sink: prefixing of report messages, their chain of causes, and
//! the routing of each message kind, for the backend that writes status
//! lines to the supervisor's stdout stream.

use vstd::prelude::*;
use crate::io::TexpressoStdout;

verus! {

/// Relies on `String::push_str`: appends the given string slice onto the
/// end of the string.
pub assume_specification[ String::push_str ](s: &mut String, other: &str)
    ensures
        final(s)@ == old(s)@ + other@,
;

/// Relies on `String::push`: appends the given character onto the end of
/// the string.
pub assume_specification[ String::push ](s: &mut String, c: char)
    ensures
        final(s)@ == old(s)@.push(c),
;

/// A kind of status message.
#[derive(Clone, Copy, PartialEq, Eq, Debug)]
pub enum MessageKind {
    Note,
    Warning,
    Error,
}

/// Which messages to display.
#[derive(Clone, Copy, PartialEq, Eq, Debug)]
pub enum ChatterLevel {
    /// Suppress informational output.
    Minimal,
    /// Normal output levels.
    Normal,
}

/// Whether messages of the given kind are suppressed at this chatter
/// level: the minimal level drops notes and nothing else.
pub fn suppress_message(level: ChatterLevel, kind: MessageKind) -> (r: bool)
    ensures
        r <==> (level is Minimal && kind is Note),
{
    match level {
        ChatterLevel::Normal => false,
        ChatterLevel::Minimal => match kind {
            MessageKind::Note => true,
            _ => false,
        },
    }
}

/// Where a report goes: dropped, to the standard error of the engine
/// process, or to the supervisor's stdout stream.
#[derive(Clone, Copy, PartialEq, Eq, Debug)]
pub enum ReportRoute {
    Suppressed,
    Stderr,
    Channel,
}

/// The status backend: a chatter level and the handle for the supervisor's
/// stdout stream.
pub struct TexpressoStatusBackend {
    pub chatter: ChatterLevel,
    pub output: TexpressoStdout,
}

/// The report prefix for each message kind.
pub open spec fn spec_kind_prefix(kind: MessageKind) -> Seq<char> {
    match kind {
        MessageKind::Note => "note:"@,
        MessageKind::Warning => "warning:"@,
        MessageKind::Error => "error:"@,
    }
}

/// The lines of one report: the prefixed message, then one `caused by:`
/// line per cause in the chain.
pub open spec fn spec_report_lines(prefix: Seq<char>, msg: Seq<char>, causes: Seq<Seq<char>>)
    -> Seq<Seq<char>> {
    seq![prefix + " "@ + msg] + causes.map_values(|c: Seq<char>| "caused by: "@ + c)
}

/// Builds the lines of one report.
pub fn report_lines(prefix: &str, msg: &str, causes: &Vec<String>) -> (lines: Vec<String>)
    ensures
        lines@.map_values(|l: String| l@) == spec_report_lines(
            prefix@,
            msg@,
            causes@.map_values(|c: String| c@),
        ),
{
    let mut lines: Vec<String> = Vec::new();
    let mut head = String::new();
    head.push_str(prefix);
    head.push_str(" ");
    head.push_str(msg);
    assert(head@ =~= prefix@ + " "@ + msg@);
    lines.push(head);
    let mut i: usize = 0;
    while i < causes.len()
        invariant
            0 <= i <= causes@.len(),
            lines@.len() == i + 1,
            lines@[0]@ == prefix@ + " "@ + msg@,
            forall|j: int|
                1 <= j < i + 1 ==> #[trigger] lines@[j]@ == "caused by: "@ + causes@[j - 1]@,
        decreases causes@.len() - i,
    {
        let mut line = String::new();
        line.push_str("caused by: ");
        line.push_str(causes[i].as_str());
        assert(line@ =~= "caused by: "@ + causes@[i as int]@);
        lines.push(line);
        i = i + 1;
    }
    assert(lines@.map_values(|l: String| l@) =~= spec_report_lines(
        prefix@,
        msg@,
        causes@.map_values(|c: String| c@),
    ));
    lines
}

/// The lines reporting an error chain without further context: `error:` for
/// the first item, `caused by:` for each one after it.
pub open spec fn spec_error_chain_lines(items: Seq<Seq<char>>) -> Seq<Seq<char>> {
    items.map(
        |i: int, c: Seq<char>|
            if i == 0 {
                "error: "@ + c
            } else {
                "caused by: "@ + c
            },
    )
}

/// Builds the lines reporting an error chain.
pub fn error_chain_lines(items: &Vec<String>) -> (lines: Vec<String>)
    ensures
        lines@.map_values(|l: String| l@) == spec_error_chain_lines(
            items@.map_values(|c: String| c@),
        ),
{
    let mut lines: Vec<String> = Vec::new();
    let mut i: usize = 0;
    while i < items.len()
        invariant
            0 <= i <= items@.len(),
            lines@.len() == i,
            forall|j: int|
                0 <= j < i ==> #[trigger] lines@[j]@ == (if j == 0 {
                    "error: "@ + items@[j]@
                } else {
                    "caused by: "@ + items@[j]@
                }),
        decreases items@.len() - i,
    {
        let mut line = String::new();
        if i == 0 {
            line.push_str("error: ");
        } else {
            line.push_str("caused by: ");
        }
        line.push_str(items[i].as_str());
        lines.push(line);
        i = i + 1;
    }
    assert(lines@.map_values(|l: String| l@) =~= spec_error_chain_lines(
        items@.map_values(|c: String| c@),
    ));
    lines
}

/// The fixed-width rule line that sandwiches dumped error logs: 79 equals
/// signs.
pub fn rule_line() -> (r: String)
    ensures
        r@.len() == 79,
        forall|i: int| 0 <= i < 79 ==> r@[i] == '=',
{
    let mut r = String::new();
    let mut i: usize = 0;
    while i < 79
        invariant
            0 <= i <= 79,
            r@.len() == i,
            forall|j: int| 0 <= j < i ==> r@[j] == '=',
        decreases 79 - i,
    {
        r.push('=');
        i = i + 1;
    }
    r
}

impl TexpressoStatusBackend {
    /// A backend with the given chatter level over the given stdout handle.
    pub fn new(chatter: ChatterLevel, output: TexpressoStdout) -> (r: TexpressoStatusBackend)
        ensures
            r.chatter == chatter,
    {
        TexpressoStatusBackend { chatter, output }
    }

    /// Where a message of the given kind goes at this backend's chatter
    /// level: suppressed notes nowhere, other notes to standard error,
    /// warnings and errors to the supervisor's stdout stream.
    pub fn report_route(&self, kind: MessageKind) -> (r: ReportRoute)
        ensures
            self.chatter is Minimal && kind is Note ==> r is Suppressed,
            !(self.chatter is Minimal && kind is Note) ==> (kind is Note ==> r is Stderr) && (!(
            kind is Note) ==> r is Channel),
    {
        if suppress_message(self.chatter, kind) {
            ReportRoute::Suppressed
        } else {
            match kind {
                MessageKind::Note => ReportRoute::Stderr,
                _ => ReportRoute::Channel,
            }
        }
    }

    /// A full report: its route and its lines, prefixed for the given kind
    /// and followed by the chain of causes.
    pub fn report(&self, kind: MessageKind, msg: &str, causes: &Vec<String>) -> (r: (
        ReportRoute,
        Vec<String>,
    ))
        ensures
            self.chatter is Minimal && kind is Note ==> r.0 is Suppressed,
            !(self.chatter is Minimal && kind is Note) ==> (kind is Note ==> r.0 is Stderr) && (!(
            kind is Note) ==> r.0 is Channel),
            r.1@.map_values(|l: String| l@) == spec_report_lines(
                spec_kind_prefix(kind),
                msg@,
                causes@.map_values(|c: String| c@),
            ),
    {
        let route = self.report_route(kind);
        let lines = match kind {
            MessageKind::Note => report_lines("note:", msg, causes),
            MessageKind::Warning => report_lines("warning:", msg, causes),
            MessageKind::Error => report_lines("error:", msg, causes),
        };
        (route, lines)
    }

    /// A highlighted note: the three parts joined into one message, routed
    /// as an ordinary note with no causes.
    pub fn note_highlighted(&self, before: &str, highlighted: &str, after: &str) -> (r: (
        ReportRoute,
        Vec<String>,
    ))
        ensures
            self.chatter is Minimal ==> r.0 is Suppressed,
            !(self.chatter is Minimal) ==> r.0 is Stderr,
            r.1@.map_values(|l: String| l@) == spec_report_lines(
                spec_kind_prefix(MessageKind::Note),
                before@ + highlighted@ + after@,
                Seq::<Seq<char>>::empty(),
            ),
    {
        let mut msg = String::new();
        msg.push_str(before);
        msg.push_str(highlighted);
        msg.push_str(after);
        assert(msg@ =~= before@ + highlighted@ + after@);
        let causes: Vec<String> = Vec::new();
        assert(causes@.map_values(|c: String| c@) =~= Seq::<Seq<char>>::empty());
        self.report(MessageKind::Note, msg.as_str(), &causes)
    }

    /// The lines reporting an error chain through this backend's channel
    /// route.
    pub fn report_error(&self, items: &Vec<String>) -> (lines: Vec<String>)
        ensures
            lines@.map_values(|l: String| l@) == spec_error_chain_lines(
                items@.map_values(|c: String| c@),
            ),
    {
        error_chain_lines(items)
    }
}

} // verus!
