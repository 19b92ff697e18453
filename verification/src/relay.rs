//! From an event of the backend to the entry it leaves in the log.

use vstd::prelude::*;
use vstd::utf8::decode_utf8;
use vstd::utf8::valid_utf8;
use crate::event::BackendEvent;
use crate::event::EventView;
use crate::text::decodes_as;
use crate::text::exit_code_text;
use crate::text::from_utf8_lossy;
use crate::text::lossy_text;
use crate::text::render_exit_code;
use crate::text::REPLACEMENT;

verus! {

/// What every relayed line of backend output starts with.
pub const OUTPUT_PREFIX: &'static str = "[Backend] ";

/// What the entry for an error of the process layer starts with.
pub const ERROR_PREFIX: &'static str = "[Backend Error] ";

/// What the entry for the end of the backend starts with.
pub const TERMINATION_PREFIX: &'static str = "[Backend] Process terminated with code: ";

/// How serious a log entry is.
#[derive(Clone, Copy, Debug, PartialEq, Eq, Structural)]
pub enum Severity {
    Info,
    Warn,
    Error,
}

/// One entry for the log: a severity and the finished message.
#[derive(Debug, PartialEq, Eq)]
pub struct LogEntry {
    pub severity: Severity,
    pub message: String,
}

/// The mathematical content of a [`LogEntry`].
pub struct EntryView {
    pub severity: Severity,
    pub message: Seq<char>,
}

impl View for LogEntry {
    type V = EntryView;

    open spec fn view(&self) -> EntryView {
        EntryView { severity: self.severity, message: self.message@ }
    }
}

/// The content of an optional entry.
pub open spec fn entry_view(entry: Option<LogEntry>) -> Option<EntryView> {
    match entry {
        Some(e) => Some(e@),
        None => None,
    }
}

/// The entry for a line of decoded backend output at the given severity.
pub open spec fn output_entry(severity: Severity, text: Seq<char>) -> EntryView {
    EntryView { severity, message: OUTPUT_PREFIX@ + text }
}

/// The entry for an error of the process layer.
pub open spec fn error_entry(detail: Seq<char>) -> EntryView {
    EntryView { severity: Severity::Error, message: ERROR_PREFIX@ + detail }
}

/// The entry for the end of the backend.
pub open spec fn termination_entry(code: Option<i32>) -> EntryView {
    EntryView { severity: Severity::Info, message: TERMINATION_PREFIX@ + exit_code_text(code) }
}

/// The entry that an event leaves in the log, if it leaves one: standard
/// output is relayed at informational severity and standard error as a
/// warning, both decoded lossily; an error of the process layer is an error
/// entry with its detail; the end of the backend is an informational entry
/// with the exit code. Any other event leaves nothing.
pub open spec fn relayed(event: EventView) -> Option<EntryView> {
    match event {
        EventView::Stdout(bytes) => Some(output_entry(Severity::Info, lossy_text(bytes))),
        EventView::Stderr(bytes) => Some(output_entry(Severity::Warn, lossy_text(bytes))),
        EventView::Error(detail) => Some(error_entry(detail)),
        EventView::Terminated(code) => Some(termination_entry(code)),
        EventView::Other => None,
    }
}

/// The bytes of output that an event carries, if it is one of output.
pub open spec fn output_bytes(event: EventView) -> Option<Seq<u8>> {
    match event {
        EventView::Stdout(bytes) => Some(bytes),
        EventView::Stderr(bytes) => Some(bytes),
        _ => None,
    }
}

/// What is known of the text that an event of output is relayed with: valid
/// UTF-8 is relayed as the text it encodes, anything else with U+FFFD in it.
pub open spec fn faithfully_decoded(event: EventView) -> bool {
    output_bytes(event) matches Some(bytes) ==> decodes_as(bytes, lossy_text(bytes))
}

/// Builds the entry for a line of backend output that is already decoded.
pub fn output_line(severity: Severity, text: &str) -> (entry: LogEntry)
    ensures
        entry@ == output_entry(severity, text@),
{
    let mut message = String::from_str(OUTPUT_PREFIX);
    message.append(text);
    LogEntry { severity, message }
}

/// Builds the entry for an error that the process layer reported.
pub fn error_line(detail: &str) -> (entry: LogEntry)
    ensures
        entry@ == error_entry(detail@),
{
    let mut message = String::from_str(ERROR_PREFIX);
    message.append(detail);
    LogEntry { severity: Severity::Error, message }
}

/// Builds the entry for the end of the backend.
pub fn termination_line(code: Option<i32>) -> (entry: LogEntry)
    ensures
        entry@ == termination_entry(code),
{
    let mut message = String::from_str(TERMINATION_PREFIX);
    let rendered = render_exit_code(code);
    message.append(rendered.as_str());
    LogEntry { severity: Severity::Info, message }
}

/// A message that ends in `text` holds every character that `text` holds.
proof fn lemma_prefixed_contains(prefix: Seq<char>, text: Seq<char>, c: char)
    requires
        text.contains(c),
    ensures
        (prefix + text).contains(c),
{
    let i = choose|i: int| 0 <= i < text.len() && text[i] == c;
    assert((prefix + text)[prefix.len() + i] == c);
}

/// Decides what an event of the backend leaves in the log.
///
/// Succeeds on every event. A line of standard output that is valid UTF-8
/// appears, prefixed, as the text it encodes at informational severity; the
/// same line on standard error appears as a warning. Output that is not
/// valid UTF-8 is relayed all the same, with U+FFFD in the message.
pub fn relay(event: &BackendEvent) -> (entry: Option<LogEntry>)
    ensures
        entry_view(entry) == relayed(event@),
        faithfully_decoded(event@),
        event@ matches EventView::Stdout(bytes) ==> (valid_utf8(bytes) ==> entry_view(entry)
            == Some(output_entry(Severity::Info, decode_utf8(bytes)))),
        event@ matches EventView::Stderr(bytes) ==> (valid_utf8(bytes) ==> entry_view(entry)
            == Some(output_entry(Severity::Warn, decode_utf8(bytes)))),
        output_bytes(event@) matches Some(bytes) ==> (!valid_utf8(bytes) ==> (entry matches Some(e)
            && e.message@.contains(REPLACEMENT))),
{
    match event {
        BackendEvent::Stdout(bytes) => {
            let text = from_utf8_lossy(bytes.as_slice());
            proof {
                if !valid_utf8(bytes@) {
                    lemma_prefixed_contains(OUTPUT_PREFIX@, text@, REPLACEMENT);
                }
            }
            Some(output_line(Severity::Info, text.as_str()))
        },
        BackendEvent::Stderr(bytes) => {
            let text = from_utf8_lossy(bytes.as_slice());
            proof {
                if !valid_utf8(bytes@) {
                    lemma_prefixed_contains(OUTPUT_PREFIX@, text@, REPLACEMENT);
                }
            }
            Some(output_line(Severity::Warn, text.as_str()))
        },
        BackendEvent::Error(detail) => Some(error_line(detail.as_str())),
        BackendEvent::Terminated(code) => Some(termination_line(*code)),
        BackendEvent::Other => None,
    }
}

} // verus!
