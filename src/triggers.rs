//! Detection of embedded command markup in clipboard text.
use vstd::prelude::*;
use crate::protocol::{OutputMessage, views};

verus! {

/// The markup that the scanner locates: a `qdrant-file`, `qdrant-search` or
/// `qdrant-read` element, in paired form (up to the first closing tag of the
/// same name) or self-closing; `.` matches line breaks too.
pub const TRIGGER_PATTERN: &'static str = "(?s)<qdrant-file.*?>.*?</qdrant-file>|<qdrant-search.*?>.*?</qdrant-search>|<qdrant-read.*?>.*?</qdrant-read>|<qdrant-(?:file|search|read).*?/>";

/// The texts of the successive non-overlapping leftmost-first matches of a
/// regular expression in a text, or `None` where the expression does not compile.
pub uninterp spec fn regex_matches_of(pattern: Seq<char>, text: Seq<char>) -> Option<Seq<Seq<char>>>;

/// Relies on regex::Regex::new, Regex::find_iter and Match::as_str: the text of
/// each match, first to last.
#[verifier::external_body]
fn regex_find_all(pattern: &str, text: &str) -> (r: Option<Vec<String>>)
    ensures
        match r {
            Some(v) => regex_matches_of(pattern@, text@) == Some(views(v@)),
            None => regex_matches_of(pattern@, text@) is None,
        },
{
    regex::Regex::new(pattern).ok().map(
        |re| re.find_iter(text).map(|m| m.as_str().to_string()).collect(),
    )
}

/// The spans of trigger markup in `text`, in order of appearance.
pub open spec fn trigger_spans(text: Seq<char>) -> Option<Seq<Seq<char>>> {
    regex_matches_of(TRIGGER_PATTERN@, text)
}

/// `r` is the trigger message for the spans `found`: one carrying them all,
/// in order, when there is at least one, and none otherwise.
pub open spec fn is_trigger_for(found: Option<Seq<Seq<char>>>, r: Option<OutputMessage>) -> bool {
    match found {
        Some(spans) if spans.len() > 0 => match r {
            Some(OutputMessage::TriggerXml { xml_payloads }) => views(xml_payloads@) == spans,
            _ => false,
        },
        _ => r is None,
    }
}

/// The trigger message that carries `payloads`, or none when there are none.
pub fn trigger_message(payloads: Vec<String>) -> (r: Option<OutputMessage>)
    ensures
        is_trigger_for(Some(views(payloads@)), r),
{
    if payloads.len() == 0 {
        None
    } else {
        Some(OutputMessage::TriggerXml { xml_payloads: payloads })
    }
}

/// Scans `content` for trigger markup and builds the message that reports it.
pub fn check_for_triggers(content: &str) -> (r: Option<OutputMessage>)
    ensures
        is_trigger_for(trigger_spans(content@), r),
{
    match regex_find_all(TRIGGER_PATTERN, content) {
        Some(found) => trigger_message(found),
        None => None,
    }
}

} // verus!
