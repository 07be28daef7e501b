//! The polling state machine: the shared pause flag, what one cycle does with
//! the text it read, and the messages it reports.
use vstd::prelude::*;
use vstd::utf8::encode_utf8;
use crate::fingerprint::{fingerprint, fingerprint_of, is_change, is_changed, opt_view};
use crate::protocol::{command_of_line, InputCommand, OutputMessage};
use crate::triggers::{check_for_triggers, is_trigger_for, trigger_spans};

verus! {

/// Pause between two cycles while polling is active, in milliseconds.
pub const ACTIVE_INTERVAL_MS: u64 = 500;

/// Pause between two cycles while polling is paused, in milliseconds.
pub const PAUSED_INTERVAL_MS: u64 = 1000;

/// Relies on chrono::Utc::now and DateTime::to_rfc3339: the current UTC time
/// as an ISO-8601 string. Nothing is stated of its value, which is the clock's.
#[verifier::external_body]
fn now_rfc3339() -> (r: String) {
    chrono::Utc::now().to_rfc3339()
}

/// Whether polling is active. Shared between the polling loop and the
/// command listener; active at startup.
#[derive(Debug, Clone, Copy, PartialEq, Eq, Structural)]
pub struct MonitoringState {
    pub active: bool,
}

impl MonitoringState {
    pub fn new() -> (r: MonitoringState)
        ensures
            r.active,
    {
        MonitoringState { active: true }
    }

    /// Applies a command: `Pause` deactivates polling, `Resume` activates it.
    /// Repeating a command changes nothing.
    pub fn apply(&mut self, cmd: InputCommand)
        ensures
            final(self).active == (cmd == InputCommand::Resume),
    {
        match cmd {
            InputCommand::Pause => self.active = false,
            InputCommand::Resume => self.active = true,
        }
    }

    /// Handles one line from the control stream: an empty line is skipped, a
    /// command is applied, and anything else leaves the state as it was and is
    /// reported as malformed (the result).
    pub fn handle_line(&mut self, line: &str) -> (malformed: bool)
        ensures
            line@.len() == 0 ==> !malformed && *final(self) == *old(self),
            line@.len() > 0 ==> match command_of_line(line@) {
                Some(cmd) => !malformed && final(self).active == (cmd == InputCommand::Resume),
                None => malformed && *final(self) == *old(self),
            },
    {
        if line.is_empty() {
            return false;
        }
        match InputCommand::parse_line(line) {
            Some(cmd) => {
                self.apply(cmd);
                false
            },
            None => true,
        }
    }

    /// Whether this cycle reads the clipboard at all.
    pub fn should_read(&self) -> (r: bool)
        ensures
            r == self.active,
    {
        self.active
    }

    /// How long to wait before the next cycle.
    pub fn interval_ms(&self) -> (r: u64)
        ensures
            r == if self.active { ACTIVE_INTERVAL_MS } else { PAUSED_INTERVAL_MS },
    {
        if self.active {
            ACTIVE_INTERVAL_MS
        } else {
            PAUSED_INTERVAL_MS
        }
    }
}

/// `m` reports `content` as new clipboard content, with its size in bytes.
pub open spec fn is_update_of(m: OutputMessage, content: Seq<char>) -> bool {
    match m {
        OutputMessage::ClipboardUpdate { content: c, timestamp: _, length } => c@ == content
            && length == encode_utf8(content).len() as usize,
        _ => false,
    }
}

/// The update message for `content`, seen at `timestamp`.
pub fn update_message(content: String, timestamp: String) -> (r: OutputMessage)
    ensures
        r == (OutputMessage::ClipboardUpdate {
            content,
            timestamp,
            length: encode_utf8(content@).len() as usize,
        }),
{
    let length = content.as_str().len();
    OutputMessage::ClipboardUpdate { content, timestamp, length }
}

/// Fingerprints freshly read `content` and, where it differs from `last_hash`,
/// builds the update message and the trigger message for it.
pub fn process_clipboard_content(content: String, last_hash: &Option<String>) -> (r: (
    Option<OutputMessage>,
    Option<OutputMessage>,
    String,
))
    ensures
        r.2@ == fingerprint_of(content@),
        !is_change(r.2@, opt_view(*last_hash)) ==> r.0 is None && r.1 is None,
        is_change(r.2@, opt_view(*last_hash)) ==> (match r.0 {
            Some(m) => is_update_of(m, content@),
            None => false,
        }) && is_trigger_for(trigger_spans(content@), r.1),
{
    let current_hash = fingerprint(content.as_str());
    if !is_changed(&current_hash, last_hash) {
        return (None, None, current_hash);
    }
    let trigger_msg = check_for_triggers(content.as_str());
    let update_msg = update_message(content, now_rfc3339());
    (Some(update_msg), trigger_msg, current_hash)
}

/// The messages one active cycle emits for `content` after `last`: nothing when
/// the fingerprint is unchanged; else the update, then the trigger message if
/// the content holds markup.
pub open spec fn is_cycle_output(content: Seq<char>, last: Option<Seq<char>>, msgs: Seq<OutputMessage>) -> bool {
    if !is_change(fingerprint_of(content), last) {
        msgs.len() == 0
    } else {
        1 <= msgs.len() <= 2 && is_update_of(msgs[0], content) && is_trigger_for(
            trigger_spans(content),
            if msgs.len() == 2 { Some(msgs[1]) } else { None },
        )
    }
}

/// The polling loop's own state: the fingerprint of the last content it reported.
pub struct Monitor {
    pub last_hash: Option<String>,
}

impl Monitor {
    pub fn new() -> (r: Monitor)
        ensures
            r.last_hash is None,
    {
        Monitor { last_hash: None }
    }

    /// One active cycle, given the text just read from the clipboard: the
    /// messages to emit, in order. The content's fingerprint becomes the last one.
    pub fn observe(&mut self, content: String) -> (r: Vec<OutputMessage>)
        ensures
            opt_view(final(self).last_hash) == Some(fingerprint_of(content@)),
            is_cycle_output(content@, opt_view(old(self).last_hash), r@),
    {
        let (update_msg, trigger_msg, new_hash) = process_clipboard_content(content, &self.last_hash);
        let mut out: Vec<OutputMessage> = Vec::new();
        match update_msg {
            Some(m) => out.push(m),
            None => {},
        }
        match trigger_msg {
            Some(m) => out.push(m),
            None => {},
        }
        self.last_hash = Some(new_hash);
        out
    }
}

/// The last fingerprint after one cycle, and whether that cycle reported an
/// update; a paused cycle reads nothing.
pub open spec fn cycle_spec(active: bool, last: Option<Seq<char>>, clip: Seq<char>) -> (Option<Seq<char>>, bool) {
    if !active {
        (last, false)
    } else {
        (Some(fingerprint_of(clip)), is_change(fingerprint_of(clip), last))
    }
}

/// The last fingerprint after a run of cycles, all in the same mode, over the
/// successive clipboard contents `clips`.
pub open spec fn after_cycles(active: bool, last: Option<Seq<char>>, clips: Seq<Seq<char>>) -> Option<Seq<char>>
    decreases clips.len(),
{
    if clips.len() == 0 {
        last
    } else {
        cycle_spec(active, after_cycles(active, last, clips.drop_last()), clips.last()).0
    }
}

/// An active cycle's outcome agrees with the messages that `Monitor::observe`
/// emits: it reports an update exactly when the messages hold one.
pub proof fn lemma_cycle_matches_observe(content: Seq<char>, last: Option<Seq<char>>, msgs: Seq<OutputMessage>)
    requires
        is_cycle_output(content, last, msgs),
    ensures
        cycle_spec(true, last, content).1 == (msgs.len() > 0 && is_update_of(msgs[0], content)),
{
}

/// Newly observed content yields exactly one update message, which carries
/// the content and its size in bytes.
pub proof fn lemma_one_update_per_change(content: Seq<char>, last: Option<Seq<char>>, msgs: Seq<OutputMessage>)
    requires
        is_cycle_output(content, last, msgs),
        is_change(fingerprint_of(content), last),
    ensures
        is_update_of(msgs[0], content),
        forall|i: int| 1 <= i < msgs.len() ==> !(#[trigger] msgs[i] is ClipboardUpdate),
{
}

/// While paused, no cycle reports an update and the last fingerprint stays as
/// it was; the first cycle after a resume compares only the content it then
/// reads against the fingerprint reported before the pause.
pub proof fn lemma_pause_then_resume(last: Option<Seq<char>>, missed: Seq<Seq<char>>, current: Seq<char>)
    ensures
        forall|i: int|
            0 <= i < missed.len() ==> !(#[trigger] cycle_spec(
                false,
                after_cycles(false, last, missed.subrange(0, i)),
                missed[i],
            )).1,
        after_cycles(false, last, missed) == last,
        cycle_spec(true, after_cycles(false, last, missed), current) == (
            Some(fingerprint_of(current)),
            is_change(fingerprint_of(current), last),
        ),
    decreases missed.len(),
{
    if missed.len() > 0 {
        lemma_pause_then_resume(last, missed.drop_last(), current);
    }
}

} // verus!
