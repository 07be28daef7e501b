//! The wire protocol: messages to the host, one JSON object per line, and
//! the commands the host sends back.
use vstd::prelude::*;

verus! {

/// Messages sent to the supervising host.
#[derive(Debug, PartialEq)]
pub enum OutputMessage {
    /// New clipboard content, with the time it was seen and its size in bytes.
    ClipboardUpdate { content: String, timestamp: String, length: usize },
    /// Embedded command markup found in new clipboard content, in order of appearance.
    TriggerXml { xml_payloads: Vec<String> },
    /// A fatal condition, reported before the process stops.
    Error { message: String },
    /// The first message of the process, sent once the clipboard is reachable.
    Ready,
}

/// Commands sent by the host.
#[derive(Debug, Clone, Copy, PartialEq, Eq, Structural)]
pub enum InputCommand {
    /// Stop polling the clipboard.
    Pause,
    /// Start polling the clipboard again.
    Resume,
}

/// The JSON string literal (quotes and escapes included) that encodes a text.
pub uninterp spec fn json_string_of(text: Seq<char>) -> Seq<char>;

/// The text of the string member `key` of the JSON object that `text` holds,
/// if `text` parses as JSON and has such a member.
pub uninterp spec fn json_str_member_of(text: Seq<char>, key: Seq<char>) -> Option<Seq<char>>;

/// Relies on serde_json::to_string on a `str`: it writes the escaped string
/// literal into a `Vec`, a writer that never fails, so the result is always `Ok`.
#[verifier::external_body]
fn json_quote(text: &str) -> (r: Option<String>)
    ensures
        r.is_some(),
        r.is_some() ==> r.unwrap()@ == json_string_of(text@),
{
    serde_json::to_string(text).ok()
}

/// Relies on serde_json::from_str into a `serde_json::Value`, then
/// `Value::get` and `Value::as_str`: the string member `key` of the parsed object.
#[verifier::external_body]
fn json_str_member(text: &str, key: &str) -> (r: Option<String>)
    ensures
        match r {
            Some(v) => json_str_member_of(text@, key@) == Some(v@),
            None => json_str_member_of(text@, key@) is None,
        },
{
    serde_json::from_str::<serde_json::Value>(text).ok().and_then(
        |v| v.get(key).and_then(|m| m.as_str()).map(|m| m.to_string()),
    )
}

pub open spec fn decimal_digit(d: nat) -> char {
    "0123456789"@[d as int]
}

/// The decimal form of a natural number, without leading zeros.
pub open spec fn decimal_of(n: nat) -> Seq<char>
    decreases n,
{
    if n < 10 {
        seq![decimal_digit(n)]
    } else {
        decimal_of(n / 10) + seq![decimal_digit(n % 10)]
    }
}

/// The payloads as JSON strings, separated by commas.
pub open spec fn json_list_items(items: Seq<Seq<char>>) -> Seq<char>
    decreases items.len(),
{
    if items.len() == 0 {
        seq![]
    } else if items.len() == 1 {
        json_string_of(items[0])
    } else {
        json_list_items(items.drop_last()) + seq![','] + json_string_of(items.last())
    }
}

pub open spec fn views(v: Seq<String>) -> Seq<Seq<char>> {
    v.map_values(|s: String| s@)
}

/// The one-line JSON object that encodes a message: its `type` tag first,
/// then its fields in declaration order.
pub open spec fn wire_of(m: OutputMessage) -> Seq<char> {
    match m {
        OutputMessage::ClipboardUpdate { content, timestamp, length } =>
            "{\"type\":\"clipboard_update\",\"content\":"@ + json_string_of(content@)
                + ",\"timestamp\":"@ + json_string_of(timestamp@) + ",\"length\":"@
                + decimal_of(length as nat) + "}"@,
        OutputMessage::TriggerXml { xml_payloads } =>
            "{\"type\":\"trigger_xml\",\"xml_payloads\":["@ + json_list_items(views(xml_payloads@))
                + "]}"@,
        OutputMessage::Error { message } =>
            "{\"type\":\"error\",\"message\":"@ + json_string_of(message@) + "}"@,
        OutputMessage::Ready => "{\"type\":\"ready\"}"@,
    }
}

/// The command that a `command` tag names.
pub open spec fn command_of_tag(tag: Seq<char>) -> Option<InputCommand> {
    if tag == "pause"@ {
        Some(InputCommand::Pause)
    } else if tag == "resume"@ {
        Some(InputCommand::Resume)
    } else {
        None
    }
}

/// The command that an inbound line holds, if it decodes as one.
pub open spec fn command_of_line(line: Seq<char>) -> Option<InputCommand> {
    match json_str_member_of(line, "command"@) {
        Some(tag) => command_of_tag(tag),
        None => None,
    }
}

/// Renders `n` in decimal.
pub fn to_decimal(n: usize) -> (r: String)
    ensures
        r@ == decimal_of(n as nat),
    decreases n,
{
    let digits = "0123456789";
    proof {
        reveal_strlit("0123456789");
    }
    let d = n % 10;
    let last = digits.substring_char(d, d + 1);
    assert(last@ =~= seq![decimal_digit(d as nat)]);
    if n < 10 {
        last.to_owned()
    } else {
        let mut r = to_decimal(n / 10);
        r.append(last);
        r
    }
}

fn quote(text: &String) -> (r: String)
    ensures
        r@ == json_string_of(text@),
{
    match json_quote(text.as_str()) {
        Some(q) => q,
        None => String::new(),
    }
}

/// Appends the payloads to `out` as a comma-separated list of JSON strings.
fn push_list_items(out: &mut String, items: &Vec<String>)
    ensures
        final(out)@ == old(out)@ + json_list_items(views(items@)),
{
    let ghost start = out@;
    let mut i: usize = 0;
    while i < items.len()
        invariant
            i <= items@.len(),
            out@ == start + json_list_items(views(items@.subrange(0, i as int))),
        decreases items@.len() - i,
    {
        let ghost before = items@.subrange(0, i as int);
        let ghost after = items@.subrange(0, i as int + 1);
        assert(views(after).drop_last() =~= views(before));
        assert(views(after).last() == items@[i as int]@);
        if i > 0 {
            out.append(",");
            proof {
                reveal_strlit(",");
            }
        } else {
            assert(views(before) =~= Seq::<Seq<char>>::empty());
        }
        let q = quote(&items[i]);
        out.append(q.as_str());
        i += 1;
    }
    assert(items@.subrange(0, items@.len() as int) =~= items@);
}

impl OutputMessage {
    /// The message's wire form: one JSON object, without the line terminator.
    pub fn to_json(&self) -> (r: String)
        ensures
            r@ == wire_of(*self),
    {
        match self {
            OutputMessage::ClipboardUpdate { content, timestamp, length } => {
                let mut out = String::from_str("{\"type\":\"clipboard_update\",\"content\":");
                out.append(quote(content).as_str());
                out.append(",\"timestamp\":");
                out.append(quote(timestamp).as_str());
                out.append(",\"length\":");
                out.append(to_decimal(*length).as_str());
                out.append("}");
                out
            },
            OutputMessage::TriggerXml { xml_payloads } => {
                let mut out = String::from_str("{\"type\":\"trigger_xml\",\"xml_payloads\":[");
                push_list_items(&mut out, xml_payloads);
                out.append("]}");
                out
            },
            OutputMessage::Error { message } => {
                let mut out = String::from_str("{\"type\":\"error\",\"message\":");
                out.append(quote(message).as_str());
                out.append("}");
                out
            },
            OutputMessage::Ready => String::from_str("{\"type\":\"ready\"}"),
        }
    }

    /// The message's line on the output stream: its JSON object and one line terminator.
    pub fn to_line(&self) -> (r: String)
        ensures
            r@ == wire_of(*self) + seq!['\n'],
    {
        let mut out = self.to_json();
        out.append("\n");
        proof {
            reveal_strlit("\n");
        }
        out
    }
}

impl InputCommand {
    /// The command named by a `command` tag: `pause` or `resume`.
    pub fn from_tag(tag: &str) -> (r: Option<InputCommand>)
        ensures
            r == command_of_tag(tag@),
    {
        let t = String::from_str(tag);
        if t.eq(&String::from_str("pause")) {
            Some(InputCommand::Pause)
        } else if t.eq(&String::from_str("resume")) {
            Some(InputCommand::Resume)
        } else {
            None
        }
    }

    /// Decodes one inbound line, a JSON object whose `command` member names the command.
    pub fn parse_line(line: &str) -> (r: Option<InputCommand>)
        ensures
            r == command_of_line(line@),
    {
        match json_str_member(line, "command") {
            Some(tag) => InputCommand::from_tag(tag.as_str()),
            None => None,
        }
    }
}

} // verus!
