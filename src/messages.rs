//! Flash messages and the summary shown when they are read.

use vstd::prelude::*;
use vstd::string::StringExecFns;

verus! {

/// How important a flash message is.
#[derive(Clone, Copy, PartialEq, Eq, Structural)]
pub enum MessageLevel {
    Debug,
    Info,
    Success,
    Warning,
    Error,
}

/// The name under which a level is shown.
pub open spec fn level_name(l: MessageLevel) -> Seq<char> {
    match l {
        MessageLevel::Debug => "Debug"@,
        MessageLevel::Info => "Info"@,
        MessageLevel::Success => "Success"@,
        MessageLevel::Warning => "Warning"@,
        MessageLevel::Error => "Error"@,
    }
}

impl MessageLevel {
    /// The name under which this level is shown.
    pub fn name(&self) -> (r: &'static str)
        ensures
            r@ == level_name(*self),
    {
        match self {
            MessageLevel::Debug => "Debug",
            MessageLevel::Info => "Info",
            MessageLevel::Success => "Success",
            MessageLevel::Warning => "Warning",
            MessageLevel::Error => "Error",
        }
    }
}

/// A message stored for the next request of the same session.
pub struct FlashMessage {
    pub level: MessageLevel,
    pub text: String,
}

/// One message as shown: its level's name, a colon and a space, its text.
pub open spec fn message_line(m: FlashMessage) -> Seq<char> {
    level_name(m.level) + seq![':', ' '] + m.text@
}

/// The lines of all messages, in order, separated by a comma and a space.
pub open spec fn joined_lines(ms: Seq<FlashMessage>) -> Seq<char>
    decreases ms.len(),
{
    if ms.len() == 0 {
        Seq::empty()
    } else if ms.len() == 1 {
        message_line(ms[0])
    } else {
        joined_lines(ms.drop_last()) + seq![',', ' '] + message_line(ms.last())
    }
}

/// What a reader of the messages sees: their joined lines, or a notice when
/// there is nothing to show.
pub open spec fn messages_summary(ms: Seq<FlashMessage>) -> Seq<char> {
    if joined_lines(ms).len() == 0 {
        "No messages yet!"@
    } else {
        joined_lines(ms)
    }
}

/// Shows the pending messages of a session on one line.
pub fn summarize_messages(messages: &Vec<FlashMessage>) -> (r: String)
    ensures
        r@ == messages_summary(messages@),
{
    let mut joined = String::new();
    let mut i: usize = 0;
    while i < messages.len()
        invariant
            i <= messages@.len(),
            joined@ == joined_lines(messages@.subrange(0, i as int)),
        decreases messages@.len() - i,
    {
        let m = &messages[i];
        if i > 0 {
            joined.append(", ");
        }
        joined.append(m.level.name());
        joined.append(": ");
        joined.append(m.text.as_str());
        proof {
            reveal_strlit(", ");
            reveal_strlit(": ");
            let next = messages@.subrange(0, i + 1);
            assert(next.drop_last() =~= messages@.subrange(0, i as int));
            assert(next.last() == *m);
        }
        assert(joined@ =~= joined_lines(messages@.subrange(0, i + 1)));
        i = i + 1;
    }
    assert(messages@.subrange(0, messages@.len() as int) =~= messages@);
    if joined.as_str().is_empty() {
        String::from_str("No messages yet!")
    } else {
        joined
    }
}

} // verus!
