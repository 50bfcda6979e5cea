//! Role-tagged messages and the transcript an agent accumulates.

use vstd::prelude::*;

verus! {

/// Who a message of the transcript comes from.
#[derive(Clone, Copy, Debug, PartialEq, Eq, Structural)]
pub enum Role {
    System,
    User,
    Assistant,
    ToolResult,
}

/// One turn of the transcript.
#[derive(Debug, PartialEq, Eq)]
pub struct Message {
    pub role: Role,
    /// The speaker: the agent's name, the user's label, or the tool's name.
    pub name: String,
    pub content: String,
}

/// The mathematical value of a [`Message`].
pub struct MessageView {
    pub role: Role,
    pub name: Seq<char>,
    pub content: Seq<char>,
}

impl View for Message {
    type V = MessageView;

    open spec fn view(&self) -> MessageView {
        MessageView { role: self.role, name: self.name@, content: self.content@ }
    }
}

impl Clone for Message {
    fn clone(&self) -> (out: Message)
        ensures
            out@ == self@,
    {
        Message { role: self.role, name: self.name.clone(), content: self.content.clone() }
    }
}

impl Message {
    /// A message of `role`, spoken by `name`, holding `content`.
    pub fn new(role: Role, name: &str, content: &str) -> (out: Message)
        ensures
            out@ == (MessageView { role, name: name@, content: content@ }),
    {
        Message { role, name: name.to_owned(), content: content.to_owned() }
    }
}

/// The views of a sequence of messages.
pub open spec fn transcript_view(messages: Seq<Message>) -> Seq<MessageView> {
    Seq::new(messages.len(), |i: int| messages[i]@)
}

/// A copy of `messages`.
pub fn clone_transcript(messages: &Vec<Message>) -> (out: Vec<Message>)
    ensures
        transcript_view(out@) == transcript_view(messages@),
{
    let mut out: Vec<Message> = Vec::new();
    let mut i: usize = 0;
    while i < messages.len()
        invariant
            i <= messages.len(),
            out.len() == i,
            forall|j: int| 0 <= j < i ==> (#[trigger] out[j])@ == messages[j]@,
        decreases messages.len() - i,
    {
        out.push(messages[i].clone());
        i += 1;
    }
    assert(transcript_view(out@) =~= transcript_view(messages@));
    out
}

} // verus!
