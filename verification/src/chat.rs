//! Conversations and prompt assembly: the messages of an inference request,
//! the flattening of message content to plain text, and the final prompt
//! handed to the engine, including the marker that suppresses the engine's
//! internal reasoning phase when think mode is off.

use vstd::prelude::*;
use vstd::string::*;

verus! {

/// The speaker of a conversation message.
#[derive(Debug, Clone, Copy, PartialEq, Eq, Structural)]
pub enum Role {
    System,
    User,
    Assistant,
    Tool,
}

/// The content of a conversation message: plain text, or an ordered
/// sequence of text fragments.
#[derive(Debug)]
pub enum Content {
    Text(String),
    Array(Vec<String>),
}

/// One message of a conversation, provided per request and never mutated.
#[derive(Debug)]
pub struct ConversationMessage {
    pub role: Role,
    pub content: Option<Content>,
}

/// An inference request: an ordered conversation addressed to a model name.
#[derive(Debug)]
pub struct InferenceRequest {
    pub model: String,
    pub messages: Vec<ConversationMessage>,
}

/// A (role, text) pair ready to be run through a chat template.
#[derive(Debug)]
pub struct PromptPiece {
    pub role: String,
    pub content: String,
}

/// The tag a role is rendered as in a chat template.
pub open spec fn spec_role_name(r: Role) -> Seq<char> {
    match r {
        Role::System => "system"@,
        Role::User => "user"@,
        Role::Assistant => "assistant"@,
        Role::Tool => "tool"@,
    }
}

/// Renders a role as its template tag.
pub fn role_name(r: &Role) -> (s: &'static str)
    ensures
        s@ == spec_role_name(*r),
{
    match r {
        Role::System => "system",
        Role::User => "user",
        Role::Assistant => "assistant",
        Role::Tool => "tool",
    }
}

/// The text fragments of a sequence, concatenated in order.
pub open spec fn spec_flatten_parts(parts: Seq<String>) -> Seq<char>
    decreases parts.len(),
{
    if parts.len() == 0 {
        Seq::<char>::empty()
    } else {
        spec_flatten_parts(parts.drop_last()) + parts.last()@
    }
}

/// The plain text a message content flattens to: text as it is, a fragment
/// sequence joined in order, and absent content as the empty string.
pub open spec fn spec_content_text(c: Option<Content>) -> Seq<char> {
    match c {
        Some(Content::Text(s)) => s@,
        Some(Content::Array(parts)) => spec_flatten_parts(parts@),
        None => Seq::<char>::empty(),
    }
}

/// Flattens a message content to plain text.
pub fn content_text(c: &Option<Content>) -> (r: String)
    ensures
        r@ == spec_content_text(*c),
{
    match c {
        Some(Content::Text(s)) => s.clone(),
        Some(Content::Array(parts)) => {
            let mut r = String::new();
            let mut i: usize = 0;
            while i < parts.len()
                invariant
                    i <= parts@.len(),
                    r@ == spec_flatten_parts(parts@.take(i as int)),
                decreases parts@.len() - i,
            {
                r.append(parts[i].as_str());
                proof {
                    let cur = parts@.take(i + 1);
                    assert(cur.drop_last() =~= parts@.take(i as int));
                    assert(cur.last() == parts@[i as int]);
                }
                i = i + 1;
            }
            assert(parts@.take(parts@.len() as int) =~= parts@);
            r
        },
        None => String::new(),
    }
}

/// The (role, text) pairs a request's messages flatten to, in order.
pub fn prompt_pieces(req: &InferenceRequest) -> (r: Vec<PromptPiece>)
    ensures
        r@.len() == req.messages@.len(),
        forall|i: int| 0 <= i < r@.len() ==> {
            &&& (#[trigger] r@[i]).role@ == spec_role_name(req.messages@[i].role)
            &&& r@[i].content@ == spec_content_text(req.messages@[i].content)
        },
{
    let mut r: Vec<PromptPiece> = Vec::new();
    let mut i: usize = 0;
    while i < req.messages.len()
        invariant
            i <= req.messages@.len(),
            r@.len() == i,
            forall|j: int| 0 <= j < i ==> {
                &&& (#[trigger] r@[j]).role@ == spec_role_name(req.messages@[j].role)
                &&& r@[j].content@ == spec_content_text(req.messages@[j].content)
            },
        decreases req.messages@.len() - i,
    {
        let m = &req.messages[i];
        r.push(PromptPiece {
            role: role_name(&m.role).to_owned(),
            content: content_text(&m.content),
        });
        i = i + 1;
    }
    r
}

/// The marker appended to a prompt to tell the engine to skip its internal
/// reasoning phase.
pub open spec fn spec_stop_think_marker() -> Seq<char> {
    "\n\n</think>\n\n"@
}

/// The prompt submitted to the engine for a given template outcome: the
/// templated text when template application succeeded, the empty prompt when
/// it failed (a known degraded behaviour: the request is still dispatched
/// rather than aborted), with the stop-thinking marker appended whenever
/// think mode is off.
pub open spec fn spec_prompt(template: Result<String, ()>, think: bool) -> Seq<char> {
    let base = match template {
        Ok(s) => s@,
        Err(_) => Seq::<char>::empty(),
    };
    if think {
        base
    } else {
        base + spec_stop_think_marker()
    }
}

/// Builds the final engine prompt from a chat-template outcome and the
/// worker's think switch.
pub fn finish_prompt(template: Result<String, ()>, think: bool) -> (r: String)
    ensures
        r@ == spec_prompt(template, think),
{
    let mut base = match template {
        Ok(s) => s,
        Err(_) => String::new(),
    };
    if !think {
        base.append("\n\n</think>\n\n");
    }
    base
}

} // verus!
