use vstd::prelude::*;
use crate::config::Config;
use crate::prompt::{compose_prompt, prompt_of, trimmed};
use crate::status::{status_line, status_message};

verus! {

/// The identifier under which the completion provider keeps one conversation:
/// the workspace, a hyphen, then the channel.
pub open spec fn conversation_id_of(workspace: Seq<char>, channel: Seq<char>) -> Seq<char> {
    workspace + seq!['-'] + channel
}

/// Derives the conversation identifier for a workspace and channel.
pub fn conversation_id(workspace: &str, channel: &str) -> (r: String)
    ensures
        r@ == conversation_id_of(workspace@, channel@),
{
    let mut r = String::from_str(workspace);
    r.append("-");
    r.append(channel);
    proof {
        reveal_strlit("-");
    }
    r
}

/// Where no workspace name holds a hyphen, distinct workspace and channel
/// pairs give distinct conversation identifiers: the first hyphen of an
/// identifier marks where the workspace ends. A hyphen inside a workspace name
/// can make two pairs collide ("a-b" with "c" and "a" with "b-c").
pub proof fn lemma_conversation_id_injective(
    workspace1: Seq<char>,
    channel1: Seq<char>,
    workspace2: Seq<char>,
    channel2: Seq<char>,
)
    requires
        !workspace1.contains('-'),
        !workspace2.contains('-'),
        conversation_id_of(workspace1, channel1) == conversation_id_of(workspace2, channel2),
    ensures
        workspace1 == workspace2,
        channel1 == channel2,
{
    let id1 = conversation_id_of(workspace1, channel1);
    let id2 = conversation_id_of(workspace2, channel2);
    if workspace1.len() < workspace2.len() {
        assert(id1[workspace1.len() as int] == '-');
        assert(id2[workspace1.len() as int] == workspace2[workspace1.len() as int]);
        assert(workspace2.contains(workspace2[workspace1.len() as int]));
    } else if workspace2.len() < workspace1.len() {
        assert(id2[workspace2.len() as int] == '-');
        assert(id1[workspace2.len() as int] == workspace1[workspace2.len() as int]);
        assert(workspace1.contains(workspace1[workspace2.len() as int]));
    }
    let n = workspace1.len() as int;
    assert(workspace1 =~= id1.subrange(0, n));
    assert(workspace2 =~= id2.subrange(0, n));
    assert(channel1 =~= id1.subrange(n + 1, id1.len() as int));
    assert(channel2 =~= id2.subrange(n + 1, id2.len() as int));
}

/// The system instruction sent with every prompt.
pub open spec fn system_prompt_text() -> Seq<char> {
    "You are a helpful assistant inside Slack."@
}

/// The reply posted when the completion provider fails, whatever the failure.
pub open spec fn apology() -> Seq<char> {
    "⚠️ Sorry, I couldn't process that request."@
}

/// The context block from the outcome of a load: the text read, or the empty
/// text when nothing could be read.
pub open spec fn context_of(read: Option<String>) -> Seq<char> {
    match read {
        Some(text) => text@,
        None => Seq::empty(),
    }
}

/// Turns the outcome of a context load into a context block. A load that
/// failed gives the empty block, never an error.
pub fn context_or_empty(read: Option<String>) -> (r: String)
    ensures
        r@ == context_of(read),
{
    match read {
        Some(text) => text,
        None => String::new(),
    }
}

/// What the completion provider answered: its first choice, or a failure
/// whose detail is for the log only.
pub enum CompletionOutcome {
    Success(String),
    Failure(String),
}

/// The text posted to the channel for a completion outcome.
pub open spec fn reply_of(outcome: CompletionOutcome) -> Seq<char> {
    match outcome {
        CompletionOutcome::Success(choice) => choice@,
        CompletionOutcome::Failure(_) => apology(),
    }
}

/// The reply to post: the provider's choice verbatim on success, the fixed
/// apology on failure.
pub fn reply_text(outcome: CompletionOutcome) -> (r: String)
    ensures
        r@ == reply_of(outcome),
{
    match outcome {
        CompletionOutcome::Success(choice) => choice,
        CompletionOutcome::Failure(_) => String::from_str("⚠️ Sorry, I couldn't process that request."),
    }
}

/// Every failure of the provider gives the same reply, the fixed apology:
/// nothing of the failure's detail reaches the channel.
pub proof fn lemma_failure_reply(detail1: String, detail2: String)
    ensures
        reply_of(CompletionOutcome::Failure(detail1)) == apology(),
        reply_of(CompletionOutcome::Failure(detail1)) == reply_of(CompletionOutcome::Failure(detail2)),
{
}

/// Everything a handler invocation sends out before the provider answers.
pub struct PreparedRequest {
    /// The key under which the provider keeps the conversation.
    pub conversation_id: String,
    /// The user turn: the composed prompt.
    pub prompt: String,
    /// The fixed system instruction.
    pub system_prompt: String,
    /// The status line on the context load, posted before the reply when
    /// diagnostics are on.
    pub status: Option<String>,
}

/// Prepares the completion request for one incoming message, given the
/// context block loaded for it.
pub fn prepare_request(config: &Config, user_text: &str, context: &str) -> (r: PreparedRequest)
    ensures
        r.conversation_id@ == conversation_id_of(config.workspace@, config.channel@),
        r.prompt@ == prompt_of(context@, user_text@),
        r.system_prompt@ == system_prompt_text(),
        match r.status {
            Some(line) => config.diagnostics && line@ == status_line(
                trimmed(context@),
                context.len() as nat,
                config.context_path@,
            ),
            None => !config.diagnostics,
        },
{
    let conversation_id = conversation_id(config.workspace.as_str(), config.channel.as_str());
    let status = if config.diagnostics {
        Some(status_message(context, config.context_path.as_str()))
    } else {
        None
    };
    PreparedRequest {
        conversation_id,
        prompt: compose_prompt(context, user_text),
        system_prompt: String::from_str("You are a helpful assistant inside Slack."),
        status,
    }
}

} // verus!
