//! The chat reply: the markup that was sent, fenced as XML, and the audio as
//! a named attachment, byte for byte.

use vstd::prelude::*;
use vstd::string::*;
use crate::bridge::RpcError;

verus! {

/// A named file carried by a reply.
#[derive(Clone, Debug)]
pub struct Attachment {
    pub filename: String,
    pub bytes: Vec<u8>,
}

/// A reply to the invoking message, with one attachment.
#[derive(Clone, Debug)]
pub struct ChatReply {
    pub content: String,
    pub attachment: Attachment,
    /// Whether the reply answers the invoking message.
    pub reply: bool,
}

/// The mathematical value of a reply.
pub struct ReplyModel {
    pub content: Seq<char>,
    pub filename: Seq<char>,
    pub bytes: Seq<u8>,
    pub reply: bool,
}

impl View for ChatReply {
    type V = ReplyModel;

    open spec fn view(&self) -> ReplyModel {
        ReplyModel {
            content: self.content@,
            filename: self.attachment.filename@,
            bytes: self.attachment.bytes@,
            reply: self.reply,
        }
    }
}

/// The fixed name of the audio attachment.
pub open spec fn attachment_name() -> Seq<char> {
    seq!['s', 'p', 'o', 't', 'i', 'f', 'y', '_', 'd', 'j', '.', 'm', 'p', '3']
}

/// The text before the fenced markup.
pub open spec fn content_head() -> Seq<char> {
    seq!['S', 'e', 'n', 'd', 'i', 'n', 'g', ' ', 't', 'h', 'e', ' ', 'f', 'o', 'l', 'l', 'o', 'w',
        'i', 'n', 'g', ' ', 'S', 'S', 'M', 'L', ':', ' ', '`', '`', '`', 'x', 'm', 'l', '\n']
}

/// The text after the fenced markup.
pub open spec fn content_tail() -> Seq<char> {
    seq!['\n', '`', '`', '`']
}

/// The reply text for a prompt: the prompt verbatim in an XML code block.
pub open spec fn content_of(prompt: Seq<char>) -> Seq<char> {
    content_head() + prompt + content_tail()
}

/// The reply that `assemble` makes.
pub open spec fn reply_of(prompt: Seq<char>, audio: Seq<u8>) -> ReplyModel {
    ReplyModel {
        content: content_of(prompt),
        filename: attachment_name(),
        bytes: audio,
        reply: true,
    }
}

/// `part` occurs in `whole` at some position.
pub open spec fn contains(whole: Seq<char>, part: Seq<char>) -> bool {
    exists|i: int|
        0 <= i <= whole.len() - part.len() && #[trigger] whole.subrange(i, i + part.len()) == part
}

/// Composes the reply for the markup that was sent and the audio received.
/// Any bytes are attached as they are.
pub fn assemble(prompt: &str, audio: Vec<u8>) -> (r: ChatReply)
    ensures
        r@ == reply_of(prompt@, audio@),
{
    let mut content = String::from_str("Sending the following SSML: ```xml\n");
    content.append(prompt);
    content.append("\n```");
    let filename = String::from_str("spotify_dj.mp3");
    proof {
        reveal_strlit("Sending the following SSML: ```xml\n");
        reveal_strlit("\n```");
        reveal_strlit("spotify_dj.mp3");
        assert(content@ =~= content_of(prompt@));
        assert(filename@ =~= attachment_name());
    }
    ChatReply { content, attachment: Attachment { filename, bytes: audio }, reply: true }
}

/// The answer to one invocation: a reply for the call's audio, or the call's
/// error passed on unchanged, with no reply made.
pub fn respond(prompt: &str, outcome: Result<Vec<u8>, RpcError>) -> (r: Result<ChatReply, RpcError>)
    ensures
        outcome is Ok <==> r is Ok,
        outcome is Ok ==> r->Ok_0@ == reply_of(prompt@, outcome->Ok_0@),
        outcome is Err ==> r == Err::<ChatReply, RpcError>(outcome->Err_0),
{
    match outcome {
        Ok(audio) => Ok(assemble(prompt, audio)),
        Err(e) => Err(e),
    }
}

/// The reply keeps the audio byte for byte and holds the prompt verbatim;
/// the same inputs always give the same reply.
pub proof fn lemma_assemble_lossless(prompt: Seq<char>, audio: Seq<u8>)
    ensures
        reply_of(prompt, audio).bytes == audio,
        contains(reply_of(prompt, audio).content, prompt),
        reply_of(prompt, audio) == reply_of(prompt, audio),
{
    let c = content_of(prompt);
    let i = content_head().len() as int;
    assert(c.subrange(i, i + prompt.len()) =~= prompt);
}

} // verus!
