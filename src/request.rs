//! The synthesis request: a fixed codec, provider, voice and sample rate, and
//! the user's text wrapped verbatim in a speech-markup envelope.

use vstd::prelude::*;
use vstd::string::*;

verus! {

/// The codecs the remote service knows; this version asks for MP3 only.
#[derive(Clone, Copy, Debug, PartialEq, Eq, Structural)]
pub enum AudioFormat {
    Mp3,
}

/// The synthesis providers known to work with the endpoint.
#[derive(Clone, Copy, Debug, PartialEq, Eq, Structural)]
pub enum TtsProvider {
    Sonantic,
}

/// The voices known to exist at the endpoint.
#[derive(Clone, Copy, Debug, PartialEq, Eq, Structural)]
pub enum TtsVoice {
    Voice1,
}

/// The prompt of a request: exactly one variant is set.
#[derive(Clone, Debug)]
pub enum Prompt {
    Text(String),
    Ssml(String),
}

/// The mathematical value of a prompt.
pub enum PromptModel {
    Text(Seq<char>),
    Ssml(Seq<char>),
}

impl View for Prompt {
    type V = PromptModel;

    open spec fn view(&self) -> PromptModel {
        match self {
            Prompt::Text(s) => PromptModel::Text(s@),
            Prompt::Ssml(s) => PromptModel::Ssml(s@),
        }
    }
}

/// The prompt's text, whichever variant holds it.
pub open spec fn prompt_text(p: PromptModel) -> Seq<char> {
    match p {
        PromptModel::Text(s) => s,
        PromptModel::Ssml(s) => s,
    }
}

/// A text-to-speech job, as sent to the remote service.
#[derive(Clone, Debug)]
pub struct SynthesisRequest {
    pub audio_format: AudioFormat,
    pub tts_provider: TtsProvider,
    pub tts_voice: TtsVoice,
    pub sample_rate_hz: i32,
    pub prompt: Prompt,
}

/// The mathematical value of a request.
pub struct RequestModel {
    pub audio_format: AudioFormat,
    pub tts_provider: TtsProvider,
    pub tts_voice: TtsVoice,
    pub sample_rate_hz: int,
    pub prompt: PromptModel,
}

impl View for SynthesisRequest {
    type V = RequestModel;

    open spec fn view(&self) -> RequestModel {
        RequestModel {
            audio_format: self.audio_format,
            tts_provider: self.tts_provider,
            tts_voice: self.tts_voice,
            sample_rate_hz: self.sample_rate_hz as int,
            prompt: self.prompt@,
        }
    }
}

/// The sample rate the official client asks for.
pub const SAMPLE_RATE_HZ: i32 = 44100;

/// The opening tag of the envelope: a root element with a fixed language.
pub open spec fn envelope_open() -> Seq<char> {
    seq![
        '<', 's', 'p', 'e', 'a', 'k', ' ', 'x', 'm', 'l', ':', 'l', 'a', 'n', 'g', '=', '"', 'e',
        'n', '-', 'U', 'S', '"', '>',
    ]
}

/// The closing tag of the envelope.
pub open spec fn envelope_close() -> Seq<char> {
    seq!['<', '/', 's', 'p', 'e', 'a', 'k', '>']
}

/// The text wrapped in the envelope, with no escaping.
pub open spec fn envelope(text: Seq<char>) -> Seq<char> {
    envelope_open() + text + envelope_close()
}

/// The request that `build` makes of a text.
pub open spec fn request_of(text: Seq<char>) -> RequestModel {
    RequestModel {
        audio_format: AudioFormat::Mp3,
        tts_provider: TtsProvider::Sonantic,
        tts_voice: TtsVoice::Voice1,
        sample_rate_hz: SAMPLE_RATE_HZ as int,
        prompt: PromptModel::Ssml(envelope(text)),
    }
}

impl SynthesisRequest {
    /// The prompt's text, whichever variant holds it.
    pub fn prompt_text(&self) -> (r: &str)
        ensures
            r@ == prompt_text(self@.prompt),
    {
        match &self.prompt {
            Prompt::Text(s) => s.as_str(),
            Prompt::Ssml(s) => s.as_str(),
        }
    }
}

/// Wraps `message` in the speech-markup envelope, verbatim.
pub fn format_prompt(message: &str) -> (r: String)
    ensures
        r@ == envelope(message@),
{
    let mut r = String::from_str("<speak xml:lang=\"en-US\">");
    r.append(message);
    r.append("</speak>");
    proof {
        reveal_strlit("<speak xml:lang=\"en-US\">");
        reveal_strlit("</speak>");
        assert(r@ =~= envelope(message@));
    }
    r
}

/// Builds the synthesis request for `message`; any text is accepted.
pub fn build(message: &str) -> (r: SynthesisRequest)
    ensures
        r@ == request_of(message@),
{
    SynthesisRequest {
        audio_format: AudioFormat::Mp3,
        tts_provider: TtsProvider::Sonantic,
        tts_voice: TtsVoice::Voice1,
        sample_rate_hz: SAMPLE_RATE_HZ,
        prompt: Prompt::Ssml(format_prompt(message)),
    }
}

/// Every text is wrapped unmodified in the fixed-language envelope, and the
/// codec, provider, voice and sample rate are the same for every text.
pub proof fn lemma_build_wraps_verbatim(a: Seq<char>, b: Seq<char>)
    ensures
        request_of(a).prompt == PromptModel::Ssml(envelope_open() + a + envelope_close()),
        envelope(a).subrange(envelope_open().len() as int, (envelope_open().len() + a.len()) as int)
            == a,
        request_of(a).audio_format == request_of(b).audio_format,
        request_of(a).tts_provider == request_of(b).tts_provider,
        request_of(a).tts_voice == request_of(b).tts_voice,
        request_of(a).sample_rate_hz == request_of(b).sample_rate_hz,
{
    let n = envelope_open().len() as int;
    assert(envelope(a).subrange(n, n + a.len()) =~= a);
}

} // verus!
