//! The binary form of a synthesis request: proto3 fields in ascending field
//! number, each written by protobuf's coded output stream.

use vstd::prelude::*;
use vstd::string::StringSliceAdditionalSpecFns;
use vstd::utf8::{encode_scalar, encode_utf8, encode_utf8_decode_utf8};
use crate::request::{
    envelope, envelope_close, envelope_open, prompt_text, request_of, AudioFormat, Prompt,
    PromptModel, RequestModel, SynthesisRequest, TtsProvider, TtsVoice,
};

verus! {

#[verifier::external_type_specification]
#[verifier::external_body]
pub struct ExProtobufError(protobuf::Error);

/// The largest field number a protobuf tag can carry.
pub const FIELD_NUMBER_MAX: u32 = 0x1fff_ffff;

/// Field numbers of the request message.
pub const FIELD_TEXT: u32 = 1;
pub const FIELD_SSML: u32 = 2;
pub const FIELD_AUDIO_FORMAT: u32 = 3;
pub const FIELD_TTS_VOICE: u32 = 5;
pub const FIELD_TTS_PROVIDER: u32 = 6;
pub const FIELD_SAMPLE_RATE_HZ: u32 = 7;

/// Wire types of a protobuf key.
pub const WIRE_VARINT: u32 = 0;
pub const WIRE_LENGTH_DELIMITED: u32 = 2;

/// Base-128 encoding, least significant group first, high bit set on all
/// bytes but the last.
pub open spec fn varint(v: nat) -> Seq<u8>
    decreases v,
{
    if v < 128 {
        seq![v as u8]
    } else {
        seq![(v % 128 + 128) as u8] + varint(v / 128)
    }
}

/// The key that opens a field.
pub open spec fn field_key(field: nat, wire_type: nat) -> Seq<u8> {
    varint(field * 8 + wire_type)
}

/// A 32-bit signed value as protobuf widens it: sign-extended to 64 bits.
pub open spec fn int32_wire(v: i32) -> nat {
    if v >= 0 {
        v as nat
    } else {
        (v + 0x1_0000_0000_0000_0000) as nat
    }
}

/// An enum or int32 field.
pub open spec fn varint_field(field: nat, v: i32) -> Seq<u8> {
    field_key(field, WIRE_VARINT as nat) + varint(int32_wire(v))
}

/// A string field: key, byte length, UTF-8 bytes.
pub open spec fn string_field(field: nat, s: Seq<char>) -> Seq<u8> {
    field_key(field, WIRE_LENGTH_DELIMITED as nat) + varint(encode_utf8(s).len()) + encode_utf8(s)
}

/// The value the remote schema gives each codec.
pub open spec fn audio_format_number(f: AudioFormat) -> i32 {
    match f {
        AudioFormat::Mp3 => 5,
    }
}

/// The value the remote schema gives each provider.
pub open spec fn tts_provider_number(p: TtsProvider) -> i32 {
    match p {
        TtsProvider::Sonantic => 5,
    }
}

/// The value the remote schema gives each voice.
pub open spec fn tts_voice_number(v: TtsVoice) -> i32 {
    match v {
        TtsVoice::Voice1 => 1,
    }
}

/// The prompt as the field of its variant.
pub open spec fn prompt_bytes(p: PromptModel) -> Seq<u8> {
    match p {
        PromptModel::Text(s) => string_field(FIELD_TEXT as nat, s),
        PromptModel::Ssml(s) => string_field(FIELD_SSML as nat, s),
    }
}

/// A prompt whose byte length fits the 32-bit length prefix.
pub open spec fn prompt_fits(p: PromptModel) -> bool {
    encode_utf8(prompt_text(p)).len() <= u32::MAX
}

/// The encoded request; proto3 leaves out a zero sample rate.
pub open spec fn request_bytes(r: RequestModel) -> Seq<u8> {
    prompt_bytes(r.prompt) + varint_field(
        FIELD_AUDIO_FORMAT as nat,
        audio_format_number(r.audio_format),
    ) + varint_field(FIELD_TTS_VOICE as nat, tts_voice_number(r.tts_voice)) + varint_field(
        FIELD_TTS_PROVIDER as nat,
        tts_provider_number(r.tts_provider),
    ) + if r.sample_rate_hz == 0 {
        Seq::empty()
    } else {
        varint_field(FIELD_SAMPLE_RATE_HZ as nat, r.sample_rate_hz as i32)
    }
}

/// Why a request could not be encoded.
#[derive(Clone, Copy, Debug, PartialEq, Eq, Structural)]
pub enum EncodeError {
    /// The prompt is longer than a length prefix can state.
    TooLarge,
}

/// Relies on protobuf's `CodedOutputStream::write_enum` (with `vec` and
/// `flush`; on a vector target none of them fails): appends the key with
/// wire type varint, then the value sign-extended to 64 bits as a varint.
#[verifier::external_body]
fn put_enum(out: &mut Vec<u8>, field: u32, value: i32) -> (r: Result<(), protobuf::Error>)
    requires
        1 <= field <= FIELD_NUMBER_MAX,
    ensures
        r is Ok,
        final(out)@ == old(out)@ + varint_field(field as nat, value),
{
    let mut os = protobuf::CodedOutputStream::vec(out);
    os.write_enum(field, value)?;
    os.flush()
}

/// Relies on protobuf's `CodedOutputStream::write_int32` (with `vec` and
/// `flush`; on a vector target none of them fails): appends the key with
/// wire type varint, then the value sign-extended to 64 bits as a varint.
#[verifier::external_body]
fn put_int32(out: &mut Vec<u8>, field: u32, value: i32) -> (r: Result<(), protobuf::Error>)
    requires
        1 <= field <= FIELD_NUMBER_MAX,
    ensures
        r is Ok,
        final(out)@ == old(out)@ + varint_field(field as nat, value),
{
    let mut os = protobuf::CodedOutputStream::vec(out);
    os.write_int32(field, value)?;
    os.flush()
}

/// Relies on protobuf's `CodedOutputStream::write_string` (with `vec` and
/// `flush`; on a vector target none of them fails): appends the key with
/// wire type length-delimited, the UTF-8 byte length as a varint, then the
/// bytes. The length is cast to `u32` there, hence the bound.
#[verifier::external_body]
fn put_string(out: &mut Vec<u8>, field: u32, s: &str) -> (r: Result<(), protobuf::Error>)
    requires
        1 <= field <= FIELD_NUMBER_MAX,
        encode_utf8(s@).len() <= u32::MAX,
    ensures
        r is Ok,
        final(out)@ == old(out)@ + string_field(field as nat, s@),
{
    let mut os = protobuf::CodedOutputStream::vec(out);
    os.write_string(field, s)?;
    os.flush()
}

impl AudioFormat {
    /// The codec's value in the remote schema.
    pub fn number(&self) -> (r: i32)
        ensures
            r == audio_format_number(*self),
    {
        match self {
            AudioFormat::Mp3 => 5,
        }
    }
}

impl TtsProvider {
    /// The provider's value in the remote schema.
    pub fn number(&self) -> (r: i32)
        ensures
            r == tts_provider_number(*self),
    {
        match self {
            TtsProvider::Sonantic => 5,
        }
    }
}

impl TtsVoice {
    /// The voice's value in the remote schema.
    pub fn number(&self) -> (r: i32)
        ensures
            r == tts_voice_number(*self),
    {
        match self {
            TtsVoice::Voice1 => 1,
        }
    }
}

/// Encodes `req` in the remote service's binary schema.
pub fn encode_request(req: &SynthesisRequest) -> (r: Result<Vec<u8>, EncodeError>)
    ensures
        r is Ok <==> prompt_fits(req@.prompt),
        r is Ok ==> r->Ok_0@ == request_bytes(req@),
        r is Err ==> r->Err_0 == EncodeError::TooLarge,
{
    let field = match &req.prompt {
        Prompt::Text(_) => FIELD_TEXT,
        Prompt::Ssml(_) => FIELD_SSML,
    };
    let text = req.prompt_text();
    assert(text.spec_bytes() == encode_utf8(text@));
    if text.as_bytes().len() > u32::MAX as usize {
        return Err(EncodeError::TooLarge);
    }
    // Writing into a vector cannot fail: each writer's contract says so.
    let mut out: Vec<u8> = Vec::new();
    let _ = put_string(&mut out, field, text);
    let _ = put_enum(&mut out, FIELD_AUDIO_FORMAT, req.audio_format.number());
    let _ = put_enum(&mut out, FIELD_TTS_VOICE, req.tts_voice.number());
    let _ = put_enum(&mut out, FIELD_TTS_PROVIDER, req.tts_provider.number());
    if req.sample_rate_hz != 0 {
        let _ = put_int32(&mut out, FIELD_SAMPLE_RATE_HZ, req.sample_rate_hz);
    }
    assert(out@ =~= request_bytes(req@));
    Ok(out)
}

/// A varint ends where its value says: equal streams that open with two
/// varints open with the same one.
pub proof fn lemma_varint_prefix(x: nat, y: nat, s: Seq<u8>, t: Seq<u8>)
    requires
        varint(x) + s == varint(y) + t,
    ensures
        x == y,
        s == t,
    decreases x,
{
    let l = varint(x) + s;
    let r = varint(y) + t;
    assert(l[0] == r[0]);
    if x < 128 && y < 128 {
        assert(l[0] == x as u8 && r[0] == y as u8);
        assert(l.subrange(1, l.len() as int) =~= s);
        assert(r.subrange(1, r.len() as int) =~= t);
    } else if x < 128 {
        assert(l[0] == x as u8);
        assert(r[0] == (y % 128 + 128) as u8);
    } else if y < 128 {
        assert(r[0] == y as u8);
        assert(l[0] == (x % 128 + 128) as u8);
    } else {
        assert(l[0] == (x % 128 + 128) as u8);
        assert(r[0] == (y % 128 + 128) as u8);
        assert(l.subrange(1, l.len() as int) =~= varint(x / 128) + s);
        assert(r.subrange(1, r.len() as int) =~= varint(y / 128) + t);
        lemma_varint_prefix(x / 128, y / 128, s, t);
    }
}

/// Two texts whose requests encode to the same bytes are the same text: a
/// body answers for one message only, so calls that share the session cannot
/// be taken for one another.
pub proof fn lemma_distinct_texts_distinct_bodies(a: Seq<char>, b: Seq<char>)
    requires
        request_bytes(request_of(a)) == request_bytes(request_of(b)),
    ensures
        a == b,
{
    let ea = envelope(a);
    let eb = envelope(b);
    let ua = encode_utf8(ea);
    let ub = encode_utf8(eb);
    let key = field_key(FIELD_SSML as nat, WIRE_LENGTH_DELIMITED as nat);
    let tail = varint_field(FIELD_AUDIO_FORMAT as nat, 5) + varint_field(FIELD_TTS_VOICE as nat, 1)
        + varint_field(FIELD_TTS_PROVIDER as nat, 5)
        + varint_field(FIELD_SAMPLE_RATE_HZ as nat, 44100);
    assert(request_bytes(request_of(a)) =~= key + (varint(ua.len()) + (ua + tail)));
    assert(request_bytes(request_of(b)) =~= key + (varint(ub.len()) + (ub + tail)));
    let whole = request_bytes(request_of(a));
    let ka = whole.subrange(key.len() as int, whole.len() as int);
    assert(ka =~= varint(ua.len()) + (ua + tail));
    assert(ka =~= varint(ub.len()) + (ub + tail));
    lemma_varint_prefix(ua.len(), ub.len(), ua + tail, ub + tail);
    assert(ua =~= (ua + tail).subrange(0, ua.len() as int));
    assert(ub =~= (ub + tail).subrange(0, ub.len() as int));
    encode_utf8_decode_utf8(ea);
    encode_utf8_decode_utf8(eb);
    assert(ea == eb);
    let n = envelope_open().len() as int;
    assert(ea.subrange(n, n + a.len()) =~= a);
    assert(eb.subrange(n, n + b.len()) =~= b);
    assert(ea.len() == n + a.len() + envelope_close().len());
}

/// UTF-8 takes at most four bytes for each character.
pub proof fn lemma_utf8_len_bound(s: Seq<char>)
    ensures
        encode_utf8(s).len() <= 4 * s.len(),
    decreases s.len(),
{
    if s.len() > 0 {
        assert(encode_scalar(s[0] as u32).len() <= 4);
        lemma_utf8_len_bound(s.drop_first());
    }
}

/// The request built from any text of up to a billion characters encodes:
/// its prompt fits the length prefix.
pub proof fn lemma_built_request_fits(text: Seq<char>)
    requires
        text.len() <= 1_000_000_000,
    ensures
        prompt_fits(request_of(text).prompt),
{
    lemma_utf8_len_bound(envelope(text));
}

} // verus!
