use spotifydj::request::{
    build, format_prompt, AudioFormat, Prompt, SynthesisRequest, TtsProvider, TtsVoice,
    SAMPLE_RATE_HZ,
};
use spotifydj::wire::encode_request;

fn ssml_of(req: &SynthesisRequest) -> String {
    match &req.prompt {
        Prompt::Ssml(s) => s.clone(),
        Prompt::Text(_) => panic!("expected the markup variant"),
    }
}

fn hello_there_bytes() -> Vec<u8> {
    let prompt = "<speak xml:lang=\"en-US\">Hello there</speak>";
    let mut v = vec![0x12, prompt.len() as u8];
    v.extend_from_slice(prompt.as_bytes());
    v.extend_from_slice(&[0x18, 0x05, 0x28, 0x01, 0x30, 0x05, 0x38, 0xc4, 0xd8, 0x02]);
    v
}

#[test]
fn build_hello_there() {
    let req = build("Hello there");
    assert_eq!(ssml_of(&req), "<speak xml:lang=\"en-US\">Hello there</speak>");
    assert_eq!(req.audio_format, AudioFormat::Mp3);
    assert_eq!(req.tts_provider, TtsProvider::Sonantic);
    assert_eq!(req.tts_voice, TtsVoice::Voice1);
    assert_eq!(req.sample_rate_hz, 44100);
    assert_eq!(SAMPLE_RATE_HZ, 44100);
}

#[test]
fn build_empty_text() {
    let req = build("");
    assert_eq!(ssml_of(&req), "<speak xml:lang=\"en-US\"></speak>");
}

#[test]
fn build_fixed_fields_do_not_depend_on_text() {
    let a = build("one");
    let b = build("a much longer second message");
    assert_eq!(a.audio_format, b.audio_format);
    assert_eq!(a.tts_provider, b.tts_provider);
    assert_eq!(a.tts_voice, b.tts_voice);
    assert_eq!(a.sample_rate_hz, b.sample_rate_hz);
    assert_eq!(ssml_of(&b), "<speak xml:lang=\"en-US\">a much longer second message</speak>");
}

#[test]
fn format_prompt_does_not_escape() {
    assert_eq!(format_prompt("<b>&\"</b>"), "<speak xml:lang=\"en-US\"><b>&\"</b></speak>");
}

#[test]
fn encode_hello_there_exact() {
    let req = build("Hello there");
    assert_eq!(encode_request(&req), Ok(hello_there_bytes()));
}

#[test]
fn encode_multibyte_text_counts_bytes() {
    let req = SynthesisRequest {
        audio_format: AudioFormat::Mp3,
        tts_provider: TtsProvider::Sonantic,
        tts_voice: TtsVoice::Voice1,
        sample_rate_hz: 0,
        prompt: Prompt::Text("é".to_string()),
    };
    assert_eq!(
        encode_request(&req),
        Ok(vec![0x0a, 0x02, 0xc3, 0xa9, 0x18, 0x05, 0x28, 0x01, 0x30, 0x05])
    );
}

#[test]
fn encode_negative_rate_sign_extends() {
    let req = SynthesisRequest {
        audio_format: AudioFormat::Mp3,
        tts_provider: TtsProvider::Sonantic,
        tts_voice: TtsVoice::Voice1,
        sample_rate_hz: -1,
        prompt: Prompt::Ssml(String::new()),
    };
    let mut expected = vec![0x12, 0x00, 0x18, 0x05, 0x28, 0x01, 0x30, 0x05, 0x38];
    expected.extend_from_slice(&[0xff; 9]);
    expected.push(0x01);
    assert_eq!(encode_request(&req), Ok(expected));
}

#[test]
fn enum_numbers_match_schema() {
    assert_eq!(AudioFormat::Mp3.number(), 5);
    assert_eq!(TtsProvider::Sonantic.number(), 5);
    assert_eq!(TtsVoice::Voice1.number(), 1);
}

#[test]
fn prompt_text_reads_either_variant() {
    let req = build("hi");
    assert_eq!(req.prompt_text(), "<speak xml:lang=\"en-US\">hi</speak>");
    let plain = SynthesisRequest { prompt: Prompt::Text("plain".to_string()), ..req };
    assert_eq!(plain.prompt_text(), "plain");
}
