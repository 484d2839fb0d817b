use ssip_server::synthesiser::{Error, ErrorKind};
use ssip_server::stream::ProtocolError;
use ssip_server::voice::{ResourceKind, Voice};

fn permit_error(voice: &Voice) -> Error {
    match voice.engine_permit() {
        Ok(_) => panic!("a permit for an incomplete voice"),
        Err(error) => error,
    }
}

#[test]
fn voice_without_resources_gets_no_engine() {
    let voice = Voice::new("TestVoice");
    assert!(!voice.is_complete());
    assert_eq!(permit_error(&voice).kind, ErrorKind::IncompleteVoice);
}

#[test]
fn voice_with_text_analysis_only_gets_no_engine() {
    let mut voice = Voice::new("TestVoice");
    voice.add_resource(ResourceKind::TextAnalysis);
    assert!(!voice.is_complete());
    let error = permit_error(&voice);
    assert_eq!(error.kind, ErrorKind::IncompleteVoice);
    assert_eq!(
        error.description,
        "Voice needs exactly one text analysis and one speech generation resource."
    );
}

#[test]
fn voice_with_speech_generation_only_gets_no_engine() {
    let mut voice = Voice::new("TestVoice");
    voice.add_resource(ResourceKind::SpeechGeneration);
    assert!(!voice.is_complete());
    assert_eq!(permit_error(&voice).kind, ErrorKind::IncompleteVoice);
}

#[test]
fn voice_with_one_of_each_gets_a_permit() {
    let mut voice = Voice::new("TestVoice");
    voice.add_resource(ResourceKind::TextAnalysis);
    voice.add_resource(ResourceKind::SpeechGeneration);
    assert!(voice.is_complete());
    match voice.engine_permit() {
        Ok(permit) => assert_eq!(permit.voice_name(), "TestVoice"),
        Err(error) => panic!("{}", error.message()),
    }
}

#[test]
fn order_of_attachment_does_not_matter() {
    let mut voice = Voice::new("Other");
    voice.add_resource(ResourceKind::SpeechGeneration);
    voice.add_resource(ResourceKind::TextAnalysis);
    assert!(voice.is_complete());
    assert!(voice.engine_permit().is_ok());
}

#[test]
fn repeated_kind_spoils_the_voice() {
    let mut voice = Voice::new("TestVoice");
    voice.add_resource(ResourceKind::TextAnalysis);
    voice.add_resource(ResourceKind::TextAnalysis);
    assert_eq!(permit_error(&voice).kind, ErrorKind::IncompleteVoice);
    voice.add_resource(ResourceKind::SpeechGeneration);
    assert!(!voice.is_complete());
    assert_eq!(permit_error(&voice).kind, ErrorKind::IncompleteVoice);
    voice.add_resource(ResourceKind::TextAnalysis);
    assert_eq!(permit_error(&voice).kind, ErrorKind::IncompleteVoice);
}

#[test]
fn repeated_speech_generation_spoils_a_complete_voice() {
    let mut voice = Voice::new("TestVoice");
    voice.add_resource(ResourceKind::TextAnalysis);
    voice.add_resource(ResourceKind::SpeechGeneration);
    assert!(voice.engine_permit().is_ok());
    voice.add_resource(ResourceKind::SpeechGeneration);
    assert!(!voice.is_complete());
    assert_eq!(permit_error(&voice).kind, ErrorKind::IncompleteVoice);
}

#[test]
fn synthesiser_errors_carry_their_kind_and_words() {
    let error = Error::setup(String::from("out of memory"));
    assert_eq!(error.kind, ErrorKind::Setup);
    assert_eq!(error.message(), "TTS Pico error: out of memory");

    let error = Error::engine(String::from("invalid UTF-8"));
    assert_eq!(error.kind, ErrorKind::Engine);
    assert_eq!(error.description, "invalid UTF-8");
    assert_eq!(error.message(), "TTS Pico error: invalid UTF-8");

    let error = Error::incomplete_voice();
    assert_eq!(error.kind, ErrorKind::IncompleteVoice);
    assert_eq!(
        error.message(),
        "TTS Pico error: Voice needs exactly one text analysis and one speech generation resource."
    );
}

#[test]
fn protocol_errors_are_described() {
    let error = Error::protocol(ProtocolError::Stalled);
    assert_eq!(error.kind, ErrorKind::Protocol(ProtocolError::Stalled));
    assert_eq!(error.description, "Engine accepted no input.");

    let error = Error::protocol(ProtocolError::Overrun);
    assert_eq!(error.kind, ErrorKind::Protocol(ProtocolError::Overrun));
    assert_eq!(error.description, "Engine reported more data than fits.");

    let error = Error::protocol(ProtocolError::Exhausted);
    assert_eq!(error.kind, ErrorKind::Protocol(ProtocolError::Exhausted));
    assert_eq!(error.description, "Engine did not become idle.");
    assert_eq!(error.message(), "TTS Pico error: Engine did not become idle.");
}
