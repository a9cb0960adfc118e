use polly_tts::payload::ssml_payload;
use polly_tts::rate::Rate;
use polly_tts::region::resolve_region;
use polly_tts::request::{resolve_request, ArgumentError, SpeechRequest, Voice};
use polly_tts::synthesis::{Action, Event, Stage, Synthesis, SynthesisError};

fn request_for(text: &str, rate: Option<&str>, output: Option<&str>) -> SpeechRequest {
    resolve_request(
        text.to_string(),
        "Joanna",
        rate,
        output.map(|p| p.to_string()),
        None,
    )
    .expect("Joanna is a known voice")
}

#[test]
fn every_rate_token_sits_in_the_rate_attribute() {
    let cases = [
        (Rate::Xslow, "x-slow"),
        (Rate::Slow, "slow"),
        (Rate::Medium, "medium"),
        (Rate::Fast, "fast"),
        (Rate::Xfast, "x-fast"),
    ];
    for (rate, token) in cases {
        assert_eq!(rate.token(), token);
        let payload = ssml_payload(rate, "hi");
        assert!(payload.contains(&format!("rate='{}'", token)));
        assert_eq!(
            payload,
            format!("<speak><prosody rate='{}'>hi</prosody></speak>", token)
        );
    }
}

#[test]
fn tokens_parse_back_to_their_rates() {
    for rate in [Rate::Xslow, Rate::Slow, Rate::Medium, Rate::Fast, Rate::Xfast] {
        assert_eq!(Rate::from_token(rate.token()), Some(rate));
    }
    assert_eq!(Rate::from_token("xslow"), None);
    assert_eq!(Rate::from_token("Medium"), None);
    assert_eq!(Rate::from_token(""), None);
    assert_eq!(Rate::default_rate(), Rate::Medium);
}

#[test]
fn hello_world_at_the_default_rate() {
    let req = request_for("Hello world", None, None);
    assert_eq!(req.rate, Rate::Medium);
    assert_eq!(
        ssml_payload(req.rate, &req.text),
        "<speak><prosody rate='medium'>Hello world</prosody></speak>"
    );
}

#[test]
fn markup_characters_are_not_escaped() {
    assert_eq!(
        ssml_payload(Rate::Fast, "a < b & 'c'"),
        "<speak><prosody rate='fast'>a < b & 'c'</prosody></speak>"
    );
    assert_eq!(
        ssml_payload(Rate::Slow, ""),
        "<speak><prosody rate='slow'></prosody></speak>"
    );
}

#[test]
fn explicit_region_wins_over_the_environment() {
    let chosen = Some("us-east-1".to_string());
    assert_eq!(resolve_region(&chosen, &Some("ap-south-1".to_string())), "us-east-1");
    assert_eq!(resolve_region(&chosen, &None), "us-east-1");
}

#[test]
fn region_falls_back_to_eu_west_1() {
    assert_eq!(resolve_region(&None, &None), "eu-west-1");
    assert_eq!(resolve_region(&Some(String::new()), &Some(String::new())), "eu-west-1");
}

#[test]
fn environment_region_is_used_without_an_override() {
    let env = Some("ap-south-1".to_string());
    assert_eq!(resolve_region(&None, &env), "ap-south-1");
    assert_eq!(resolve_region(&Some(String::new()), &env), "ap-south-1");
}

#[test]
fn unknown_voice_is_refused_before_any_call() {
    let r = resolve_request("Hello".to_string(), "NotAVoice", None, None, None);
    assert_eq!(r, Err(ArgumentError::UnknownVoice("NotAVoice".to_string())));
    let r = resolve_request("Hello".to_string(), "", Some("bogus"), None, None);
    assert_eq!(r, Err(ArgumentError::UnknownVoice(String::new())));
}

#[test]
fn voices_are_checked_against_the_service_vocabulary() {
    assert_eq!(Voice::parse("Joanna").map(|v| v.name().to_string()), Some("Joanna".to_string()));
    assert_eq!(Voice::parse("Matthew").map(|v| v.name().to_string()), Some("Matthew".to_string()));
    assert!(Voice::parse("joanna").is_none());
    assert!(Voice::parse("NotAVoice").is_none());
}

#[test]
fn unknown_rate_is_refused() {
    let r = resolve_request("Hello".to_string(), "Joanna", Some("xslow"), None, None);
    assert_eq!(r, Err(ArgumentError::UnknownRate("xslow".to_string())));
}

#[test]
fn resolved_request_keeps_the_arguments() {
    let r = resolve_request(
        "Hi there".to_string(),
        "Brian",
        Some("x-fast"),
        Some("speech.mp3".to_string()),
        Some("us-west-2".to_string()),
    )
    .unwrap();
    assert_eq!(r.text, "Hi there");
    assert_eq!(r.voice.name(), "Brian");
    assert_eq!(r.rate, Rate::Xfast);
    assert_eq!(r.output_path, "speech.mp3");
    assert_eq!(r.region_override, Some("us-west-2".to_string()));
}

#[test]
fn output_path_defaults_to_output_mp3() {
    let r = request_for("Hi", Some("slow"), None);
    assert_eq!(r.output_path, "output.mp3");
    assert_eq!(r.rate, Rate::Slow);
    assert_eq!(r.region_override, None);
}

#[test]
fn start_asks_for_the_call() {
    let mut req = request_for("Hello world", Some("fast"), Some("a.mp3"));
    req.region_override = Some("us-east-1".to_string());
    let (run, action) = Synthesis::start(req, &Some("ap-south-1".to_string()));
    assert_eq!(run.stage(), Stage::Submitting);
    match action {
        Action::Submit { region, payload, voice } => {
            assert_eq!(region, "us-east-1");
            assert_eq!(payload, "<speak><prosody rate='fast'>Hello world</prosody></speak>");
            assert_eq!(voice.name(), "Joanna");
        }
        other => panic!("unexpected first action {:?}", other),
    }
}

#[test]
fn start_uses_the_fallback_region() {
    let (_, action) = Synthesis::start(request_for("x", None, None), &None);
    match action {
        Action::Submit { region, .. } => assert_eq!(region, "eu-west-1"),
        other => panic!("unexpected first action {:?}", other),
    }
}

#[test]
fn collected_bytes_are_written_unchanged() {
    let (mut run, _) = Synthesis::start(request_for("Hello", None, Some("out.mp3")), &None);
    assert!(matches!(run.step(Event::Accepted), Action::Collect));
    assert_eq!(run.stage(), Stage::Collecting);
    match run.step(Event::Collected(vec![0x49, 0x44, 0x33])) {
        Action::Write { path, bytes } => {
            assert_eq!(path, "out.mp3");
            assert_eq!(bytes, vec![0x49, 0x44, 0x33]);
        }
        other => panic!("expected a write, got {:?}", other),
    }
    assert_eq!(run.stage(), Stage::Writing);
    assert!(matches!(run.step(Event::Written), Action::Finish(Ok(()))));
    assert_eq!(run.stage(), Stage::Done);
    assert!(!run.awaits(&Event::Written));
}

#[test]
fn rejected_call_writes_nothing() {
    let (mut run, _) = Synthesis::start(request_for("Hello", None, None), &None);
    match run.step(Event::Rejected("InvalidSsmlException".to_string())) {
        Action::Finish(Err(e)) => {
            assert_eq!(e, SynthesisError::Remote("InvalidSsmlException".to_string()))
        }
        other => panic!("expected a remote failure, got {:?}", other),
    }
    assert_eq!(run.stage(), Stage::Failed);
    assert!(!run.awaits(&Event::Collected(vec![1])));
    assert!(!run.awaits(&Event::Written));
    assert!(!run.awaits(&Event::Accepted));
}

#[test]
fn stream_and_file_failures_end_the_run() {
    let (mut run, _) = Synthesis::start(request_for("Hello", None, None), &None);
    run.step(Event::Accepted);
    match run.step(Event::CollectFailed("reset".to_string())) {
        Action::Finish(Err(e)) => {
            assert_eq!(e, SynthesisError::StreamCollection("reset".to_string()))
        }
        other => panic!("expected a stream failure, got {:?}", other),
    }
    assert_eq!(run.stage(), Stage::Failed);

    let (mut run, _) = Synthesis::start(request_for("Hello", None, None), &None);
    run.step(Event::Accepted);
    run.step(Event::Collected(Vec::new()));
    match run.step(Event::WriteFailed("denied".to_string())) {
        Action::Finish(Err(e)) => assert_eq!(e, SynthesisError::FileIo("denied".to_string())),
        other => panic!("expected a file failure, got {:?}", other),
    }
    assert_eq!(run.stage(), Stage::Failed);
}

#[test]
fn run_waits_only_for_its_stage_events() {
    let (run, _) = Synthesis::start(request_for("Hello", None, None), &None);
    assert!(run.awaits(&Event::Accepted));
    assert!(run.awaits(&Event::Rejected(String::new())));
    assert!(!run.awaits(&Event::Collected(Vec::new())));
    assert!(!run.awaits(&Event::Written));
    assert!(!run.awaits(&Event::WriteFailed(String::new())));
}
