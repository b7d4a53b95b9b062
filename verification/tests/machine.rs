use voice_relay::eliza::ElizaClient;
use voice_relay::pipeline::{Event, Pipeline, PipelineMessage, Stage};
use voice_relay::session::{AgentSettings, Effect, Input, Orchestrator, Reading, SessionPhase};
use voice_relay::status::Status;
use voice_relay::vad::ThresholdPair;

fn thresholds() -> ThresholdPair {
    ThresholdPair { start_threshold: 20_000, silence_threshold: 10_000, silence_duration_ms: 2_000 }
}

fn agent(url: &str) -> AgentSettings {
    AgentSettings {
        server_url: url.to_string(),
        model: "model-x".to_string(),
        max_history_length: 20,
        system_prompt: "Be brief.".to_string(),
    }
}

fn machine() -> Orchestrator {
    Orchestrator::new(thresholds(), agent("http://localhost:9096"), false)
}

fn loud() -> Reading {
    Reading { amplitude: 30_000, quiet_ms: 0, buffered_samples: 100 }
}

fn quiet() -> Reading {
    Reading { amplitude: 0, quiet_ms: 0, buffered_samples: 100 }
}

fn silent_for(ms: u64, samples: usize) -> Reading {
    Reading { amplitude: 0, quiet_ms: ms, buffered_samples: samples }
}

/// Brings a machine at rest to the point where a recording is processed,
/// and returns the pipeline it asks to run.
fn record_one_clip(o: &mut Orchestrator) -> Pipeline {
    o.start_monitoring();
    o.on_level(0, loud());
    o.on_level(100, loud());
    assert_eq!(o.phase(), SessionPhase::Recording);
    let mut effects = o.on_level(2_200, silent_for(2_000, 16_000));
    assert_eq!(effects.len(), 1);
    match effects.pop().unwrap() {
        Effect::ProcessClip(p) => p,
        other => panic!("no pipeline asked for: {:?}", other),
    }
}

fn spawns(effects: &[Effect]) -> usize {
    effects
        .iter()
        .filter(|e| matches!(e, Effect::ProcessClip(_) | Effect::ProcessText(_)))
        .count()
}

#[test]
fn a_new_machine_rests() {
    let o = machine();
    assert_eq!(o.phase(), SessionPhase::Idle);
    assert_eq!(*o.status(), Status::Ready);
    assert_eq!(o.status_message(), "Ready. Press Start to begin monitoring.");
    assert!(o.conversation_history().is_empty());
    assert!(o.session().is_none());
    assert!(!o.is_in_flight());
    assert_eq!(o.thresholds(), thresholds());
    assert!(o.on_exit().is_none());
}

#[test]
fn start_opens_the_microphone_and_makes_the_session() {
    let mut o = machine();
    let effects = o.start_monitoring();
    assert_eq!(effects, vec![Effect::AcquireCapture(10_000)]);
    assert_eq!(o.phase(), SessionPhase::Monitoring);
    assert_eq!(o.status_message(), "Monitoring... Speak to start recording.");
    assert!(o.session().is_some());
    // A second start changes nothing.
    assert!(o.start_monitoring().is_empty());
    assert_eq!(o.phase(), SessionPhase::Monitoring);
}

#[test]
fn without_an_agent_no_session_is_made() {
    let mut o = Orchestrator::new(thresholds(), agent(""), false);
    o.start_monitoring();
    assert_eq!(o.phase(), SessionPhase::Monitoring);
    assert!(o.session().is_none());
}

#[test]
fn stop_closes_the_microphone_from_any_phase() {
    let mut o = machine();
    assert!(o.stop_monitoring().is_empty());
    assert_eq!(o.status_message(), "Stopped.");
    o.start_monitoring();
    assert_eq!(o.stop_monitoring(), vec![Effect::ReleaseCapture]);
    assert_eq!(o.phase(), SessionPhase::Idle);
    o.start_monitoring();
    o.on_level(0, loud());
    o.on_level(100, loud());
    assert_eq!(o.phase(), SessionPhase::Recording);
    assert_eq!(o.stop_monitoring(), vec![Effect::ReleaseCapture]);
    assert_eq!(o.phase(), SessionPhase::Idle);
    // The debounce counter starts from zero after a stop.
    o.start_monitoring();
    o.on_level(0, loud());
    o.stop_monitoring();
    o.start_monitoring();
    o.on_level(0, loud());
    assert_eq!(o.phase(), SessionPhase::Monitoring);
}

#[test]
fn a_microphone_that_does_not_open_sends_the_machine_to_rest() {
    let mut o = machine();
    o.start_monitoring();
    o.capture_failed("no input device".to_string());
    assert_eq!(o.phase(), SessionPhase::Idle);
    assert_eq!(*o.status(), Status::CaptureFailed("no input device".to_string()));
    assert_eq!(o.status_message(), "Error: no input device");
    // At rest the report means nothing.
    o.stop_monitoring();
    o.capture_failed("again".to_string());
    assert_eq!(*o.status(), Status::Stopped);
}

#[test]
fn a_single_spike_does_not_start_a_recording() {
    let mut o = machine();
    o.start_monitoring();
    for reading in [quiet(), loud(), quiet(), loud(), quiet()] {
        assert!(o.on_level(0, reading).is_empty());
        assert_eq!(o.phase(), SessionPhase::Monitoring);
    }
    o.on_level(0, loud());
    o.on_level(0, loud());
    assert_eq!(o.phase(), SessionPhase::Recording);
    assert_eq!(o.status_message(), "Recording... Speak now!");
}

#[test]
fn a_recording_ends_after_the_silence_and_goes_to_a_pipeline() {
    let mut o = machine();
    o.start_monitoring();
    o.on_level(0, loud());
    o.on_level(100, loud());
    assert!(o.on_level(200, silent_for(1_999, 16_000)).is_empty());
    assert_eq!(o.phase(), SessionPhase::Recording);
    let effects = o.on_level(300, silent_for(2_000, 16_000));
    assert_eq!(spawns(&effects), 1);
    assert!(matches!(effects[0], Effect::ProcessClip(_)));
    assert_eq!(o.phase(), SessionPhase::Processing);
    assert_eq!(o.status_message(), "Processing audio...");
    assert!(o.is_in_flight());
    // The session has gone with the pipeline.
    assert!(o.session().is_none());
    // While processing, readings mean nothing.
    assert!(o.on_level(400, loud()).is_empty());
    assert_eq!(o.phase(), SessionPhase::Processing);
}

#[test]
fn an_empty_recording_sends_the_machine_back_to_listening() {
    let mut o = machine();
    o.start_monitoring();
    o.on_level(0, loud());
    o.on_level(100, loud());
    let effects = o.on_level(2_200, silent_for(2_000, 0));
    assert_eq!(effects, vec![Effect::ReleaseCapture, Effect::AcquireCapture(10_000)]);
    assert_eq!(o.phase(), SessionPhase::Monitoring);
    assert_eq!(*o.status(), Status::NoAudio);
    assert_eq!(o.status_message(), "No audio recorded");
    assert!(!o.is_in_flight());
    assert!(o.session().is_some());
}

#[test]
fn the_messages_of_a_run_are_shown_and_the_session_comes_back() {
    let mut o = machine();
    let mut p = record_one_clip(&mut o);
    let mut messages: Vec<PipelineMessage> = Vec::new();
    messages.extend(p.step(Event::Start).messages);
    messages.extend(p.step(Event::Transcribed(Ok("hello".to_string()))).messages);
    messages.extend(
        p.step(Event::TranscriptRelayed(voice_relay::vrchat::Delivery::Sent(32))).messages,
    );
    messages.extend(
        p.step(Event::Conversed(voice_relay::eliza::ChatOutcome::Answered(
            voice_relay::http::HttpAnswer {
                status: 200,
                status_text: "200 OK".to_string(),
                body: "{}".to_string(),
            },
            Ok("hi there".to_string()),
        )))
        .messages,
    );
    messages.extend(p.step(Event::ReplyRelayed(voice_relay::vrchat::Delivery::Sent(28))).messages);
    assert_eq!(p.stage(), Stage::Done);
    assert_eq!(messages.len(), 5);

    let mut texts: Vec<String> = Vec::new();
    let mut last_effects = Vec::new();
    for message in messages {
        last_effects = o.on_pipeline_message(message);
        texts.push(o.status_message());
    }
    assert_eq!(
        texts,
        vec![
            "Transcribing audio...",
            "Transcribed: hello",
            "Asking Eliza...",
            "Eliza: hi there",
            "Sent to VRChat! Ready for next input.",
        ]
    );
    assert_eq!(last_effects, vec![Effect::AcquireCapture(10_000)]);
    assert_eq!(o.phase(), SessionPhase::Monitoring);
    assert!(!o.is_in_flight());
    assert_eq!(
        *o.conversation_history(),
        vec![
            ("You".to_string(), "hello".to_string()),
            ("Agent".to_string(), "hi there".to_string()),
        ]
    );
    let session = o.session().as_ref().unwrap();
    assert_eq!(session.get_history().len(), 2);
    assert_eq!(session.get_history()[0].content, "hello");
    assert_eq!(session.get_history()[1].content, "hi there");
    let archive = o.on_exit().unwrap();
    assert_eq!(archive.url, "http://localhost:9096/memory");
    assert_eq!(archive.request.messages.len(), 3);
}

#[test]
fn a_failed_turn_brings_the_session_back_and_the_machine_listens_again() {
    let mut o = machine();
    let mut p = record_one_clip(&mut o);
    p.step(Event::Start);
    p.step(Event::Transcribed(Ok("hello".to_string())));
    p.step(Event::TranscriptRelayed(voice_relay::vrchat::Delivery::Sent(32)));
    let mut step = p.step(Event::Conversed(voice_relay::eliza::ChatOutcome::SendFailed(
        "refused".to_string(),
    )));
    let failed = step.messages.pop().unwrap();
    let effects = o.on_pipeline_message(failed);
    assert_eq!(effects, vec![Effect::AcquireCapture(10_000)]);
    assert_eq!(o.phase(), SessionPhase::Monitoring);
    assert!(!o.is_in_flight());
    assert_eq!(
        o.status_message(),
        "❌ Error: Eliza failed: Network error: Failed to send request: refused"
    );
    let session = o.session().as_ref().unwrap();
    assert_eq!(session.get_history().len(), 1);
    assert_eq!(session.get_history()[0].role, "user");
    assert_eq!(session.get_history()[0].content, "hello");
}

#[test]
fn a_failure_without_a_session_makes_a_new_one_when_listening_again() {
    let mut o = machine();
    record_one_clip(&mut o);
    o.on_pipeline_message(PipelineMessage::Failed("Transcription failed: x".to_string(), None));
    assert_eq!(o.phase(), SessionPhase::Monitoring);
    assert!(o.session().is_some());
    assert_eq!(o.session().as_ref().unwrap().get_history().len(), 0);
}

#[test]
fn no_second_pipeline_starts_while_one_is_in_flight() {
    let mut o = machine();
    let mut first = record_one_clip(&mut o);
    assert!(o.is_in_flight());

    // The operator stops and starts again while the first is in flight.
    assert!(o.stop_monitoring().is_empty());
    assert_eq!(o.phase(), SessionPhase::Idle);
    assert!(o.is_in_flight());
    assert_eq!(spawns(&o.start_monitoring()), 0);
    // No second session is made while the first is with the pipeline.
    assert!(o.session().is_none());
    o.on_level(3_000, loud());
    o.on_level(3_100, loud());
    assert_eq!(o.phase(), SessionPhase::Recording);
    // The second recording has ended, but it has to wait.
    for tick in 0..5 {
        let effects = o.on_level(6_000 + tick, silent_for(2_500, 8_000));
        assert_eq!(spawns(&effects), 0);
        assert_eq!(o.phase(), SessionPhase::Recording);
    }
    // Nor does a typed turn start one.
    assert_eq!(spawns(&o.submit_text_turn("typed".to_string())), 0);
    assert!(o.conversation_history().is_empty());

    // Messages that are not the last change nothing about that.
    o.on_pipeline_message(PipelineMessage::TranscribingStarted);
    assert!(o.is_in_flight());
    assert_eq!(spawns(&o.on_level(6_100, silent_for(2_600, 8_000))), 0);

    // The last message of the first run arrives.
    first.step(Event::Start);
    let mut step = first.step(Event::Transcribed(Err("down".to_string())));
    let effects = o.on_pipeline_message(step.messages.pop().unwrap());
    assert!(effects.is_empty());
    assert!(!o.is_in_flight());
    assert!(o.session().is_some());
    assert_eq!(o.phase(), SessionPhase::Recording);

    // Now the waiting recording goes to its pipeline.
    let effects = o.on_level(6_200, silent_for(2_700, 8_000));
    assert_eq!(spawns(&effects), 1);
    assert_eq!(o.phase(), SessionPhase::Processing);
}

#[test]
fn the_last_message_after_a_stop_does_not_restart_the_listening() {
    let mut o = machine();
    record_one_clip(&mut o);
    o.stop_monitoring();
    let back = ElizaClient::new("u".to_string(), "m".to_string(), 3, "s".to_string());
    let effects = o.on_pipeline_message(PipelineMessage::Finished(back));
    assert!(effects.is_empty());
    assert_eq!(o.phase(), SessionPhase::Idle);
    assert_eq!(o.status_message(), "Sent to VRChat!");
    assert!(o.session().is_some());
    assert!(!o.is_in_flight());
}

#[test]
fn calibration_sets_both_thresholds() {
    let mut o = machine();
    let effects = o.begin_calibration(1_000);
    assert_eq!(effects, vec![Effect::AcquireCapture(0)]);
    assert_eq!(o.phase(), SessionPhase::CalibratingSilence);
    assert_eq!(o.status_message(), "キャリブレーション: 静かにしてください... (2秒)");
    let at = |amplitude: u32| Reading { amplitude, quiet_ms: 0, buffered_samples: 0 };
    o.on_level(1_100, at(10_000));
    o.on_level(2_000, at(50_000));
    assert_eq!(o.phase(), SessionPhase::CalibratingSilence);
    assert_eq!(o.thresholds().silence_threshold, 10_000);
    o.on_level(3_000, at(20_000));
    assert_eq!(o.phase(), SessionPhase::CalibratingVoice);
    assert_eq!(o.thresholds().silence_threshold, 50_000);
    assert_eq!(o.thresholds().start_threshold, 20_000);
    assert_eq!(o.status_message(), "キャリブレーション: 話してください... (2秒以上)");

    o.on_level(3_100, at(100_000));
    o.on_level(3_200, at(200_000));
    o.on_level(9_000, at(300_000));
    assert_eq!(o.phase(), SessionPhase::CalibratingVoice);
    let effects = o.confirm_calibration_voice_phase();
    assert_eq!(effects, vec![Effect::ReleaseCapture]);
    assert_eq!(o.phase(), SessionPhase::Idle);
    assert_eq!(
        o.thresholds(),
        ThresholdPair {
            start_threshold: 200_000,
            silence_threshold: 50_000,
            silence_duration_ms: 2_000
        }
    );
    assert_eq!(*o.status(), Status::Calibrated { silence: 50_000, start: 200_000 });
    assert_eq!(
        o.status_message(),
        "✓ キャリブレーション完了! silence=0.0500, start=0.2000"
    );
    // The new thresholds are the live ones.
    assert_eq!(o.start_monitoring(), vec![Effect::AcquireCapture(50_000)]);
}

#[test]
fn confirming_at_once_keeps_the_start_threshold() {
    let mut o = machine();
    o.begin_calibration(0);
    o.on_level(2_000, Reading { amplitude: 7_000, quiet_ms: 0, buffered_samples: 0 });
    assert_eq!(o.phase(), SessionPhase::CalibratingVoice);
    o.confirm_calibration_voice_phase();
    assert_eq!(o.phase(), SessionPhase::Idle);
    assert_eq!(o.thresholds().start_threshold, 20_000);
    assert_eq!(o.thresholds().silence_threshold, 7_000);
}

#[test]
fn stopping_a_calibration_commits_nothing_more() {
    let mut o = machine();
    o.begin_calibration(0);
    o.on_level(500, Reading { amplitude: 90_000, quiet_ms: 0, buffered_samples: 0 });
    assert_eq!(o.stop_monitoring(), vec![Effect::ReleaseCapture]);
    assert_eq!(o.phase(), SessionPhase::Idle);
    assert_eq!(o.thresholds(), thresholds());
    // Calibration starts from rest only, and confirming means nothing
    // outside the voice phase.
    o.start_monitoring();
    assert!(o.begin_calibration(0).is_empty());
    assert!(o.confirm_calibration_voice_phase().is_empty());
    assert_eq!(o.phase(), SessionPhase::Monitoring);
}

#[test]
fn a_clock_that_runs_backwards_does_not_end_the_silence_phase() {
    let mut o = machine();
    o.begin_calibration(5_000);
    o.on_level(1_000, Reading { amplitude: 1, quiet_ms: 0, buffered_samples: 0 });
    assert_eq!(o.phase(), SessionPhase::CalibratingSilence);
}

#[test]
fn a_typed_turn_goes_to_a_pipeline_in_any_phase() {
    let mut o = machine();
    let effects = o.submit_text_turn("good morning".to_string());
    assert_eq!(spawns(&effects), 1);
    assert!(matches!(effects[0], Effect::ProcessText(_)));
    assert_eq!(o.phase(), SessionPhase::Idle);
    assert_eq!(o.status_message(), "Sending to Eliza...");
    assert!(o.is_in_flight());
    assert_eq!(
        *o.conversation_history(),
        vec![("You".to_string(), "good morning".to_string())]
    );
    let back = ElizaClient::new("u".to_string(), "m".to_string(), 3, "s".to_string());
    assert!(o.on_pipeline_message(PipelineMessage::Finished(back)).is_empty());
    assert_eq!(o.phase(), SessionPhase::Idle);
    assert_eq!(o.status_message(), "Sent to VRChat!");
}

#[test]
fn a_blank_turn_is_ignored() {
    let mut o = machine();
    assert!(o.submit_text_turn("".to_string()).is_empty());
    assert!(o.submit_text_turn("  \t\n ".to_string()).is_empty());
    assert!(o.submit_turn("looks full".to_string(), true).is_empty());
    assert!(!o.is_in_flight());
    assert!(o.conversation_history().is_empty());
    assert_eq!(*o.status(), Status::Ready);
    assert_eq!(spawns(&o.submit_text_turn("  x ".to_string())), 1);
    assert_eq!(*o.conversation_history(), vec![("You".to_string(), "  x ".to_string())]);
}

#[test]
fn clearing_the_history_twice_leaves_it_empty_both_times() {
    let mut o = machine();
    o.start_monitoring();
    o.on_pipeline_message(PipelineMessage::TranscriptComplete("hello".to_string()));
    let mut session = ElizaClient::new("u".to_string(), "m".to_string(), 9, "s".to_string());
    session.add_message("user".to_string(), "hello".to_string());
    o.stop_monitoring();
    o.on_pipeline_message(PipelineMessage::Finished(session));
    assert_eq!(o.conversation_history().len(), 1);
    assert_eq!(o.session().as_ref().unwrap().get_history().len(), 1);

    o.clear_history();
    assert!(o.conversation_history().is_empty());
    assert_eq!(o.session().as_ref().unwrap().get_history().len(), 0);
    assert_eq!(o.status_message(), "Conversation history cleared");
    o.clear_history();
    assert!(o.conversation_history().is_empty());
    assert_eq!(o.session().as_ref().unwrap().get_history().len(), 0);
    assert!(o.on_exit().is_none());
    assert!(o.handle(Input::ClearHistory).is_empty());
}

#[test]
fn mute_signals_start_and_stop_where_they_are_listened_to() {
    let mut deaf = machine();
    assert!(deaf.on_mute_signal(true).is_empty());
    assert_eq!(deaf.phase(), SessionPhase::Idle);

    let mut o = Orchestrator::new(thresholds(), agent("http://localhost:9096"), true);
    assert!(o.on_mute_signal(false).is_empty());
    assert_eq!(o.on_mute_signal(true), vec![Effect::AcquireCapture(10_000)]);
    assert_eq!(o.phase(), SessionPhase::Monitoring);
    assert!(o.on_mute_signal(true).is_empty());
    assert_eq!(o.on_mute_signal(false), vec![Effect::ReleaseCapture]);
    assert_eq!(o.phase(), SessionPhase::Idle);
}

#[test]
fn another_preset_stops_the_machine_and_forgets_the_conversation() {
    let mut o = machine();
    o.start_monitoring();
    o.on_pipeline_message(PipelineMessage::TranscriptComplete("hello".to_string()));
    let other = ThresholdPair {
        start_threshold: 1,
        silence_threshold: 2,
        silence_duration_ms: 3,
    };
    let effects = o.switch_preset("設定1".to_string(), other, agent("http://other"), true);
    assert_eq!(effects, vec![Effect::ReleaseCapture]);
    assert_eq!(o.phase(), SessionPhase::Idle);
    assert_eq!(o.thresholds(), other);
    assert!(o.session().is_none());
    assert!(o.conversation_history().is_empty());
    assert_eq!(o.status_message(), "Switched to 設定1");
    assert_eq!(o.on_mute_signal(true), vec![Effect::AcquireCapture(2)]);
}

#[test]
fn inputs_do_what_the_commands_do() {
    let mut o = machine();
    assert_eq!(o.handle(Input::Start), vec![Effect::AcquireCapture(10_000)]);
    assert!(o.handle(Input::Level(0, loud())).is_empty());
    assert!(o.handle(Input::Level(100, loud())).is_empty());
    assert_eq!(o.phase(), SessionPhase::Recording);
    assert_eq!(spawns(&o.handle(Input::Level(2_200, silent_for(2_000, 9)))), 1);
    assert!(o.handle(Input::Message(PipelineMessage::ConversingStarted)).is_empty());
    assert_eq!(*o.status(), Status::Conversing);
    assert!(o.handle(Input::SubmitText("typed".to_string())).is_empty());
    assert!(o.handle(Input::Stop).is_empty());
    assert!(o.handle(Input::CaptureFailed("late".to_string())).is_empty());
    assert_eq!(*o.status(), Status::Stopped);
    assert!(o.handle(Input::MuteSignal(true)).is_empty());
    assert_eq!(o.handle(Input::BeginCalibration(0)), vec![Effect::AcquireCapture(0)]);
    assert!(o.handle(Input::ConfirmCalibration).is_empty());
    assert_eq!(o.phase(), SessionPhase::CalibratingSilence);
    assert_eq!(
        o.handle(Input::SwitchPreset("p".to_string(), thresholds(), agent(""), false)),
        vec![Effect::ReleaseCapture]
    );
    assert_eq!(o.phase(), SessionPhase::Idle);
}

#[test]
fn the_main_button_starts_confirms_and_stops() {
    let mut o = machine();
    assert_eq!(o.on_main_button(), vec![Effect::AcquireCapture(10_000)]);
    assert_eq!(o.phase(), SessionPhase::Monitoring);
    assert_eq!(o.on_main_button(), vec![Effect::ReleaseCapture]);
    assert_eq!(o.phase(), SessionPhase::Idle);

    o.begin_calibration(0);
    o.on_level(2_000, Reading { amplitude: 7_000, quiet_ms: 0, buffered_samples: 0 });
    assert_eq!(o.phase(), SessionPhase::CalibratingVoice);
    o.on_level(2_100, Reading { amplitude: 90_000, quiet_ms: 0, buffered_samples: 0 });
    assert_eq!(o.handle(Input::MainButton), vec![Effect::ReleaseCapture]);
    assert_eq!(o.phase(), SessionPhase::Idle);
    assert_eq!(o.thresholds().start_threshold, 90_000);

    // In the silence phase the button stops and commits nothing.
    o.begin_calibration(0);
    o.on_level(100, Reading { amplitude: 1, quiet_ms: 0, buffered_samples: 0 });
    assert_eq!(o.on_main_button(), vec![Effect::ReleaseCapture]);
    assert_eq!(o.thresholds().silence_threshold, 7_000);

    // While processing the button stops without touching the microphone.
    let mut o = machine();
    record_one_clip(&mut o);
    assert!(o.on_main_button().is_empty());
    assert_eq!(o.phase(), SessionPhase::Idle);
    assert!(o.is_in_flight());
}

#[test]
fn an_empty_recording_goes_back_to_listening_even_with_a_pipeline_in_flight() {
    // A typed turn is in flight.
    let mut o = machine();
    o.start_monitoring();
    assert_eq!(spawns(&o.submit_text_turn("typed".to_string())), 1);
    assert!(o.is_in_flight());
    o.on_level(0, loud());
    o.on_level(100, loud());
    assert_eq!(o.phase(), SessionPhase::Recording);
    // The silence has not lasted yet: nothing changes.
    assert!(o.on_level(200, silent_for(1_999, 0)).is_empty());
    assert_eq!(o.phase(), SessionPhase::Recording);
    let effects = o.on_level(2_200, silent_for(2_000, 0));
    assert_eq!(effects, vec![Effect::ReleaseCapture, Effect::AcquireCapture(10_000)]);
    assert_eq!(o.phase(), SessionPhase::Monitoring);
    assert_eq!(*o.status(), Status::NoAudio);
    // The pipeline is still in flight, and the session is still with it.
    assert!(o.is_in_flight());
    assert!(o.session().is_none());

    // The same after a stop and a restart while a recording is processed.
    let mut o = machine();
    record_one_clip(&mut o);
    o.stop_monitoring();
    o.start_monitoring();
    o.on_level(3_000, loud());
    o.on_level(3_100, loud());
    assert_eq!(o.phase(), SessionPhase::Recording);
    let effects = o.on_level(6_000, silent_for(2_000, 0));
    assert_eq!(effects, vec![Effect::ReleaseCapture, Effect::AcquireCapture(10_000)]);
    assert_eq!(o.phase(), SessionPhase::Monitoring);
    assert!(o.is_in_flight());
}

#[test]
fn edited_settings_are_in_force_at_once() {
    let mut o = machine();
    o.start_monitoring();
    let session_before = o.session().as_ref().map(|c| c.get_history().len());
    let edited = ThresholdPair {
        start_threshold: 50_000,
        silence_threshold: 5_000,
        silence_duration_ms: 500,
    };
    o.apply_settings(edited, agent("http://other"), true);
    assert_eq!(o.thresholds(), edited);
    // Phase, status, session and conversation stay.
    assert_eq!(o.phase(), SessionPhase::Monitoring);
    assert_eq!(*o.status(), Status::Monitoring);
    assert_eq!(o.session().as_ref().map(|c| c.get_history().len()), session_before);
    // The new start threshold decides the next readings.
    o.on_level(0, loud());
    o.on_level(100, loud());
    assert_eq!(o.phase(), SessionPhase::Monitoring);
    let louder = Reading { amplitude: 50_001, quiet_ms: 0, buffered_samples: 10 };
    o.on_level(200, louder);
    o.on_level(300, louder);
    assert_eq!(o.phase(), SessionPhase::Recording);
    // And the new silence duration ends the recording.
    assert_eq!(spawns(&o.on_level(900, silent_for(500, 10))), 1);
    // Mute signals are listened to now.
    assert_eq!(o.on_mute_signal(false), Vec::<Effect>::new());
    assert_eq!(o.phase(), SessionPhase::Idle);
    assert_eq!(o.on_mute_signal(true), vec![Effect::AcquireCapture(5_000)]);

    let mut o = machine();
    assert!(o.handle(Input::ApplySettings(edited, agent(""), false)).is_empty());
    assert_eq!(o.thresholds(), edited);
    // The new agent is the one the next session is made for: none here.
    o.start_monitoring();
    assert!(o.session().is_none());
}
