use voice_relay::eliza::{ChatOutcome, ElizaClient, Message};
use voice_relay::http::HttpAnswer;
use voice_relay::pipeline::{Action, Event, Pipeline, PipelineMessage, Stage, Step};
use voice_relay::vrchat::Delivery;

fn session() -> ElizaClient {
    ElizaClient::new(
        "http://localhost:9096".to_string(),
        "model-x".to_string(),
        20,
        "Be brief.".to_string(),
    )
}

fn replied(text: &str) -> ChatOutcome {
    ChatOutcome::Answered(
        HttpAnswer { status: 200, status_text: "200 OK".to_string(), body: "{}".to_string() },
        Ok(text.to_string()),
    )
}

fn turns(client: &ElizaClient) -> Vec<(String, String)> {
    client.get_history().iter().map(|m| (m.role.clone(), m.content.clone())).collect()
}

fn chatbox_text(step: &Step) -> String {
    let datagram = match &step.action {
        Action::RelayTranscript(d) => d,
        Action::RelayReply(d) => d,
        other => panic!("no relay asked for: {:?}", other),
    };
    assert_eq!(datagram.target_addr, "127.0.0.1:9000");
    match rosc::decoder::decode_udp(&datagram.payload).unwrap().1 {
        rosc::OscPacket::Message(m) => match &m.args[0] {
            rosc::OscType::String(s) => s.clone(),
            other => panic!("not a string: {:?}", other),
        },
        rosc::OscPacket::Bundle(_) => panic!("not a message"),
    }
}

#[test]
fn a_recording_runs_from_transcript_to_delivered_reply() {
    let mut earlier = session();
    earlier.add_message("user".to_string(), "before".to_string());
    let mut p = Pipeline::for_clip(Some(earlier));
    assert_eq!(p.stage(), Stage::Created);
    let mut seen: Vec<PipelineMessage> = Vec::new();

    let step = p.step(Event::Start);
    assert_eq!(step.action, Action::Transcribe);
    assert!(step.archive.is_none());
    seen.extend(step.messages);
    assert_eq!(p.stage(), Stage::Transcribing);

    let step = p.step(Event::Transcribed(Ok("hello".to_string())));
    assert_eq!(chatbox_text(&step), "> hello");
    assert!(matches!(step.action, Action::RelayTranscript(_)));
    seen.extend(step.messages);

    let step = p.step(Event::TranscriptRelayed(Delivery::Sent(32)));
    match &step.action {
        Action::Converse(out) => {
            assert_eq!(out.url, "http://localhost:9096/chat");
            assert_eq!(
                out.request.messages,
                vec![
                    Message { role: "system".to_string(), content: "Be brief.".to_string() },
                    Message { role: "user".to_string(), content: "before".to_string() },
                    Message { role: "user".to_string(), content: "hello".to_string() },
                ]
            );
        }
        other => panic!("no conversation asked for: {:?}", other),
    }
    seen.extend(step.messages);
    assert_eq!(p.stage(), Stage::Conversing);

    let step = p.step(Event::Conversed(replied("hi there")));
    assert_eq!(chatbox_text(&step), "hi there");
    assert!(matches!(step.action, Action::RelayReply(_)));
    seen.extend(step.messages);

    let step = p.step(Event::ReplyRelayed(Delivery::Sent(28)));
    assert_eq!(step.action, Action::Stop);
    seen.extend(step.messages);
    assert_eq!(p.stage(), Stage::Done);

    assert_eq!(seen.len(), 5);
    assert_eq!(seen[0], PipelineMessage::TranscribingStarted);
    assert_eq!(seen[1], PipelineMessage::TranscriptComplete("hello".to_string()));
    assert_eq!(seen[2], PipelineMessage::ConversingStarted);
    assert_eq!(seen[3], PipelineMessage::ReplyComplete("hi there".to_string()));
    match &seen[4] {
        PipelineMessage::Finished(session) => assert_eq!(
            turns(session),
            vec![
                ("user".to_string(), "before".to_string()),
                ("user".to_string(), "hello".to_string()),
                ("assistant".to_string(), "hi there".to_string()),
            ]
        ),
        other => panic!("not finished: {:?}", other),
    }
}

#[test]
fn a_fresh_session_ends_with_the_two_turns() {
    let mut p = Pipeline::for_clip(Some(session()));
    p.step(Event::Start);
    p.step(Event::Transcribed(Ok("hello".to_string())));
    p.step(Event::TranscriptRelayed(Delivery::SendFailed("no sink".to_string())));
    p.step(Event::Conversed(replied("hi there")));
    let step = p.step(Event::ReplyRelayed(Delivery::Sent(28)));
    assert_eq!(step.messages.len(), 1);
    match &step.messages[0] {
        PipelineMessage::Finished(session) => assert_eq!(
            turns(session),
            vec![
                ("user".to_string(), "hello".to_string()),
                ("assistant".to_string(), "hi there".to_string()),
            ]
        ),
        other => panic!("not finished: {:?}", other),
    }
}

#[test]
fn a_failed_conversation_keeps_the_users_turn() {
    let mut p = Pipeline::for_clip(Some(session()));
    p.step(Event::Start);
    p.step(Event::Transcribed(Ok("hello".to_string())));
    p.step(Event::TranscriptRelayed(Delivery::Sent(32)));
    let step = p.step(Event::Conversed(ChatOutcome::SendFailed("refused".to_string())));
    assert_eq!(step.action, Action::Stop);
    assert_eq!(step.messages.len(), 1);
    match &step.messages[0] {
        PipelineMessage::Failed(reason, Some(session)) => {
            assert_eq!(
                reason,
                "Eliza failed: Network error: Failed to send request: refused"
            );
            assert_eq!(turns(session), vec![("user".to_string(), "hello".to_string())]);
        }
        other => panic!("not failed with a session: {:?}", other),
    }
    assert_eq!(p.stage(), Stage::Done);
}

#[test]
fn a_failed_transcription_returns_the_session_untouched() {
    let mut earlier = session();
    earlier.add_message("user".to_string(), "before".to_string());
    let mut p = Pipeline::for_clip(Some(earlier));
    p.step(Event::Start);
    let step = p.step(Event::Transcribed(Err("401 Unauthorized".to_string())));
    assert_eq!(step.action, Action::Stop);
    assert_eq!(step.messages.len(), 1);
    match &step.messages[0] {
        PipelineMessage::Failed(reason, Some(session)) => {
            assert_eq!(reason, "Transcription failed: 401 Unauthorized");
            assert_eq!(turns(session), vec![("user".to_string(), "before".to_string())]);
        }
        other => panic!("not failed with a session: {:?}", other),
    }
}

#[test]
fn a_recording_without_a_session_fails_after_the_transcript() {
    let mut p = Pipeline::for_clip(None);
    let step = p.step(Event::Start);
    assert_eq!(step.messages, vec![PipelineMessage::TranscribingStarted]);
    let step = p.step(Event::Transcribed(Ok("hello".to_string())));
    assert_eq!(step.messages, vec![PipelineMessage::TranscriptComplete("hello".to_string())]);
    let step = p.step(Event::TranscriptRelayed(Delivery::Sent(32)));
    assert_eq!(
        step.messages,
        vec![PipelineMessage::Failed("not initialized".to_string(), None)]
    );
    assert_eq!(step.action, Action::Stop);
    assert_eq!(p.stage(), Stage::Done);
}

#[test]
fn an_undelivered_reply_fails_but_keeps_both_turns() {
    let mut p = Pipeline::for_clip(Some(session()));
    p.step(Event::Start);
    p.step(Event::Transcribed(Ok("hello".to_string())));
    p.step(Event::TranscriptRelayed(Delivery::Sent(32)));
    p.step(Event::Conversed(replied("hi there")));
    let step = p.step(Event::ReplyRelayed(Delivery::BindFailed("in use".to_string())));
    assert_eq!(step.messages.len(), 1);
    match &step.messages[0] {
        PipelineMessage::Failed(reason, Some(session)) => {
            assert_eq!(reason, "VRChat failed: Socket error: Failed to bind socket: in use");
            assert_eq!(session.get_history().len(), 2);
        }
        other => panic!("not failed with a session: {:?}", other),
    }
}

#[test]
fn a_typed_turn_skips_the_transcription() {
    let mut p = Pipeline::for_text("good morning".to_string(), Some(session()));
    let step = p.step(Event::Start);
    assert_eq!(step.messages, vec![PipelineMessage::ConversingStarted]);
    assert_eq!(chatbox_text(&step), "> good morning");
    let step = p.step(Event::TranscriptRelayed(Delivery::Sent(36)));
    assert!(step.messages.is_empty());
    assert!(matches!(step.action, Action::Converse(_)));
    let step = p.step(Event::Conversed(replied("morning!")));
    assert_eq!(step.messages, vec![PipelineMessage::ReplyComplete("morning!".to_string())]);
    let step = p.step(Event::ReplyRelayed(Delivery::Sent(28)));
    match &step.messages[0] {
        PipelineMessage::Finished(session) => assert_eq!(
            turns(session),
            vec![
                ("user".to_string(), "good morning".to_string()),
                ("assistant".to_string(), "morning!".to_string()),
            ]
        ),
        other => panic!("not finished: {:?}", other),
    }
}

#[test]
fn a_typed_turn_without_a_session_fails_at_once() {
    let mut p = Pipeline::for_text("good morning".to_string(), None);
    let step = p.step(Event::Start);
    assert_eq!(
        step.messages,
        vec![
            PipelineMessage::ConversingStarted,
            PipelineMessage::Failed("not initialized".to_string(), None),
        ]
    );
    assert_eq!(step.action, Action::Stop);
}

#[test]
fn an_event_out_of_turn_ends_the_run_and_returns_the_session() {
    let mut p = Pipeline::for_clip(Some(session()));
    p.step(Event::Start);
    let step = p.step(Event::Conversed(replied("too early")));
    assert_eq!(step.action, Action::Stop);
    match &step.messages[0] {
        PipelineMessage::Failed(reason, Some(session)) => {
            assert_eq!(reason, "Unexpected event");
            assert_eq!(session.get_history().len(), 0);
        }
        other => panic!("not failed with a session: {:?}", other),
    }
    // After the end nothing happens any more.
    let step = p.step(Event::Start);
    assert!(step.messages.is_empty());
    assert_eq!(step.action, Action::Stop);
    assert_eq!(p.stage(), Stage::Done);
}

#[test]
fn an_overflowing_history_is_archived_on_the_way() {
    let mut full = ElizaClient::new(
        "http://localhost:9096".to_string(),
        "model-x".to_string(),
        5,
        "Be brief.".to_string(),
    );
    for i in 0..5 {
        full.add_message("user".to_string(), format!("m{}", i));
    }
    let mut p = Pipeline::for_clip(Some(full));
    p.step(Event::Start);
    p.step(Event::Transcribed(Ok("hello".to_string())));
    let step = p.step(Event::TranscriptRelayed(Delivery::Sent(32)));
    let archive = step.archive.expect("the user's turn overflows the history");
    assert_eq!(archive.url, "http://localhost:9096/memory");
    assert_eq!(archive.request.messages.len(), 7);
    let step = p.step(Event::Conversed(replied("hi")));
    let archive = step.archive.expect("the agent's turn overflows it again");
    assert_eq!(archive.request.messages.len(), 7);
    assert_eq!(archive.request.messages[6].content, "hi");
}
