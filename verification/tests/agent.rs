use voice_relay::eliza::{
    memory_saved, ChatOutcome, ElizaClient, ElizaError, MemoryOutcome, Message, COMPACT_SIZE,
};
use voice_relay::http::{status_is_success, HttpAnswer};

fn client(url: &str, max: usize) -> ElizaClient {
    ElizaClient::new(url.to_string(), "model-x".to_string(), max, "Be brief.".to_string())
}

fn answer(status: u16, status_text: &str, body: &str) -> HttpAnswer {
    HttpAnswer { status, status_text: status_text.to_string(), body: body.to_string() }
}

fn contents(client: &ElizaClient) -> Vec<String> {
    client.get_history().iter().map(|m| m.content.clone()).collect()
}

#[test]
fn appending_up_to_capacity_archives_nothing() {
    let mut c = client("http://localhost:9096", 6);
    for i in 0..6 {
        let archive = c.add_message("user".to_string(), format!("m{}", i));
        assert!(archive.is_none());
        assert_eq!(c.get_history().len(), i + 1);
    }
    assert_eq!(contents(&c), vec!["m0", "m1", "m2", "m3", "m4", "m5"]);
}

#[test]
fn one_turn_beyond_capacity_compacts_to_five_and_archives_once() {
    let mut c = client("http://localhost:9096", 6);
    for i in 0..6 {
        c.add_message("user".to_string(), format!("m{}", i));
    }
    let archive = c.add_message("assistant".to_string(), "m6".to_string());
    assert_eq!(c.get_history().len(), COMPACT_SIZE);
    assert_eq!(c.get_history().len(), 5);
    assert_eq!(contents(&c), vec!["m2", "m3", "m4", "m5", "m6"]);
    assert_eq!(c.get_history()[4].role, "assistant");

    let archive = archive.expect("an overflow asks for an archive");
    assert_eq!(archive.url, "http://localhost:9096/memory");
    assert_eq!(archive.request.model, "model-x");
    assert!(!archive.request.stream);
    assert_eq!(archive.request.temperature_milli, 0);
    let archived: Vec<(String, String)> = archive
        .request
        .messages
        .iter()
        .map(|m| (m.role.clone(), m.content.clone()))
        .collect();
    assert_eq!(archived.len(), 8);
    assert_eq!(archived[0], ("system".to_string(), "Be brief.".to_string()));
    for i in 0..6 {
        assert_eq!(archived[i + 1], ("user".to_string(), format!("m{}", i)));
    }
    assert_eq!(archived[7], ("assistant".to_string(), "m6".to_string()));

    // The history has room again: the next turns archive nothing.
    assert!(c.add_message("user".to_string(), "m7".to_string()).is_none());
    assert_eq!(c.get_history().len(), 6);
}

#[test]
fn capacity_below_five_is_never_exceeded() {
    let mut c = client("http://localhost:9096", 2);
    assert!(c.add_message("user".to_string(), "a".to_string()).is_none());
    assert!(c.add_message("user".to_string(), "b".to_string()).is_none());
    let archive = c.add_message("user".to_string(), "c".to_string());
    assert!(archive.is_some());
    assert_eq!(archive.unwrap().request.messages.len(), 4);
    assert_eq!(contents(&c), vec!["b", "c"]);
}

#[test]
fn capacity_zero_keeps_nothing() {
    let mut c = client("http://localhost:9096", 0);
    let archive = c.add_message("user".to_string(), "a".to_string());
    assert!(archive.is_some());
    assert_eq!(c.get_history().len(), 0);
}

#[test]
fn clearing_twice_stays_empty() {
    let mut c = client("http://localhost:9096", 5);
    c.add_message("user".to_string(), "a".to_string());
    c.clear_history();
    assert_eq!(c.get_history().len(), 0);
    c.clear_history();
    assert_eq!(c.get_history().len(), 0);
    assert!(c.save_memory().is_none());
}

#[test]
fn save_memory_of_empty_history_is_nothing() {
    let c = client("http://localhost:9096", 5);
    assert!(c.save_memory().is_none());
}

#[test]
fn save_memory_strips_every_trailing_chat() {
    let mut c = client("http://host:1/chat/chat", 5);
    c.add_message("user".to_string(), "a".to_string());
    let archive = c.save_memory().unwrap();
    assert_eq!(archive.url, "http://host:1/memory");
    assert_eq!(archive.request.messages.len(), 2);
    assert_eq!(
        archive.request.messages[1],
        Message { role: "user".to_string(), content: "a".to_string() }
    );

    let mut plain = client("http://host:1", 5);
    plain.add_message("user".to_string(), "a".to_string());
    assert_eq!(plain.save_memory().unwrap().url, "http://host:1/memory");

    let mut inner = client("http://host:1/chat/x", 5);
    inner.add_message("user".to_string(), "a".to_string());
    assert_eq!(inner.save_memory().unwrap().url, "http://host:1/chat/x/memory");
}

#[test]
fn send_message_adds_the_turn_and_builds_the_request() {
    let mut c = client("http://localhost:9096", 10);
    c.add_message("user".to_string(), "earlier".to_string());
    let (out, archive) = c.send_message("hello");
    assert!(archive.is_none());
    assert_eq!(out.url, "http://localhost:9096/chat");
    assert_eq!(out.request.model, "model-x");
    assert!(!out.request.stream);
    assert_eq!(out.request.temperature_milli, 0);
    assert_eq!(
        out.request.messages,
        vec![
            Message { role: "system".to_string(), content: "Be brief.".to_string() },
            Message { role: "user".to_string(), content: "earlier".to_string() },
            Message { role: "user".to_string(), content: "hello".to_string() },
        ]
    );
    assert_eq!(contents(&c), vec!["earlier", "hello"]);
}

#[test]
fn send_message_keeps_an_address_that_ends_in_chat() {
    let mut c = client("http://localhost:9096/chat", 10);
    let (out, _) = c.send_message("hello");
    assert_eq!(out.url, "http://localhost:9096/chat");
}

#[test]
fn send_message_on_a_full_history_asks_for_an_archive() {
    let mut c = client("http://localhost:9096", 5);
    for i in 0..5 {
        c.add_message("user".to_string(), format!("m{}", i));
    }
    let (out, archive) = c.send_message("hello");
    let archive = archive.unwrap();
    assert_eq!(archive.request.messages.len(), 7);
    assert_eq!(out.request.messages.len(), 6);
    assert_eq!(out.request.messages[5].content, "hello");
    assert_eq!(c.get_history().len(), 5);
}

#[test]
fn a_reply_becomes_the_agents_turn() {
    let mut c = client("http://localhost:9096", 10);
    c.send_message("hello");
    let (reply, archive) = c.receive_reply(ChatOutcome::Answered(
        answer(200, "200 OK", "{}"),
        Ok("hi there".to_string()),
    ));
    assert_eq!(reply, Ok("hi there".to_string()));
    assert!(archive.is_none());
    assert_eq!(c.get_history().len(), 2);
    assert_eq!(
        c.get_history()[1],
        Message { role: "assistant".to_string(), content: "hi there".to_string() }
    );
}

#[test]
fn a_request_that_cannot_be_sent_is_a_network_error() {
    let mut c = client("http://localhost:9096", 10);
    c.send_message("hello");
    let (reply, archive) = c.receive_reply(ChatOutcome::SendFailed("refused".to_string()));
    assert_eq!(
        reply,
        Err(ElizaError::NetworkError("Failed to send request: refused".to_string()))
    );
    assert!(archive.is_none());
    assert_eq!(contents(&c), vec!["hello"]);
}

#[test]
fn a_body_that_cannot_be_read_is_a_network_error() {
    let mut c = client("http://localhost:9096", 10);
    let (reply, _) = c.receive_reply(ChatOutcome::ReadFailed("cut off".to_string()));
    assert_eq!(
        reply,
        Err(ElizaError::NetworkError("Failed to read response: cut off".to_string()))
    );
    assert_eq!(c.get_history().len(), 0);
}

#[test]
fn a_status_outside_the_two_hundreds_is_an_api_error() {
    let mut c = client("http://localhost:9096", 10);
    let (reply, _) = c.receive_reply(ChatOutcome::Answered(
        answer(500, "500 Internal Server Error", "boom"),
        Ok("ignored".to_string()),
    ));
    assert_eq!(
        reply,
        Err(ElizaError::ApiError(
            "API returned status 500 Internal Server Error: boom".to_string()
        ))
    );
    assert_eq!(c.get_history().len(), 0);

    let (reply, _) = c.receive_reply(ChatOutcome::Answered(
        answer(199, "199", ""),
        Ok("ignored".to_string()),
    ));
    assert!(matches!(reply, Err(ElizaError::ApiError(_))));
    let (reply, _) = c.receive_reply(ChatOutcome::Answered(
        answer(300, "300 Multiple Choices", ""),
        Ok("ignored".to_string()),
    ));
    assert!(matches!(reply, Err(ElizaError::ApiError(_))));
    let (reply, _) = c.receive_reply(ChatOutcome::Answered(
        answer(299, "299", ""),
        Ok("fine".to_string()),
    ));
    assert_eq!(reply, Ok("fine".to_string()));
}

#[test]
fn a_body_that_does_not_decode_is_a_parse_error() {
    let mut c = client("http://localhost:9096", 10);
    let (reply, _) = c.receive_reply(ChatOutcome::Answered(
        answer(200, "200 OK", "<html>"),
        Err("expected value at line 1 column 1".to_string()),
    ));
    assert_eq!(
        reply,
        Err(ElizaError::ParseError(
            "Failed to parse response: expected value at line 1 column 1. Response was: <html>"
                .to_string()
        ))
    );
    assert_eq!(c.get_history().len(), 0);
}

#[test]
fn status_codes_from_200_to_299_are_success() {
    assert!(!status_is_success(199));
    assert!(status_is_success(200));
    assert!(status_is_success(204));
    assert!(status_is_success(299));
    assert!(!status_is_success(300));
    assert!(!status_is_success(404));
    assert!(!status_is_success(0));
    assert!(!status_is_success(u16::MAX));
}

#[test]
fn archive_outcomes_are_reported() {
    assert_eq!(memory_saved(MemoryOutcome::Answered(answer(200, "200 OK", ""))), Ok(()));
    assert_eq!(
        memory_saved(MemoryOutcome::SendFailed("refused".to_string())),
        Err(ElizaError::NetworkError("Failed to save memory: refused".to_string()))
    );
    assert_eq!(
        memory_saved(MemoryOutcome::Answered(answer(503, "503 Service Unavailable", "busy"))),
        Err(ElizaError::ApiError(
            "Memory API returned status 503 Service Unavailable: busy".to_string()
        ))
    );
}

#[test]
fn agent_errors_read_as_the_operator_sees_them() {
    assert_eq!(ElizaError::NetworkError("x".to_string()).to_string(), "Network error: x");
    assert_eq!(ElizaError::ApiError("y".to_string()).to_string(), "API error: y");
    assert_eq!(ElizaError::ParseError("z".to_string()).to_string(), "Parse error: z");
}

#[test]
fn a_copied_message_equals_the_message() {
    let m = Message { role: "user".to_string(), content: "こんにちは".to_string() };
    assert_eq!(m.clone(), m);
}
