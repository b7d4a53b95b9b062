use voice_relay::grok::{ChatOutcome, GrokClient, GrokError, Message};
use voice_relay::http::HttpAnswer;

fn client(max: usize) -> GrokClient {
    GrokClient::new("key-123".to_string(), "grok-beta".to_string(), max, "Be kind.".to_string())
}

fn ok_answer() -> HttpAnswer {
    HttpAnswer { status: 200, status_text: "200 OK".to_string(), body: "{..}".to_string() }
}

#[test]
fn the_window_keeps_the_newest_turns() {
    let mut c = client(2);
    c.add_message("user".to_string(), "a".to_string());
    c.add_message("assistant".to_string(), "b".to_string());
    c.add_message("user".to_string(), "c".to_string());
    let history: Vec<String> = c.get_history().iter().map(|m| m.content.clone()).collect();
    assert_eq!(history, vec!["b", "c"]);
}

#[test]
fn a_window_of_zero_keeps_nothing() {
    let mut c = client(0);
    c.add_message("user".to_string(), "a".to_string());
    assert_eq!(c.get_history().len(), 0);
}

#[test]
fn the_request_carries_key_prompt_and_history() {
    let mut c = client(10);
    let out = c.send_message("hello");
    assert_eq!(out.url, "https://api.x.ai/v1/chat/completions");
    assert_eq!(out.authorization, "Bearer key-123");
    assert_eq!(out.request.model, "grok-beta");
    assert!(!out.request.stream);
    assert_eq!(out.request.temperature_milli, 0);
    assert_eq!(
        out.request.messages,
        vec![
            Message { role: "system".to_string(), content: "Be kind.".to_string() },
            Message { role: "user".to_string(), content: "hello".to_string() },
        ]
    );
}

#[test]
fn the_first_choice_becomes_the_assistants_turn() {
    let mut c = client(10);
    c.send_message("hello");
    let reply = c.receive_reply(ChatOutcome::Answered(ok_answer(), Ok(Some("hi".to_string()))));
    assert_eq!(reply, Ok("hi".to_string()));
    assert_eq!(c.get_history().len(), 2);
    assert_eq!(
        c.get_history()[1],
        Message { role: "assistant".to_string(), content: "hi".to_string() }
    );
}

#[test]
fn a_response_without_choices_is_a_parse_error() {
    let mut c = client(10);
    c.send_message("hello");
    let reply = c.receive_reply(ChatOutcome::Answered(ok_answer(), Ok(None)));
    assert_eq!(reply, Err(GrokError::ParseError("No choices in response".to_string())));
    assert_eq!(c.get_history().len(), 1);
}

#[test]
fn failures_of_the_hosted_service_are_told_apart() {
    let mut c = client(10);
    assert_eq!(
        c.receive_reply(ChatOutcome::SendFailed("dns".to_string())),
        Err(GrokError::NetworkError("Failed to send request: dns".to_string()))
    );
    assert_eq!(
        c.receive_reply(ChatOutcome::ReadFailed("eof".to_string())),
        Err(GrokError::NetworkError("Failed to read response: eof".to_string()))
    );
    assert_eq!(
        c.receive_reply(ChatOutcome::Answered(
            HttpAnswer {
                status: 401,
                status_text: "401 Unauthorized".to_string(),
                body: "no".to_string()
            },
            Ok(Some("x".to_string()))
        )),
        Err(GrokError::ApiError("API returned status 401 Unauthorized: no".to_string()))
    );
    assert_eq!(
        c.receive_reply(ChatOutcome::Answered(ok_answer(), Err("eof".to_string()))),
        Err(GrokError::ParseError(
            "Failed to parse response: eof. Response was: {..}".to_string()
        ))
    );
    assert_eq!(c.get_history().len(), 0);
    assert_eq!(GrokError::NetworkError("x".to_string()).to_string(), "Network error: x");
    assert_eq!(GrokError::ApiError("y".to_string()).to_string(), "API error: y");
    assert_eq!(GrokError::ParseError("z".to_string()).to_string(), "Parse error: z");
}
