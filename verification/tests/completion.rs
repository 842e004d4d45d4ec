use llm_chat::api::{LLMClient, Messages, Model, Transport, TransportOutcome};
use llm_chat::openai::{bearer_header, render_serialize_failure, OpenAIClient, OpenAICompletionRequest, OpenAIMessages, OpenAIModel};

struct StubTransport {
    status: u16,
    body: &'static str,
    calls: usize,
    last_url: String,
    last_authorization: String,
    last_body: String,
}

impl StubTransport {
    fn with(status: u16, body: &'static str) -> Self {
        StubTransport {
            status,
            body,
            calls: 0,
            last_url: String::new(),
            last_authorization: String::new(),
            last_body: String::new(),
        }
    }
}

impl Transport for StubTransport {
    fn post(&mut self, url: &str, authorization: &str, body: &str) -> TransportOutcome {
        self.calls += 1;
        self.last_url = url.to_string();
        self.last_authorization = authorization.to_string();
        self.last_body = body.to_string();
        TransportOutcome::Response { status: self.status, body: self.body.to_string() }
    }
}

struct DownTransport;

impl Transport for DownTransport {
    fn post(&mut self, _url: &str, _authorization: &str, _body: &str) -> TransportOutcome {
        TransportOutcome::Failure { description: "connection refused".to_string() }
    }
}

#[test]
fn model_names_serialize_to_the_wire_literals() {
    assert_eq!(OpenAIModel::GPT4oMini.to_string(), "gpt-4o-mini");
    assert_eq!(OpenAIModel::GPT4o.to_string(), "gpt-4o");
    assert_eq!(OpenAIModel::default().to_string(), "gpt-4o-mini");
}

#[test]
fn request_serializes_one_entry_per_message_in_order() {
    let t = OpenAIMessages::from(vec![("system", "a"), ("user", "b")]);
    let request = OpenAICompletionRequest::new("gpt-4o".to_string(), t);
    let body = request.to_json().expect("serialization succeeds");
    assert_eq!(
        body,
        "{\"model\":\"gpt-4o\",\"messages\":[\
         {\"role\":\"system\",\"content\":\"a\"},\
         {\"role\":\"user\",\"content\":\"b\"}]}"
    );
}

#[test]
fn request_escapes_strings_as_the_serializer_does() {
    let content = "he said \"hi\"\nand left";
    let t = OpenAIMessages::from(vec![("user", content)]);
    let request = OpenAICompletionRequest::new("gpt-4o".to_string(), t);
    let body = request.to_json().expect("serialization succeeds");
    let expected_literal = serde_json::to_string(content).unwrap();
    assert_eq!(
        body,
        format!("{{\"model\":\"gpt-4o\",\"messages\":[{{\"role\":\"user\",\"content\":{}}}]}}", expected_literal)
    );
    assert!(body.contains("\\\"hi\\\""));
    assert!(body.contains("\\n"));
}

#[test]
fn success_returns_the_raw_body_verbatim() {
    let client = OpenAIClient::new(OpenAIModel::GPT4o, "secret".to_string());
    let t = OpenAIMessages::from(vec![("user", "hello")]);
    let mut stub = StubTransport::with(200, "OK-BODY");
    let result = client.create_completion(&mut stub, &t);
    assert_eq!(result, "OK-BODY");
    assert_eq!(stub.calls, 1);
    assert_eq!(stub.last_url, "https://api.openai.com/v1/chat/completions");
    assert_eq!(stub.last_authorization, "Bearer secret");
    assert_eq!(
        stub.last_body,
        "{\"model\":\"gpt-4o\",\"messages\":[{\"role\":\"user\",\"content\":\"hello\"}]}"
    );
}

#[test]
fn late_success_statuses_also_return_the_body() {
    let client = OpenAIClient::new(OpenAIModel::GPT4oMini, "k".to_string());
    let t = OpenAIMessages::from(vec![("user", "q")]);
    let mut stub = StubTransport::with(299, "still fine");
    assert_eq!(client.create_completion(&mut stub, &t), "still fine");
}

#[test]
fn rejection_embeds_status_and_body() {
    let client = OpenAIClient::new(OpenAIModel::GPT4o, "k".to_string());
    let t = OpenAIMessages::from(vec![("user", "q")]);
    let mut stub = StubTransport::with(429, "rate limited");
    let result = client.create_completion(&mut stub, &t);
    assert!(result.contains("429"));
    assert!(result.contains("rate limited"));
    assert_eq!(result, "Error: 429 rate limited");
}

#[test]
fn redirect_and_server_statuses_are_rejections() {
    let client = OpenAIClient::new(OpenAIModel::GPT4o, "k".to_string());
    let t = OpenAIMessages::from(vec![("user", "q")]);
    let mut moved = StubTransport::with(300, "moved");
    assert_eq!(client.create_completion(&mut moved, &t), "Error: 300 moved");
    let mut early = StubTransport::with(199, "early");
    assert_eq!(client.create_completion(&mut early, &t), "Error: 199 early");
    let mut broken = StubTransport::with(500, "oops");
    assert_eq!(client.create_completion(&mut broken, &t), "Error: 500 oops");
}

#[test]
fn transport_failure_degrades_to_a_descriptive_string() {
    let client = OpenAIClient::new(OpenAIModel::GPT4o, "k".to_string());
    let t = OpenAIMessages::from(vec![("user", "q")]);
    let mut down = DownTransport;
    let result = client.create_completion(&mut down, &t);
    assert!(!result.is_empty());
    assert_eq!(result, "Request failed: connection refused");
}

#[test]
fn non_ascii_content_round_trips_through_the_serializer() {
    let content = "¿qué me depara el mañana?";
    let t = OpenAIMessages::from(vec![("user", content)]);
    let request = OpenAICompletionRequest::new("gpt-4o-mini".to_string(), t);
    let body = request.to_json().expect("serialization succeeds");
    let expected_literal = serde_json::to_string(content).unwrap();
    assert_eq!(
        body,
        format!(
            "{{\"model\":\"gpt-4o-mini\",\"messages\":[{{\"role\":\"user\",\"content\":{}}}]}}",
            expected_literal
        )
    );
}

#[test]
fn the_whole_history_is_sent_on_every_call() {
    let client = OpenAIClient::new(OpenAIModel::GPT4o, "k".to_string());
    let mut t = OpenAIMessages::from(vec![("user", "first")]);
    let mut stub = StubTransport::with(200, "answer one");
    client.create_completion(&mut stub, &t);
    let first_body = stub.last_body.clone();
    t.add_message("assistant", "answer one");
    t.add_message("user", "second");
    client.create_completion(&mut stub, &t);
    assert_eq!(stub.calls, 2);
    assert!(stub.last_body.len() > first_body.len());
    assert_eq!(
        stub.last_body,
        "{\"model\":\"gpt-4o\",\"messages\":[\
         {\"role\":\"user\",\"content\":\"first\"},\
         {\"role\":\"assistant\",\"content\":\"answer one\"},\
         {\"role\":\"user\",\"content\":\"second\"}]}"
    );
}

#[test]
fn failure_renderings_follow_their_stated_formulas() {
    assert_eq!(render_serialize_failure("boom"), "Error serializing request: boom");
    assert_eq!(bearer_header("new-key"), "Bearer new-key");
}

#[test]
fn set_api_key_replaces_the_credential_for_later_calls() {
    let mut client = OpenAIClient::new(OpenAIModel::GPT4o, "old-key".to_string());
    assert_eq!(client.get_api_key(), "old-key");
    client.set_api_key("new-key");
    assert_eq!(client.get_api_key(), "new-key");
    let t = OpenAIMessages::from(vec![("user", "q")]);
    let mut stub = StubTransport::with(200, "ok");
    client.create_completion(&mut stub, &t);
    assert_eq!(stub.last_authorization, "Bearer new-key");
}
