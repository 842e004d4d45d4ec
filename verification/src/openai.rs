//! The OpenAI-style provider: concrete message, transcript, request and
//! client types for that vendor's chat-completion wire format.

use vstd::prelude::*;
use vstd::string::StringExecFns;
use crate::api::{LLMClient, Message, Messages, Model, Transport, TransportOutcome};
use crate::json::{json_quote, json_string_of, message_json, entries_json, request_json,
    lemma_entries_json_step};
use crate::text::{dec_str, push_dec_u16};

verus! {

/// The closed set of model selectors this provider serializes.
pub enum OpenAIModel {
    GPT4oMini,
    GPT4o,
}

impl Model for OpenAIModel {
    open spec fn name_view(&self) -> Seq<char> {
        match self {
            OpenAIModel::GPT4oMini => "gpt-4o-mini"@,
            OpenAIModel::GPT4o => "gpt-4o"@,
        }
    }

    fn to_string(&self) -> (r: String) {
        match self {
            OpenAIModel::GPT4oMini => "gpt-4o-mini".to_owned(),
            OpenAIModel::GPT4o => "gpt-4o".to_owned(),
        }
    }
}

impl Default for OpenAIModel {
    /// The default selector is the fast, inexpensive variant.
    fn default() -> (r: Self)
        ensures
            r == OpenAIModel::GPT4oMini,
    {
        OpenAIModel::GPT4oMini
    }
}

/// One role-tagged utterance in this provider's transcript.
pub struct OpenAIMessage {
    role: String,
    content: String,
}

impl View for OpenAIMessage {
    type V = (Seq<char>, Seq<char>);

    closed spec fn view(&self) -> (Seq<char>, Seq<char>) {
        (self.role@, self.content@)
    }
}

impl OpenAIMessage {
    /// Builds a message from a (role, content) pair, both verbatim.
    pub fn from(message: (&str, &str)) -> (r: Self)
        ensures
            r@ == (message.0@, message.1@),
            r.role_view() == message.0@,
            r.content_view() == message.1@,
    {
        Self { role: message.0.to_owned(), content: message.1.to_owned() }
    }
}

impl Message for OpenAIMessage {
    closed spec fn role_view(&self) -> Seq<char> {
        self.role@
    }

    closed spec fn content_view(&self) -> Seq<char> {
        self.content@
    }

    fn role(&self) -> (r: &str) {
        self.role.as_str()
    }

    fn content(&self) -> (r: &str) {
        self.content.as_str()
    }
}

/// This provider's transcript: messages in insertion order.
pub struct OpenAIMessages {
    messages: Vec<OpenAIMessage>,
}

impl View for OpenAIMessages {
    type V = Seq<(Seq<char>, Seq<char>)>;

    closed spec fn view(&self) -> Seq<(Seq<char>, Seq<char>)> {
        Seq::new(self.messages@.len(), |i: int| self.messages@[i]@)
    }
}

impl OpenAIMessages {
    /// Builds a transcript from (role, content) pairs, in the order given.
    pub fn from(messages: Vec<(&str, &str)>) -> (r: Self)
        ensures
            r@.len() == messages@.len(),
            forall|i: int|
                0 <= i < messages@.len() ==> #[trigger] r@[i] == (
                    messages@[i].0@,
                    messages@[i].1@,
                ),
    {
        let mut formatted: Vec<OpenAIMessage> = Vec::new();
        let n = messages.len();
        let mut i: usize = 0;
        while i < n
            invariant
                n == messages@.len(),
                i <= n,
                formatted@.len() == i,
                forall|j: int|
                    0 <= j < i ==> (#[trigger] formatted@[j])@ == (
                        messages@[j].0@,
                        messages@[j].1@,
                    ),
            decreases n - i,
        {
            let pair = messages[i];
            formatted.push(OpenAIMessage::from(pair));
            i = i + 1;
        }
        Self { messages: formatted }
    }
}

impl Messages for OpenAIMessages {
    type Item = OpenAIMessage;

    open spec fn transcript_view(&self) -> Seq<(Seq<char>, Seq<char>)> {
        self@
    }

    fn add_message(&mut self, role: &str, content: &str) {
        self.messages.push(OpenAIMessage::from((role, content)));
        proof {
            assert(self@ =~= old(self)@.push((role@, content@)));
        }
    }

    fn list_messages(&self) -> (r: Vec<OpenAIMessage>) {
        let mut snapshot: Vec<OpenAIMessage> = Vec::new();
        let n = self.messages.len();
        let mut i: usize = 0;
        while i < n
            invariant
                n == self.messages@.len(),
                i <= n,
                snapshot@.len() == i,
                forall|j: int|
                    0 <= j < i ==> (#[trigger] snapshot@[j])@ == self.messages@[j]@,
            decreases n - i,
        {
            let msg = &self.messages[i];
            snapshot.push(OpenAIMessage { role: msg.role.clone(), content: msg.content.clone() });
            i = i + 1;
        }
        snapshot
    }
}

/// The serialized form this provider posts: a model name and the
/// transcript's messages.
pub struct OpenAICompletionRequest {
    model: String,
    messages: Vec<OpenAIMessage>,
}

impl View for OpenAICompletionRequest {
    type V = (Seq<char>, Seq<(Seq<char>, Seq<char>)>);

    closed spec fn view(&self) -> (Seq<char>, Seq<(Seq<char>, Seq<char>)>) {
        (self.model@, Seq::new(self.messages@.len(), |i: int| self.messages@[i]@))
    }
}

impl OpenAICompletionRequest {
    /// Pairs a serialized model name with a transcript's messages.
    pub fn new(model: String, messages: OpenAIMessages) -> (r: Self)
        ensures
            r@.0 == model@,
            r@.1 == messages@,
    {
        let r = Self { model, messages: messages.messages };
        proof {
            assert(r@.1 =~= messages@);
        }
        r
    }

    /// Serializes the request as its JSON wire form.  This always
    /// succeeds; the error arm only keeps the serializer's failure
    /// taxonomy, reporting the encoding failure's message text.
    pub fn to_json(&self) -> (r: Result<String, String>)
        ensures
            r is Ok,
            r matches Ok(p) ==> p@ == request_json(self@.0, self@.1),
    {
        let model_lit = match json_quote(self.model.as_str()) {
            Ok(p) => p,
            Err(e) => {
                return Err(e);
            },
        };
        let mut body = "{\"model\":".to_owned();
        body.append(model_lit.as_str());
        body.append(",\"messages\":[");
        proof {
            assert(self@.1.take(0) =~= Seq::<(Seq<char>, Seq<char>)>::empty());
            assert(body@ =~= "{\"model\":"@ + json_string_of(self@.0) + ",\"messages\":["@
                + entries_json(self@.1.take(0)));
        }
        let n = self.messages.len();
        let mut i: usize = 0;
        while i < n
            invariant
                n == self.messages@.len(),
                n == self@.1.len(),
                i <= n,
                body@ == "{\"model\":"@ + json_string_of(self@.0) + ",\"messages\":["@
                    + entries_json(self@.1.take(i as int)),
            decreases n - i,
        {
            if i > 0 {
                body.append(",");
            }
            let role_lit = match json_quote(self.messages[i].role.as_str()) {
                Ok(p) => p,
                Err(e) => {
                    return Err(e);
                },
            };
            let content_lit = match json_quote(self.messages[i].content.as_str()) {
                Ok(p) => p,
                Err(e) => {
                    return Err(e);
                },
            };
            body.append("{\"role\":");
            body.append(role_lit.as_str());
            body.append(",\"content\":");
            body.append(content_lit.as_str());
            body.append("}");
            proof {
                assert(self@.1[i as int] == self.messages@[i as int]@);
                lemma_entries_json_step(self@.1, i as int);
                assert(message_json(self@.1[i as int].0, self@.1[i as int].1) =~= "{\"role\":"@
                    + json_string_of(self.messages@[i as int].role@) + ",\"content\":"@
                    + json_string_of(self.messages@[i as int].content@) + "}"@);
                assert(body@ =~= "{\"model\":"@ + json_string_of(self@.0) + ",\"messages\":["@
                    + entries_json(self@.1.take(i + 1)));
            }
            i = i + 1;
        }
        body.append("]}");
        proof {
            assert(self@.1.take(n as int) =~= self@.1);
            assert(body@ =~= request_json(self@.0, self@.1));
        }
        Ok(body)
    }
}

/// What the provider prints for one transport outcome: the raw body on
/// HTTP success, a message with the status code and body on rejection,
/// and a message with the transport's description on failure.
pub open spec fn outcome_text(o: TransportOutcome) -> Seq<char> {
    match o {
        TransportOutcome::Response { status, body } => {
            if 200 <= status < 300 {
                body@
            } else {
                "Error: "@ + dec_str(status as nat) + " "@ + body@
            }
        },
        TransportOutcome::Failure { description } => "Request failed: "@ + description@,
    }
}

/// What the provider prints when the request cannot be serialized.
pub open spec fn serialize_failure_text(e: Seq<char>) -> Seq<char> {
    "Error serializing request: "@ + e
}

/// Renders one transport outcome as the text handed back to the caller.
pub fn render_outcome(o: TransportOutcome) -> (r: String)
    ensures
        r@ == outcome_text(o),
{
    match o {
        TransportOutcome::Response { status, body } => {
            if 200 <= status && status < 300 {
                body
            } else {
                let mut s = "Error: ".to_owned();
                push_dec_u16(&mut s, status);
                s.append(" ");
                s.append(body.as_str());
                proof {
                    assert(s@ =~= "Error: "@ + dec_str(status as nat) + " "@ + body@);
                }
                s
            }
        },
        TransportOutcome::Failure { description } => {
            let mut s = "Request failed: ".to_owned();
            s.append(description.as_str());
            s
        },
    }
}

/// Renders a serialization failure as the text handed back to the caller.
pub fn render_serialize_failure(e: &str) -> (r: String)
    ensures
        r@ == serialize_failure_text(e@),
{
    let mut s = "Error serializing request: ".to_owned();
    s.append(e);
    s
}

/// The Authorization header value for a credential: the Bearer scheme.
pub open spec fn bearer_of(key: Seq<char>) -> Seq<char> {
    "Bearer "@ + key
}

/// Builds the Authorization header value carrying `key`.
pub fn bearer_header(key: &str) -> (r: String)
    ensures
        r@ == bearer_of(key@),
{
    let mut s = "Bearer ".to_owned();
    s.append(key);
    s
}

/// The OpenAI-style provider client: a model selector, a fixed
/// completion endpoint, and a mutable credential.
pub struct OpenAIClient {
    model: OpenAIModel,
    completion_endpoint: String,
    api_key: String,
}

impl OpenAIClient {
    /// Builds a client for the given model and credential, pointed at
    /// the provider's fixed chat-completion endpoint.
    pub fn new(model: OpenAIModel, api_key: String) -> (r: Self)
        ensures
            r.api_key_view() == api_key@,
            r.config_view() == (model.name_view(), "https://api.openai.com/v1/chat/completions"@),
    {
        Self {
            model,
            completion_endpoint: "https://api.openai.com/v1/chat/completions".to_owned(),
            api_key,
        }
    }
}

impl LLMClient for OpenAIClient {
    closed spec fn api_key_view(&self) -> Seq<char> {
        self.api_key@
    }

    closed spec fn config_view(&self) -> (Seq<char>, Seq<char>) {
        (self.model.name_view(), self.completion_endpoint@)
    }

    /// Every response is the rendering of some transport outcome; the
    /// request itself always serializes, so no other text can come back.
    open spec fn completion_post(&self, response: Seq<char>) -> bool {
        exists|o: TransportOutcome| response == #[trigger] outcome_text(o)
    }

    fn set_api_key(&mut self, api_key: &str) {
        self.api_key = api_key.to_owned();
    }

    fn get_api_key(&self) -> (r: &str) {
        self.api_key.as_str()
    }

    fn create_completion<T: Transport, M: Messages>(
        &self,
        transport: &mut T,
        messages: &M,
    ) -> (r: String) {
        let listed = messages.list_messages();
        let mut converted: Vec<OpenAIMessage> = Vec::new();
        let n = listed.len();
        let mut i: usize = 0;
        while i < n
            invariant
                n == listed@.len(),
                n == messages.transcript_view().len(),
                i <= n,
                converted@.len() == i,
                forall|j: int|
                    0 <= j < n ==> (#[trigger] listed@[j]).role_view()
                        == messages.transcript_view()[j].0 && listed@[j].content_view()
                        == messages.transcript_view()[j].1,
                forall|j: int|
                    0 <= j < i ==> (#[trigger] converted@[j])@ == (
                        messages.transcript_view()[j].0,
                        messages.transcript_view()[j].1,
                    ),
            decreases n - i,
        {
            let msg = &listed[i];
            proof {
                assert((listed@[i as int]).role_view() == messages.transcript_view()[i as int].0);
                assert((listed@[i as int]).content_view() == messages.transcript_view()[
                    i as int
                ].1);
            }
            converted.push(OpenAIMessage::from((msg.role(), msg.content())));
            i = i + 1;
        }
        let body_messages = OpenAIMessages { messages: converted };
        proof {
            // What goes on the wire is the transcript, verbatim and in order.
            assert(body_messages@ =~= messages.transcript_view());
        }
        let request = OpenAICompletionRequest::new(self.model.to_string(), body_messages);
        proof {
            assert(request@.0 == self.model.name_view());
            assert(request@.1 == messages.transcript_view());
        }
        let payload = match request.to_json() {
            Ok(p) => p,
            Err(e) => {
                // Unreachable: to_json always succeeds; kept so a
                // failure would still degrade to printable text.
                return render_serialize_failure(e.as_str());
            },
        };
        let authorization = bearer_header(self.api_key.as_str());
        proof {
            assert(authorization@ == bearer_of(self.api_key_view()));
        }
        let outcome = transport.post(
            self.completion_endpoint.as_str(),
            authorization.as_str(),
            payload.as_str(),
        );
        let rendered = render_outcome(outcome);
        proof {
            assert(rendered@ == outcome_text(outcome));
        }
        rendered
    }
}

} // verus!
