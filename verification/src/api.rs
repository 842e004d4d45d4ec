//! The provider-independent contracts: a role-tagged `Message`, an ordered
//! `Messages` transcript, a `Model` name, an `LLMClient` completion
//! capability, and the `Transport` over which a request travels.

use vstd::prelude::*;

verus! {

/// What one HTTP exchange came to: either the far end answered, with a
/// status code and a body, or the attempt failed with a description.
pub enum TransportOutcome {
    Response { status: u16, body: String },
    Failure { description: String },
}

/// The channel a completion request travels over.  Implementations live
/// outside the library (a real HTTP client, or a stub in tests); nothing
/// is assumed of what they return.
pub trait Transport {
    /// Issues one HTTP POST of `body` to `url` with the given
    /// `Authorization` header value and a JSON content type.
    fn post(&mut self, url: &str, authorization: &str, body: &str) -> TransportOutcome;
}

/// A single role-tagged utterance.
pub trait Message {
    /// The role tag, as characters.
    spec fn role_view(&self) -> Seq<char>;

    /// The content text, as characters.
    spec fn content_view(&self) -> Seq<char>;

    fn role(&self) -> (r: &str)
        ensures
            r@ == self.role_view(),
    ;

    fn content(&self) -> (r: &str)
        ensures
            r@ == self.content_view(),
    ;
}

/// An ordered conversation transcript.
pub trait Messages {
    /// The message record handed out when the transcript is listed.
    type Item: Message;

    /// The transcript as a sequence of (role, content) pairs, in
    /// insertion order.
    spec fn transcript_view(&self) -> Seq<(Seq<char>, Seq<char>)>;

    /// Appends one message at the end; the transcript is otherwise
    /// unchanged.  Any role tag is accepted.
    fn add_message(&mut self, role: &str, content: &str)
        ensures
            final(self).transcript_view() == old(self).transcript_view().push(
                (role@, content@),
            ),
    ;

    /// A snapshot of the transcript: independent copies of every message,
    /// in insertion order, with role and content verbatim.
    fn list_messages(&self) -> (r: Vec<Self::Item>)
        ensures
            r@.len() == self.transcript_view().len(),
            forall|i: int|
                0 <= i < r@.len() ==> (#[trigger] r@[i]).role_view()
                    == self.transcript_view()[i].0 && r@[i].content_view()
                    == self.transcript_view()[i].1,
    ;
}

/// The transcript reached from `t` by appending the messages of `added`
/// one at a time, in order, as `add_message` does.
pub open spec fn appended_transcript(
    t: Seq<(Seq<char>, Seq<char>)>,
    added: Seq<(Seq<char>, Seq<char>)>,
) -> Seq<(Seq<char>, Seq<char>)>
    decreases added.len(),
{
    if added.len() == 0 {
        t
    } else {
        appended_transcript(t, added.drop_last()).push(added.last())
    }
}

/// Law: for every sequence of appended messages, the transcript holds
/// exactly the messages already present followed by the appended ones, in
/// insertion order with role and content verbatim — so a snapshot of it
/// returns them unchanged and unreordered.
pub proof fn lemma_insertion_order(
    t: Seq<(Seq<char>, Seq<char>)>,
    added: Seq<(Seq<char>, Seq<char>)>,
)
    ensures
        appended_transcript(t, added) == t + added,
    decreases added.len(),
{
    if added.len() == 0 {
        assert(appended_transcript(t, added) =~= t + added);
    } else {
        lemma_insertion_order(t, added.drop_last());
        assert(appended_transcript(t, added) =~= t + added);
    }
}

/// A model selector that serializes to a vendor's model name.
pub trait Model {
    /// The wire name of the model.
    spec fn name_view(&self) -> Seq<char>;

    fn to_string(&self) -> (r: String)
        ensures
            r@ == self.name_view(),
    ;
}

/// The completion capability: hold a credential, and turn a transcript
/// into response text over a transport.
pub trait LLMClient {
    /// The stored credential, as characters.
    spec fn api_key_view(&self) -> Seq<char>;

    /// The provider's fixed configuration (model name and endpoint),
    /// which no method changes after construction.
    spec fn config_view(&self) -> (Seq<char>, Seq<char>);

    /// What this provider may return: every result is the rendering of
    /// some transport outcome.
    spec fn completion_post(&self, response: Seq<char>) -> bool;

    /// Replaces the stored credential verbatim; configuration is kept.
    fn set_api_key(&mut self, api_key: &str)
        ensures
            final(self).api_key_view() == api_key@,
            final(self).config_view() == old(self).config_view(),
    ;

    /// The stored credential, verbatim.
    fn get_api_key(&self) -> (r: &str)
        ensures
            r@ == self.api_key_view(),
    ;

    /// Builds this provider's request from the transcript's messages in
    /// order, posts it once over `transport`, and renders the outcome as
    /// text.  No failure escapes: the result is always a printable string.
    fn create_completion<T: Transport, M: Messages>(
        &self,
        transport: &mut T,
        messages: &M,
    ) -> (r: String)
        ensures
            self.completion_post(r@),
    ;
}

} // verus!
