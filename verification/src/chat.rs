//! One turn of the conversation loop: trim the input, stop on the exit
//! sentinel, otherwise append the input under the user role and ask the
//! provider for a completion.

use vstd::prelude::*;
use crate::api::{LLMClient, Messages, Transport};
use crate::text::{is_exit_input, trim_text, trimmed_of, is_exit_command};

verus! {

/// What one turn decided: end the conversation, or keep going with the
/// provider's response text.
pub enum TurnOutcome {
    Exit,
    Reply(String),
}

/// Drives one turn.  The raw input line is trimmed of surrounding
/// whitespace; if it is the exit sentinel (up to ASCII case) the turn
/// ends the conversation with the transcript untouched and no request
/// issued; otherwise the trimmed text joins the transcript under the
/// role "user" and the provider's rendering of the exchange is returned.
pub fn conversation_turn<C: LLMClient, T: Transport, M: Messages>(
    client: &C,
    transport: &mut T,
    transcript: &mut M,
    raw_input: &str,
) -> (r: TurnOutcome)
    ensures
        is_exit_input(trimmed_of(raw_input@)) ==> r is Exit && final(transcript).transcript_view()
            == old(transcript).transcript_view() && *final(transport) == *old(transport),
        !is_exit_input(trimmed_of(raw_input@)) ==> final(transcript).transcript_view()
            == old(transcript).transcript_view().push(("user"@, trimmed_of(raw_input@))) && (
        r matches TurnOutcome::Reply(text) && client.completion_post(text@)),
{
    let input = trim_text(raw_input);
    if is_exit_command(input) {
        return TurnOutcome::Exit;
    }
    transcript.add_message("user", input);
    let response = client.create_completion(transport, transcript);
    TurnOutcome::Reply(response)
}

} // verus!
