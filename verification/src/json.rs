//! The completion request's wire format: a JSON object with a model name
//! and the transcript's messages in order.  The object's shape is built
//! and proved here; the escaping of each string literal is delegated to
//! the serialization library behind a trusted wrapper.

use vstd::prelude::*;

verus! {

/// What `serde_json::to_string` returns for a string slice: the JSON
/// string literal, quotes and escapes included, determined by the
/// characters alone.
pub uninterp spec fn json_string_of(s: Seq<char>) -> Seq<char>;

/// Relies on serde_json::to_string for `str`: encodes the slice as a
/// JSON string literal, a deterministic function of the characters.
/// For a string slice this always succeeds: the only error channel is
/// the writer, and the writer is an in-memory buffer.
#[verifier::external_body]
fn encode_json_str(s: &str) -> (r: Result<String, serde_json::Error>)
    ensures
        r is Ok,
        r matches Ok(p) ==> p@ == json_string_of(s@),
{
    serde_json::to_string(s)
}

#[verifier::external_type_specification]
#[verifier::external_body]
pub struct ExSerdeJsonError(serde_json::Error);

/// Relies on serde_json::Error's Display implementation for the message
/// text shown when serialization fails.
#[verifier::external_body]
fn json_error_text(e: &serde_json::Error) -> String {
    format!("{}", e)
}

/// Encodes a string slice as a JSON string literal; this always
/// succeeds, and the error arm only keeps the serializer's failure
/// taxonomy, mapping the outside error to its message text.
pub fn json_quote(s: &str) -> (r: Result<String, String>)
    ensures
        r is Ok,
        r matches Ok(p) ==> p@ == json_string_of(s@),
{
    match encode_json_str(s) {
        Ok(p) => Ok(p),
        Err(e) => Err(json_error_text(&e)),
    }
}

/// One transcript entry on the wire: an object with the role and content
/// as JSON string literals.
pub open spec fn message_json(role: Seq<char>, content: Seq<char>) -> Seq<char> {
    "{\"role\":"@ + json_string_of(role) + ",\"content\":"@ + json_string_of(content) + "}"@
}

/// The comma-separated entry list: one entry per message, in order.
pub open spec fn entries_json(msgs: Seq<(Seq<char>, Seq<char>)>) -> Seq<char>
    decreases msgs.len(),
{
    if msgs.len() == 0 {
        Seq::<char>::empty()
    } else if msgs.len() == 1 {
        message_json(msgs[0].0, msgs[0].1)
    } else {
        entries_json(msgs.drop_last()) + ","@ + message_json(msgs.last().0, msgs.last().1)
    }
}

/// The whole request body: the model name and the message array.
pub open spec fn request_json(model: Seq<char>, msgs: Seq<(Seq<char>, Seq<char>)>) -> Seq<char> {
    "{\"model\":"@ + json_string_of(model) + ",\"messages\":["@ + entries_json(msgs) + "]}"@
}

/// Extending the transcript by one message appends exactly one more
/// entry (preceded by a separator after the first) to the entry list.
pub proof fn lemma_entries_json_step(msgs: Seq<(Seq<char>, Seq<char>)>, i: int)
    requires
        0 <= i < msgs.len(),
    ensures
        i == 0 ==> entries_json(msgs.take(1)) == message_json(msgs[0].0, msgs[0].1),
        i > 0 ==> entries_json(msgs.take(i + 1)) == entries_json(msgs.take(i)) + ","@
            + message_json(msgs[i].0, msgs[i].1),
{
    let pre = msgs.take(i + 1);
    assert(pre.len() == i + 1);
    if i == 0 {
        assert(pre[0] == msgs[0]);
    } else {
        assert(pre.drop_last() =~= msgs.take(i));
        assert(pre.last() == msgs[i]);
    }
}

/// Where message `i`'s entry begins inside the entry list: after the
/// entries before it, and after the separator for every entry but the
/// first.
pub open spec fn entry_offset(msgs: Seq<(Seq<char>, Seq<char>)>, i: int) -> int {
    entries_json(msgs.take(i)).len() + if i == 0 {
        0int
    } else {
        1int
    }
}

/// The entry list embeds exactly one entry per message, each at its
/// offset: the characters there are that message's entry, verbatim.
pub proof fn lemma_entries_embed(msgs: Seq<(Seq<char>, Seq<char>)>, i: int)
    requires
        0 <= i < msgs.len(),
    ensures
        ({
            let es = entries_json(msgs);
            let entry = message_json(msgs[i].0, msgs[i].1);
            let off = entry_offset(msgs, i);
            &&& 0 <= off
            &&& off + entry.len() <= es.len()
            &&& es.subrange(off, off + entry.len()) == entry
        }),
    decreases msgs.len(),
{
    let es = entries_json(msgs);
    let entry = message_json(msgs[i].0, msgs[i].1);
    let off = entry_offset(msgs, i);
    reveal_strlit(",");
    if i == msgs.len() - 1 {
        if msgs.len() == 1 {
            assert(msgs.take(0) =~= Seq::<(Seq<char>, Seq<char>)>::empty());
            assert(entries_json(msgs.take(0)) =~= Seq::<char>::empty());
            assert(off == 0);
            assert(es == entry);
            assert(es.subrange(off, off + entry.len()) =~= entry);
        } else {
            assert(msgs.take(i) =~= msgs.drop_last());
            assert(msgs.last() == msgs[i]);
            assert(es == entries_json(msgs.drop_last()) + ","@ + entry);
            assert(es.subrange(off, off + entry.len()) =~= entry);
        }
    } else {
        let dl = msgs.drop_last();
        lemma_entries_embed(dl, i);
        assert(dl.take(i) =~= msgs.take(i));
        assert(dl[i] == msgs[i]);
        let es0 = entries_json(dl);
        assert(es == es0 + ","@ + message_json(msgs.last().0, msgs.last().1));
        assert(es.subrange(off, off + entry.len()) =~= es0.subrange(off, off + entry.len()));
    }
}

/// Law: the request body contains exactly one entry per message of the
/// transcript, in transcript order: message `i`'s entry stands verbatim
/// at its offset in the body, and the offsets grow strictly with `i`.
pub proof fn lemma_request_embeds_messages(
    model: Seq<char>,
    msgs: Seq<(Seq<char>, Seq<char>)>,
    i: int,
)
    requires
        0 <= i < msgs.len(),
    ensures
        ({
            let body = request_json(model, msgs);
            let entry = message_json(msgs[i].0, msgs[i].1);
            let lead = "{\"model\":"@ + json_string_of(model) + ",\"messages\":["@;
            let start = lead.len() + entry_offset(msgs, i);
            &&& 0 <= start
            &&& start + entry.len() <= body.len()
            &&& body.subrange(start, start + entry.len()) == entry
            &&& i > 0 ==> entry_offset(msgs, i - 1) < entry_offset(msgs, i)
        }),
{
    let body = request_json(model, msgs);
    let es = entries_json(msgs);
    let entry = message_json(msgs[i].0, msgs[i].1);
    let lead = "{\"model\":"@ + json_string_of(model) + ",\"messages\":["@;
    let off = entry_offset(msgs, i);
    let start = lead.len() + off;
    lemma_entries_embed(msgs, i);
    assert(body == lead + es + "]}"@);
    assert(body.subrange(start, start + entry.len()) =~= es.subrange(off, off + entry.len()));
    if i > 0 {
        reveal_strlit(",");
        lemma_entries_json_step(msgs, i - 1);
        if i - 1 == 0 {
            assert(entries_json(msgs.take(0)) =~= Seq::<char>::empty());
            assert(entry_offset(msgs, 0) == 0);
            assert(entry_offset(msgs, 1) >= 1);
        } else {
            assert(entries_json(msgs.take(i)).len() == entries_json(msgs.take(i - 1)).len() + 1
                + message_json(msgs[i - 1].0, msgs[i - 1].1).len());
        }
    }
}

} // verus!
