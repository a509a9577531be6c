//! What the stitching agent asks its models and reads from their replies:
//! the vision request for a clip's frame, the subject and action that the
//! vision model describes, the rationale of the director model, and the
//! fallbacks used when a model cannot be reached.
use vstd::prelude::*;
use base64::Engine;
use crate::editor::{parse_json_object, reply_json};
use crate::json::{json_contents, member, text_of, value_member, value_text};

verus! {

/// The text of member `key` of the JSON value read from a reply.
pub open spec fn reply_text(reply: Seq<char>, key: Seq<char>) -> Option<Seq<char>> {
    text_of(member(json_contents(reply_json(reply)), key))
}

/// A text, or a default in its absence.
pub open spec fn text_or(t: Option<Seq<char>>, default: Seq<char>) -> Seq<char> {
    match t {
        Some(s) => s,
        None => default,
    }
}

/// The text of member `key` of a reply's JSON value, or `default`.
fn reply_member_or(reply: &str, key: &str, default: &str) -> (r: String)
    ensures
        r@ == text_or(reply_text(reply@, key@), default@),
{
    let v = parse_json_object(reply);
    match value_member(&v, key) {
        Some(m) => match value_text(m) {
            Some(s) => s.to_owned(),
            None => default.to_owned(),
        },
        None => default.to_owned(),
    }
}

/// The subject and the action that a vision model's reply describes, with
/// "subject" and "moment" where the reply names none.
pub fn reply_subject_action(reply: &str) -> (r: (String, String))
    ensures
        r.0@ == text_or(reply_text(reply@, "subject"@), "subject"@),
        r.1@ == text_or(reply_text(reply@, "action"@), "moment"@),
{
    let subject = reply_member_or(reply, "subject", "subject");
    let action = reply_member_or(reply, "action", "moment");
    (subject, action)
}

/// The description of a clip: read from the vision model's reply, or
/// "unknown" and "moment" when the model could not be asked.
pub fn clip_description(reply: Option<&str>) -> (r: (String, String))
    ensures
        match reply {
            Some(t) => r.0@ == text_or(reply_text(t@, "subject"@), "subject"@)
                && r.1@ == text_or(reply_text(t@, "action"@), "moment"@),
            None => r.0@ == "unknown"@ && r.1@ == "moment"@,
        },
{
    match reply {
        Some(t) => reply_subject_action(t),
        None => ("unknown".to_owned(), "moment".to_owned()),
    }
}

/// The rationale that the director model's reply gives, or
/// "No rationale provided.".
pub fn plan_rationale(reply: &str) -> (r: String)
    ensures
        r@ == text_or(reply_text(reply@, "rationale"@), "No rationale provided."@),
{
    reply_member_or(reply, "rationale", "No rationale provided.")
}

/// The rationale of a stitch: the director's, or "Auto-ordered by visual
/// interest." when the director could not plan.
pub fn stitch_rationale(director: Option<String>) -> (r: String)
    ensures
        r@ == text_or(opt_view(director), "Auto-ordered by visual interest."@),
{
    match director {
        Some(t) => t,
        None => "Auto-ordered by visual interest.".to_owned(),
    }
}

/// The view of an optional text.
pub open spec fn opt_view(t: Option<String>) -> Option<Seq<char>> {
    match t {
        Some(s) => Some(s@),
        None => None,
    }
}

/// A stitch needs at least one clip: "No valid clips to stitch." otherwise.
pub fn clips_to_stitch(count: usize) -> (r: Result<(), String>)
    ensures
        r is Ok <==> count > 0,
        r matches Err(m) ==> m@ == "No valid clips to stitch."@,
{
    if count == 0 {
        return Err("No valid clips to stitch.".to_owned());
    }
    Ok(())
}

/// What the standard base64 engine of the `base64` crate (with padding)
/// gives for some bytes.
pub uninterp spec fn base64_standard(bytes: Seq<u8>) -> Seq<char>;

/// The length of padded base64 text for `n` bytes: four characters for
/// every started group of three bytes.
pub open spec fn base64_len(n: nat) -> nat {
    4 * ((n + 2) / 3)
}

/// Encodes bytes with `base64::engine::general_purpose::STANDARD`
/// (`Engine::encode`), whose output has `base64_len` characters. The length
/// is required to fit `usize`: the engine panics otherwise.
#[verifier::external_body]
fn encode_base64(bytes: &[u8]) -> (s: String)
    requires
        base64_len(bytes@.len()) <= usize::MAX,
    ensures
        s@ == base64_standard(bytes@),
        s@.len() == base64_len(bytes@.len()),
{
    base64::engine::general_purpose::STANDARD.encode(bytes)
}

/// The prompt that asks the vision model about a frame of the clip `name`.
pub open spec fn vision_prompt(name: Seq<char>) -> Seq<char> {
    "Look at this single video frame from a clip named \""@ + name
        + "\". Describe in 8 words what the SUBJECT and ACTION are. \
           Then rate the cinematic / storytelling INTEREST of this moment from 0 to 10 \
           (10 = fascinating, 0 = boring). \
           Reply with ONLY JSON like {\"subject\":\"...\",\"action\":\"...\",\"interest\":5}."@
}

/// The vision request for a frame of the clip `name`: the prompt, and the
/// frame's image bytes in base64.
pub fn vision_request(name: &str, frame: &[u8]) -> (r: (String, String))
    requires
        base64_len(frame@.len()) <= usize::MAX,
    ensures
        r.0@ == vision_prompt(name@),
        r.1@ == base64_standard(frame@),
{
    let mut prompt = "Look at this single video frame from a clip named \"".to_owned();
    prompt.append(name);
    prompt.append(
        "\". Describe in 8 words what the SUBJECT and ACTION are. \
           Then rate the cinematic / storytelling INTEREST of this moment from 0 to 10 \
           (10 = fascinating, 0 = boring). \
           Reply with ONLY JSON like {\"subject\":\"...\",\"action\":\"...\",\"interest\":5}.",
    );
    let image = encode_base64(frame);
    (prompt, image)
}

} // verus!
