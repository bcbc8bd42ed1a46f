use vstd::prelude::*;

use crate::errors::PlayerError;

verus! {

/// The attribution field of a metadata reply.
#[derive(Debug)]
pub struct Owner {
    pub name: String,
}

/// What the metadata lookup of one content identifier reports: the
/// identifier itself, the display title, the stream-lookup identifier
/// and the attribution.
#[derive(Debug)]
pub struct VideoData {
    pub bvid: String,
    pub title: String,
    pub cid: i64,
    pub owner: Owner,
}

/// The string found in the JSON document `body` at the JSON Pointer
/// path `pointer`, if the document parses and that path holds a
/// string.  A function of the two texts alone.
pub uninterp spec fn json_text_at(body: Seq<char>, pointer: Seq<char>) -> Option<Seq<char>>;

/// Relies on serde_json (from_str, Value::pointer, Value::as_str):
/// parses `body` and reads the string at the JSON Pointer path
/// `pointer`, if the document parses and that path holds a string.
#[verifier::external_body]
fn json_string_at(body: &str, pointer: &str) -> (r: Option<String>)
    ensures
        r is Some <==> json_text_at(body@, pointer@) is Some,
        (r matches Some(s) ==> json_text_at(body@, pointer@) == Some(s@)),
{
    serde_json::from_str::<serde_json::Value>(body).ok().and_then(
        |doc| doc.pointer(pointer).and_then(|v| v.as_str()).map(|s| s.to_string()),
    )
}

/// The field path at which the stream-URL provider's reply carries
/// the playable URL, as a JSON Pointer.
pub open spec fn spec_audio_url_pointer() -> Seq<char> {
    "/data/dash/audio/0/baseUrl"@
}

pub fn audio_url_pointer() -> (r: &'static str)
    ensures
        r@ == spec_audio_url_pointer(),
{
    "/data/dash/audio/0/baseUrl"
}

/// Reads the raw stream URL out of the provider's metadata reply.
/// The reply is expected to carry it at `data.dash.audio[0].baseUrl`;
/// a body that does not parse, or parses without a string at that
/// path, is a fetch failure.
pub fn extract_audio_url(body: &str) -> (r: Result<String, PlayerError>)
    ensures
        (r matches Ok(u) ==> json_text_at(body@, spec_audio_url_pointer()) == Some(u@)),
        r is Err ==> r == Err::<String, PlayerError>(PlayerError::FetchFailed) && json_text_at(
            body@,
            spec_audio_url_pointer(),
        ) is None,
{
    match json_string_at(body, audio_url_pointer()) {
        Some(url) => Ok(url),
        None => Err(PlayerError::FetchFailed),
    }
}

} // verus!
