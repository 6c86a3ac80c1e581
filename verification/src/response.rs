//! The response handle: accessors over the decoded JSON body, and the
//! materialization protocol that turns the body into image bytes.

use vstd::prelude::*;
use vstd::utf8::encode_utf8;

use crate::codec::{base64_decode, decode_base64, parse_rfc3339, rfc3339_instant};
use crate::download::{run_download, spec_download_from, DownloadRun, ScriptedAttempt};
use crate::error::ImagePigError;
use crate::json::{JsonObject, JsonScalar, ScalarValue};

verus! {

/// The string bound to `key` in a body, if the key is there and holds a
/// string.
pub open spec fn str_field(m: Map<Seq<char>, ScalarValue>, key: Seq<char>) -> Option<Seq<char>> {
    if m.contains_key(key) && m[key] is Str {
        Some(m[key]->Str_0)
    } else {
        None
    }
}

/// The non-negative integer bound to `key` in a body, if the key is there
/// and holds one.
pub open spec fn uint_field(m: Map<Seq<char>, ScalarValue>, key: Seq<char>) -> Option<u64> {
    if m.contains_key(key) && m[key] is UInt {
        Some(m[key]->UInt_0)
    } else {
        None
    }
}

/// A signed span of time, in nanoseconds.
pub struct TimeSpan {
    pub nanos: i128,
}

/// The span between the `started_at` and `completed_at` instants of a body,
/// in nanoseconds: present exactly when both fields are strings that parse
/// as RFC 3339 timestamps.
pub open spec fn spec_duration(m: Map<Seq<char>, ScalarValue>) -> Option<int> {
    match (str_field(m, "started_at"@), str_field(m, "completed_at"@)) {
        (Some(s), Some(c)) => match (rfc3339_instant(s), rfc3339_instant(c)) {
            (Some(st), Some(ct)) => Some((ct.0 - st.0) * 1_000_000_000 + (ct.1 - st.1)),
            _ => None,
        },
        _ => None,
    }
}

/// Where a body's image bytes come from: an inline base64 string, a URL to
/// download from, or nowhere.
pub enum DataRoute {
    Inline(String),
    Download(String),
    Absent,
}

/// The raw decoded JSON body of an API call, with typed accessors.
pub struct APIResponse {
    content: JsonObject,
}

impl View for APIResponse {
    type V = Map<Seq<char>, ScalarValue>;

    closed spec fn view(&self) -> Map<Seq<char>, ScalarValue> {
        self.content@
    }
}

/// Decode the inline `image_data` payload of a body. A decode failure is an
/// `UnexpectedResponse`: the server handed back data it claims is base64.
pub fn decode_image_data(data: &str) -> (r: Result<Vec<u8>, ImagePigError>)
    ensures
        r is Ok <==> base64_decode(encode_utf8(data@)) is Some,
        r is Ok ==> r.unwrap()@ == base64_decode(encode_utf8(data@)).unwrap(),
        r is Err ==> r.unwrap_err() is UnexpectedResponse,
{
    match decode_base64(data.as_bytes()) {
        Some(bytes) => Ok(bytes),
        None => Err(ImagePigError::UnexpectedResponse),
    }
}

impl APIResponse {
    /// The handle is well formed: its body map is.
    pub closed spec fn wf(&self) -> bool {
        self.content.wf()
    }

    /// Wrap a decoded body.
    pub fn new(content: JsonObject) -> (r: Self)
        requires
            content.wf(),
        ensures
            r.wf(),
            r@ == content@,
    {
        APIResponse { content }
    }

    /// The result URL, from `image_url`.
    pub fn url(&self) -> (r: Option<String>)
        requires
            self.wf(),
        ensures
            r is Some <==> str_field(self@, "image_url"@) is Some,
            r is Some ==> r.unwrap()@ == str_field(self@, "image_url"@).unwrap(),
    {
        match self.content.get("image_url") {
            Some(JsonScalar::Str(s)) => Some(s.clone()),
            _ => None,
        }
    }

    /// The generation seed, from `seed`.
    pub fn seed(&self) -> (r: Option<u64>)
        requires
            self.wf(),
        ensures
            r == uint_field(self@, "seed"@),
    {
        match self.content.get("seed") {
            Some(JsonScalar::UInt(n)) => Some(*n),
            _ => None,
        }
    }

    /// The image's MIME type, from `mime_type`.
    pub fn mime_type(&self) -> (r: Option<String>)
        requires
            self.wf(),
        ensures
            r is Some <==> str_field(self@, "mime_type"@) is Some,
            r is Some ==> r.unwrap()@ == str_field(self@, "mime_type"@).unwrap(),
    {
        match self.content.get("mime_type") {
            Some(JsonScalar::Str(s)) => Some(s.clone()),
            _ => None,
        }
    }

    /// The span from `started_at` to `completed_at`: absent when either
    /// field is missing, not a string, or not an RFC 3339 timestamp.
    pub fn duration(&self) -> (r: Option<TimeSpan>)
        requires
            self.wf(),
        ensures
            r is Some <==> spec_duration(self@) is Some,
            r is Some ==> r.unwrap().nanos as int == spec_duration(self@).unwrap(),
    {
        let started = match self.content.get("started_at") {
            Some(JsonScalar::Str(s)) => s,
            _ => {
                return None;
            },
        };
        let completed = match self.content.get("completed_at") {
            Some(JsonScalar::Str(s)) => s,
            _ => {
                return None;
            },
        };
        let st = match parse_rfc3339(started.as_str()) {
            Some(t) => t,
            None => {
                return None;
            },
        };
        let ct = match parse_rfc3339(completed.as_str()) {
            Some(t) => t,
            None => {
                return None;
            },
        };
        let nanos: i128 = (ct.secs as i128 - st.secs as i128) * 1_000_000_000
            + (ct.nanos as i128 - st.nanos as i128);
        Some(TimeSpan { nanos })
    }

    /// Where this body's image bytes come from: inline data when
    /// `image_data` holds a string, else the URL when `image_url` holds
    /// one, else nowhere.
    pub fn data_route(&self) -> (r: DataRoute)
        requires
            self.wf(),
        ensures
            match str_field(self@, "image_data"@) {
                Some(d) => r is Inline && r->Inline_0@ == d,
                None => match str_field(self@, "image_url"@) {
                    Some(u) => r is Download && r->Download_0@ == u,
                    None => r is Absent,
                },
            },
    {
        match self.content.get("image_data") {
            Some(JsonScalar::Str(s)) => {
                return DataRoute::Inline(s.clone());
            },
            _ => {},
        }
        match self.content.get("image_url") {
            Some(JsonScalar::Str(s)) => DataRoute::Download(s.clone()),
            _ => DataRoute::Absent,
        }
    }

    /// Materialize this body's image bytes against a scripted transport.
    ///
    /// Inline data is decoded with no attempt and no pause; a result URL is
    /// downloaded under the retry protocol; a body with neither source
    /// fails with `MissingData` at once. This is the whole materialization
    /// decision; only the real GET and the real pause are outside it.
    pub fn data_scripted(&self, script: &Vec<ScriptedAttempt>) -> (r: DownloadRun)
        requires
            self.wf(),
        ensures
            match str_field(self@, "image_data"@) {
                Some(d) => {
                    &&& r.attempts == 0
                    &&& r.pauses == 0
                    &&& match base64_decode(encode_utf8(d)) {
                        Some(b) => r.result is Ok && r.result.unwrap()@ == b,
                        None => r.result is Err && r.result.unwrap_err() is UnexpectedResponse,
                    }
                },
                None => match str_field(self@, "image_url"@) {
                    Some(_) => ({
                        let (bytes, attempts, pauses) = spec_download_from(script@, 0);
                        &&& (r.result is Ok <==> bytes is Some)
                        &&& (r.result is Ok ==> r.result.unwrap()@ == bytes.unwrap())
                        &&& (r.result is Err ==> r.result.unwrap_err() is MissingData)
                        &&& r.attempts as int == attempts
                        &&& r.pauses as int == pauses
                    }),
                    None => {
                        &&& r.result is Err
                        &&& r.result.unwrap_err() is MissingData
                        &&& r.attempts == 0
                        &&& r.pauses == 0
                    },
                },
            },
    {
        match self.data_route() {
            DataRoute::Inline(data) => DownloadRun {
                result: decode_image_data(data.as_str()),
                attempts: 0,
                pauses: 0,
            },
            DataRoute::Download(_) => run_download(script),
            DataRoute::Absent => DownloadRun {
                result: Err(ImagePigError::MissingData),
                attempts: 0,
                pauses: 0,
            },
        }
    }
}

} // verus!
