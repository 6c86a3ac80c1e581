//! Image inputs and their normalization into wire parameters.
//!
//! A caller supplies an image either as a remote URL or as inline
//! base64-encoded bytes; normalization turns the input into exactly one
//! wire key under a field prefix, or rejects it before any request is
//! built.

use vstd::prelude::*;
use vstd::string::StringExecFns;

use crate::codec::{base64_decode, check_url, decode_base64, url_parse_ok};
use crate::error::ImagePigError;
use crate::json::{JsonObject, JsonScalar, ScalarValue};

verus! {

/// A caller-supplied image: a remote URL string, or a byte sequence holding
/// base64-encoded image data.
pub enum ImageInput {
    RemoteReference(String),
    InlineBytes(Vec<u8>),
}

/// Whether normalization accepts the input: a remote reference must parse
/// as an absolute URL, inline bytes must decode as base64.
pub open spec fn image_input_ok(input: ImageInput) -> bool {
    match input {
        ImageInput::RemoteReference(s) => url_parse_ok(s@),
        ImageInput::InlineBytes(b) => base64_decode(b@) is Some,
    }
}

/// The wire key that the input sets under `prefix`: `{prefix}_url` for a
/// remote reference, `{prefix}_data` for inline bytes.
pub open spec fn image_key(input: ImageInput, prefix: Seq<char>) -> Seq<char> {
    match input {
        ImageInput::RemoteReference(_) => prefix + "_url"@,
        ImageInput::InlineBytes(_) => prefix + "_data"@,
    }
}

/// The wire value bound to that key: the URL string itself, or the decoded
/// bytes.
pub open spec fn image_value(input: ImageInput) -> ScalarValue {
    match input {
        ImageInput::RemoteReference(s) => ScalarValue::Str(s@),
        ImageInput::InlineBytes(b) => ScalarValue::Bytes(base64_decode(b@).unwrap()),
    }
}

/// The error that normalization reports when it rejects the input.
pub open spec fn is_image_error(e: ImagePigError, input: ImageInput) -> bool {
    match input {
        ImageInput::RemoteReference(s) => e is InvalidUrl && e->InvalidUrl_0@ == s@,
        ImageInput::InlineBytes(_) => e is InvalidInput,
    }
}

/// Normalize an image input into the parameter map under `param_name`.
///
/// On success exactly one key is added: `{param_name}_url` bound to the URL
/// string, or `{param_name}_data` bound to the decoded bytes. On failure
/// the map is unchanged and the call must be abandoned before any request
/// is sent.
pub fn prepare_image(input: &ImageInput, param_name: &str, params: &mut JsonObject) -> (r: Result<
    (),
    ImagePigError,
>)
    requires
        old(params).wf(),
    ensures
        final(params).wf(),
        r is Ok <==> image_input_ok(*input),
        r is Ok ==> final(params)@ == old(params)@.insert(
            image_key(*input, param_name@),
            image_value(*input),
        ),
        r is Err ==> final(params)@ == old(params)@ && is_image_error(r.unwrap_err(), *input),
{
    match input {
        ImageInput::RemoteReference(s) => {
            if check_url(s.as_str()) {
                let key = param_name.to_owned().concat("_url");
                params.insert(key, JsonScalar::Str(s.clone()));
                Ok(())
            } else {
                Err(ImagePigError::InvalidUrl(s.clone()))
            }
        },
        ImageInput::InlineBytes(b) => {
            match decode_base64(b.as_slice()) {
                Some(decoded) => {
                    let key = param_name.to_owned().concat("_data");
                    params.insert(key, JsonScalar::Bytes(decoded));
                    Ok(())
                },
                None => Err(ImagePigError::InvalidInput),
            }
        },
    }
}

} // verus!
