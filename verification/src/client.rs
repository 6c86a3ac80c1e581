//! The client: per-endpoint request building over an immutable
//! configuration.
//!
//! Each operation assembles the exact JSON body its endpoint expects and
//! the URL to POST it to; sending the request is the caller's transport's
//! job. Builder-managed keys are written after the caller's extra
//! parameters, so extras can never override them, and a rejected image
//! input fails the operation before any request exists.

use vstd::prelude::*;
use vstd::string::StringExecFns;

use crate::builder::{
    factor_value, opt_str_view, proportion_token, with_prompts, Proportion,
    UpscalingFactor,
};
use crate::error::ImagePigError;
use crate::image::{image_input_ok, image_key, image_value, is_image_error, prepare_image, ImageInput};
use crate::json::{JsonObject, JsonScalar, ScalarValue};

verus! {

/// A request ready to send: the full endpoint URL and the JSON body.
pub struct PreparedRequest {
    pub endpoint_url: String,
    pub body: JsonObject,
}

/// The client configuration: the API key sent with every request, and the
/// base URL of the service. Immutable once constructed.
pub struct ImagePig {
    pub api_key: String,
    pub api_url: String,
}

/// The extras map is well formed, when there is one.
pub open spec fn extra_wf(extra: Option<JsonObject>) -> bool {
    match extra {
        Some(m) => m.wf(),
        None => true,
    }
}

/// The map the extras contribute: theirs, or empty.
pub open spec fn extra_map(extra: Option<JsonObject>) -> Map<Seq<char>, ScalarValue> {
    match extra {
        Some(m) => m@,
        None => Map::empty(),
    }
}

/// The proportion actually sent: the caller's, or landscape.
pub open spec fn proportion_or_default(p: Option<Proportion>) -> Proportion {
    match p {
        Some(x) => x,
        None => Proportion::Landscape,
    }
}

/// The upscaling factor actually sent: the caller's, or two.
pub open spec fn factor_or_default(f: Option<UpscalingFactor>) -> UpscalingFactor {
    match f {
        Some(x) => x,
        None => UpscalingFactor::Two,
    }
}

/// An outpainting margin actually sent: the caller's, or zero.
pub open spec fn margin_or_zero(m: Option<u32>) -> u64 {
    match m {
        Some(v) => v as u64,
        None => 0,
    }
}

/// The extras as a body under construction.
fn take_extra(extra: Option<JsonObject>) -> (r: JsonObject)
    requires
        extra_wf(extra),
    ensures
        r.wf(),
        r@ == extra_map(extra),
{
    match extra {
        Some(m) => m,
        None => JsonObject::new(),
    }
}

/// Write the two prompt keys, the negative one always present.
fn insert_prompts(params: &mut JsonObject, prompt: &str, negative_prompt: Option<&str>)
    requires
        old(params).wf(),
    ensures
        final(params).wf(),
        final(params)@ == with_prompts(old(params)@, prompt@, opt_str_view(negative_prompt)),
{
    params.insert("positive_prompt".to_owned(), JsonScalar::Str(prompt.to_owned()));
    let negative = match negative_prompt {
        Some(s) => s.to_owned(),
        None => String::new(),
    };
    params.insert("negative_prompt".to_owned(), JsonScalar::Str(negative));
}

impl ImagePig {
    /// A client for the given key, on the given base URL or the production
    /// endpoint.
    pub fn new(api_key: String, api_url: Option<String>) -> (r: Self)
        ensures
            r.api_key@ == api_key@,
            r.api_url@ == match api_url {
                Some(u) => u@,
                None => "https://api.imagepig.com"@,
            },
    {
        let url = match api_url {
            Some(u) => u,
            None => "https://api.imagepig.com".to_owned(),
        };
        ImagePig { api_key, api_url: url }
    }

    /// The finished request for an endpoint.
    fn prepared(&self, endpoint: &str, body: JsonObject) -> (r: PreparedRequest)
        ensures
            r.endpoint_url@ == self.api_url@ + "/"@ + endpoint@,
            r.body == body,
    {
        let url = self.api_url.clone().concat("/").concat(endpoint);
        proof {
            assert(url@ =~= self.api_url@ + "/"@ + endpoint@);
        }
        PreparedRequest { endpoint_url: url, body }
    }

    /// The default text-to-image generation.
    pub fn default(
        &self,
        prompt: &str,
        negative_prompt: Option<&str>,
        extra_params: Option<JsonObject>,
    ) -> (r: Result<PreparedRequest, ImagePigError>)
        requires
            extra_wf(extra_params),
        ensures
            r is Ok,
            r.unwrap().body.wf(),
            r.unwrap().body@ == with_prompts(
                extra_map(extra_params),
                prompt@,
                opt_str_view(negative_prompt),
            ),
            r.unwrap().endpoint_url@ == self.api_url@ + "/"@ + ""@,
    {
        let mut params = take_extra(extra_params);
        insert_prompts(&mut params, prompt, negative_prompt);
        Ok(self.prepared("", params))
    }

    /// Text-to-image generation with the XL model.
    pub fn xl(
        &self,
        prompt: &str,
        negative_prompt: Option<&str>,
        extra_params: Option<JsonObject>,
    ) -> (r: Result<PreparedRequest, ImagePigError>)
        requires
            extra_wf(extra_params),
        ensures
            r is Ok,
            r.unwrap().body.wf(),
            r.unwrap().body@ == with_prompts(
                extra_map(extra_params),
                prompt@,
                opt_str_view(negative_prompt),
            ),
            r.unwrap().endpoint_url@ == self.api_url@ + "/"@ + "xl"@,
    {
        let mut params = take_extra(extra_params);
        insert_prompts(&mut params, prompt, negative_prompt);
        Ok(self.prepared("xl", params))
    }

    /// Text-to-image generation with the Flux model, with a proportion
    /// token, landscape when none is given. A text-prompt endpoint: the
    /// `negative_prompt` key is always present, here as the empty string.
    pub fn flux(
        &self,
        prompt: &str,
        proportion: Option<Proportion>,
        extra_params: Option<JsonObject>,
    ) -> (r: Result<PreparedRequest, ImagePigError>)
        requires
            extra_wf(extra_params),
        ensures
            r is Ok,
            r.unwrap().body.wf(),
            r.unwrap().body@ == with_prompts(extra_map(extra_params), prompt@, None).insert(
                "proportion"@,
                ScalarValue::Str(proportion_token(proportion_or_default(proportion))),
            ),
            r.unwrap().endpoint_url@ == self.api_url@ + "/"@ + "flux"@,
    {
        let mut params = take_extra(extra_params);
        insert_prompts(&mut params, prompt, None);
        let p = match proportion {
            Some(p) => p,
            None => Proportion::Landscape,
        };
        params.insert("proportion".to_owned(), JsonScalar::Str(p.as_str().to_owned()));
        Ok(self.prepared("flux", params))
    }

    /// Swap the face of the source image onto the target image.
    pub fn faceswap(
        &self,
        source_image: ImageInput,
        target_image: ImageInput,
        extra_params: Option<JsonObject>,
    ) -> (r: Result<PreparedRequest, ImagePigError>)
        requires
            extra_wf(extra_params),
        ensures
            r is Ok <==> image_input_ok(source_image) && image_input_ok(target_image),
            r is Ok ==> r.unwrap().body.wf() && r.unwrap().body@ == extra_map(extra_params).insert(
                image_key(source_image, "source_image"@),
                image_value(source_image),
            ).insert(image_key(target_image, "target_image"@), image_value(target_image)),
            r is Ok ==> r.unwrap().endpoint_url@ == self.api_url@ + "/"@ + "faceswap"@,
            r is Err ==> if !image_input_ok(source_image) {
                is_image_error(r->Err_0, source_image)
            } else {
                is_image_error(r->Err_0, target_image)
            },
    {
        let mut params = take_extra(extra_params);
        match prepare_image(&source_image, "source_image", &mut params) {
            Ok(_) => {},
            Err(e) => {
                return Err(e);
            },
        }
        match prepare_image(&target_image, "target_image", &mut params) {
            Ok(_) => {},
            Err(e) => {
                return Err(e);
            },
        }
        Ok(self.prepared("faceswap", params))
    }

    /// Upscale the image by a factor, two when none is given.
    pub fn upscale(
        &self,
        image: ImageInput,
        factor: Option<UpscalingFactor>,
        extra_params: Option<JsonObject>,
    ) -> (r: Result<PreparedRequest, ImagePigError>)
        requires
            extra_wf(extra_params),
        ensures
            r is Ok <==> image_input_ok(image),
            r is Ok ==> r.unwrap().body.wf() && r.unwrap().body@ == extra_map(extra_params).insert(
                image_key(image, "image"@),
                image_value(image),
            ).insert("upscaling_factor"@, ScalarValue::UInt(factor_value(factor_or_default(factor)))),
            r is Ok ==> r.unwrap().endpoint_url@ == self.api_url@ + "/"@ + "upscale"@,
            r is Err ==> is_image_error(r->Err_0, image),
    {
        let mut params = take_extra(extra_params);
        match prepare_image(&image, "image", &mut params) {
            Ok(_) => {},
            Err(e) => {
                return Err(e);
            },
        }
        let f = match factor {
            Some(f) => f,
            None => UpscalingFactor::Two,
        };
        params.insert("upscaling_factor".to_owned(), JsonScalar::UInt(f.value()));
        Ok(self.prepared("upscale", params))
    }

    /// Remove the image's background.
    pub fn cutout(&self, image: ImageInput, extra_params: Option<JsonObject>) -> (r: Result<
        PreparedRequest,
        ImagePigError,
    >)
        requires
            extra_wf(extra_params),
        ensures
            r is Ok <==> image_input_ok(image),
            r is Ok ==> r.unwrap().body.wf() && r.unwrap().body@ == extra_map(extra_params).insert(
                image_key(image, "image"@),
                image_value(image),
            ),
            r is Ok ==> r.unwrap().endpoint_url@ == self.api_url@ + "/"@ + "cutout"@,
            r is Err ==> is_image_error(r->Err_0, image),
    {
        let mut params = take_extra(extra_params);
        match prepare_image(&image, "image", &mut params) {
            Ok(_) => {},
            Err(e) => {
                return Err(e);
            },
        }
        Ok(self.prepared("cutout", params))
    }

    /// Replace whatever the selection prompt picks in the image by what the
    /// positive prompt describes.
    pub fn replace(
        &self,
        image: ImageInput,
        select_prompt: &str,
        positive_prompt: &str,
        negative_prompt: Option<&str>,
        extra_params: Option<JsonObject>,
    ) -> (r: Result<PreparedRequest, ImagePigError>)
        requires
            extra_wf(extra_params),
        ensures
            r is Ok <==> image_input_ok(image),
            r is Ok ==> r.unwrap().body.wf() && r.unwrap().body@ == with_prompts(
                extra_map(extra_params).insert(image_key(image, "image"@), image_value(image)).insert(
                    "select_prompt"@,
                    ScalarValue::Str(select_prompt@),
                ),
                positive_prompt@,
                opt_str_view(negative_prompt),
            ),
            r is Ok ==> r.unwrap().endpoint_url@ == self.api_url@ + "/"@ + "replace"@,
            r is Err ==> is_image_error(r->Err_0, image),
    {
        let mut params = take_extra(extra_params);
        match prepare_image(&image, "image", &mut params) {
            Ok(_) => {},
            Err(e) => {
                return Err(e);
            },
        }
        params.insert("select_prompt".to_owned(), JsonScalar::Str(select_prompt.to_owned()));
        insert_prompts(&mut params, positive_prompt, negative_prompt);
        Ok(self.prepared("replace", params))
    }

    /// Extend the image by the given margins, each zero when not given.
    pub fn outpaint(
        &self,
        image: ImageInput,
        positive_prompt: &str,
        negative_prompt: Option<&str>,
        top: Option<u32>,
        right: Option<u32>,
        bottom: Option<u32>,
        left: Option<u32>,
        extra_params: Option<JsonObject>,
    ) -> (r: Result<PreparedRequest, ImagePigError>)
        requires
            extra_wf(extra_params),
        ensures
            r is Ok <==> image_input_ok(image),
            r is Ok ==> r.unwrap().body.wf() && r.unwrap().body@ == with_prompts(
                extra_map(extra_params).insert(image_key(image, "image"@), image_value(image)),
                positive_prompt@,
                opt_str_view(negative_prompt),
            ).insert("top"@, ScalarValue::UInt(margin_or_zero(top))).insert(
                "right"@,
                ScalarValue::UInt(margin_or_zero(right)),
            ).insert("bottom"@, ScalarValue::UInt(margin_or_zero(bottom))).insert(
                "left"@,
                ScalarValue::UInt(margin_or_zero(left)),
            ),
            r is Ok ==> r.unwrap().endpoint_url@ == self.api_url@ + "/"@ + "outpaint"@,
            r is Err ==> is_image_error(r->Err_0, image),
    {
        let mut params = take_extra(extra_params);
        match prepare_image(&image, "image", &mut params) {
            Ok(_) => {},
            Err(e) => {
                return Err(e);
            },
        }
        insert_prompts(&mut params, positive_prompt, negative_prompt);
        params.insert("top".to_owned(), JsonScalar::UInt(margin_value(top)));
        params.insert("right".to_owned(), JsonScalar::UInt(margin_value(right)));
        params.insert("bottom".to_owned(), JsonScalar::UInt(margin_value(bottom)));
        params.insert("left".to_owned(), JsonScalar::UInt(margin_value(left)));
        Ok(self.prepared("outpaint", params))
    }
}

/// The margin sent on the wire.
fn margin_value(m: Option<u32>) -> (r: u64)
    ensures
        r == margin_or_zero(m),
{
    match m {
        Some(v) => v as u64,
        None => 0,
    }
}

} // verus!
