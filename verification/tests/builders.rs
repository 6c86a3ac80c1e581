use imagepig::image::prepare_image;
use imagepig::{ImageInput, ImagePig, ImagePigError, JsonObject, JsonScalar, Proportion, UpscalingFactor};

const JANE: &str = "https://imagepig.com/static/jane.jpeg";

fn expect_str(body: &JsonObject, key: &str, want: &str) {
    match body.get(key) {
        Some(JsonScalar::Str(s)) => assert_eq!(s, want),
        _ => panic!("expected string under {}", key),
    }
}

fn expect_uint(body: &JsonObject, key: &str, want: u64) {
    match body.get(key) {
        Some(JsonScalar::UInt(n)) => assert_eq!(*n, want),
        _ => panic!("expected integer under {}", key),
    }
}

fn expect_bytes(body: &JsonObject, key: &str, want: &[u8]) {
    match body.get(key) {
        Some(JsonScalar::Bytes(b)) => assert_eq!(b.as_slice(), want),
        _ => panic!("expected bytes under {}", key),
    }
}

#[test]
fn remote_reference_sets_url_key_only() {
    let mut params = JsonObject::new();
    let input = ImageInput::RemoteReference(JANE.to_string());
    assert!(prepare_image(&input, "image", &mut params).is_ok());
    expect_str(&params, "image_url", JANE);
    assert!(!params.contains_key("image_data"));
}

#[test]
fn non_url_remote_reference_is_rejected() {
    let mut params = JsonObject::new();
    let input = ImageInput::RemoteReference("not a url".to_string());
    match prepare_image(&input, "image", &mut params) {
        Err(ImagePigError::InvalidUrl(s)) => assert_eq!(s, "not a url"),
        _ => panic!("expected InvalidUrl"),
    }
    assert!(!params.contains_key("image_url"));
    assert!(!params.contains_key("image_data"));
}

#[test]
fn inline_bytes_set_decoded_data_key_only() {
    let mut params = JsonObject::new();
    let input = ImageInput::InlineBytes(b"aGVsbG8=".to_vec());
    assert!(prepare_image(&input, "image", &mut params).is_ok());
    expect_bytes(&params, "image_data", b"hello");
    assert!(!params.contains_key("image_url"));
}

#[test]
fn invalid_base64_inline_bytes_are_rejected() {
    let mut params = JsonObject::new();
    let input = ImageInput::InlineBytes(b"!!not base64!!".to_vec());
    match prepare_image(&input, "image", &mut params) {
        Err(ImagePigError::InvalidInput) => {}
        _ => panic!("expected InvalidInput"),
    }
    assert!(!params.contains_key("image_data"));
}

#[test]
fn new_defaults_to_production_url() {
    let pig = ImagePig::new("k".to_string(), None);
    assert_eq!(pig.api_url, "https://api.imagepig.com");
    assert_eq!(pig.api_key, "k");
    let other = ImagePig::new("k".to_string(), Some("http://localhost:1".to_string()));
    assert_eq!(other.api_url, "http://localhost:1");
}

#[test]
fn default_builds_prompt_body() {
    let pig = ImagePig::new("k".to_string(), None);
    let req = pig.default("pig", Some("ugly"), None).unwrap();
    assert_eq!(req.endpoint_url, "https://api.imagepig.com/");
    expect_str(&req.body, "positive_prompt", "pig");
    expect_str(&req.body, "negative_prompt", "ugly");
}

#[test]
fn omitted_negative_prompt_is_sent_as_empty_string() {
    let pig = ImagePig::new("k".to_string(), None);
    let req = pig.default("pig", None, None).unwrap();
    expect_str(&req.body, "negative_prompt", "");
    let req = pig.xl("pig", None, None).unwrap();
    expect_str(&req.body, "negative_prompt", "");
    let req = pig.flux("pig", None, None).unwrap();
    expect_str(&req.body, "negative_prompt", "");
}

#[test]
fn extras_cannot_override_builder_keys() {
    let pig = ImagePig::new("k".to_string(), None);
    let mut extras = JsonObject::new();
    extras.insert("positive_prompt".to_string(), JsonScalar::Str("evil".to_string()));
    extras.insert("style".to_string(), JsonScalar::Str("oil".to_string()));
    let req = pig.default("pig", None, Some(extras)).unwrap();
    expect_str(&req.body, "positive_prompt", "pig");
    expect_str(&req.body, "style", "oil");
}

#[test]
fn xl_posts_to_xl_endpoint() {
    let pig = ImagePig::new("k".to_string(), None);
    let req = pig.xl("pig", None, None).unwrap();
    assert_eq!(req.endpoint_url, "https://api.imagepig.com/xl");
    expect_str(&req.body, "positive_prompt", "pig");
}

#[test]
fn flux_defaults_to_landscape() {
    let pig = ImagePig::new("k".to_string(), None);
    let req = pig.flux("pig", None, None).unwrap();
    assert_eq!(req.endpoint_url, "https://api.imagepig.com/flux");
    expect_str(&req.body, "positive_prompt", "pig");
    expect_str(&req.body, "negative_prompt", "");
    expect_str(&req.body, "proportion", "landscape");
    let req = pig.flux("pig", Some(Proportion::Wide), None).unwrap();
    expect_str(&req.body, "proportion", "wide");
    expect_str(&req.body, "negative_prompt", "");
}

#[test]
fn proportion_wire_tokens() {
    assert_eq!(Proportion::Landscape.as_str(), "landscape");
    assert_eq!(Proportion::Portrait.as_str(), "portrait");
    assert_eq!(Proportion::Square.as_str(), "square");
    assert_eq!(Proportion::Wide.as_str(), "wide");
}

#[test]
fn upscaling_factor_wire_values() {
    assert_eq!(UpscalingFactor::Two.value(), 2);
    assert_eq!(UpscalingFactor::Four.value(), 4);
    assert_eq!(UpscalingFactor::Eight.value(), 8);
}

#[test]
fn faceswap_sets_both_image_keys() {
    let pig = ImagePig::new("k".to_string(), None);
    let req = pig
        .faceswap(
            ImageInput::RemoteReference(JANE.to_string()),
            ImageInput::RemoteReference("https://imagepig.com/static/mona-lisa.jpeg".to_string()),
            None,
        )
        .unwrap();
    assert_eq!(req.endpoint_url, "https://api.imagepig.com/faceswap");
    expect_str(&req.body, "source_image_url", JANE);
    expect_str(&req.body, "target_image_url", "https://imagepig.com/static/mona-lisa.jpeg");
}

#[test]
fn faceswap_reports_bad_source_first() {
    let pig = ImagePig::new("k".to_string(), None);
    let r = pig.faceswap(
        ImageInput::RemoteReference("bad".to_string()),
        ImageInput::RemoteReference(JANE.to_string()),
        None,
    );
    match r {
        Err(ImagePigError::InvalidUrl(s)) => assert_eq!(s, "bad"),
        _ => panic!("expected InvalidUrl for the source image"),
    }
}

#[test]
fn upscale_defaults_to_factor_two() {
    let pig = ImagePig::new("k".to_string(), None);
    let req = pig.upscale(ImageInput::RemoteReference(JANE.to_string()), None, None).unwrap();
    assert_eq!(req.endpoint_url, "https://api.imagepig.com/upscale");
    expect_str(&req.body, "image_url", JANE);
    expect_uint(&req.body, "upscaling_factor", 2);
    let req = pig
        .upscale(ImageInput::RemoteReference(JANE.to_string()), Some(UpscalingFactor::Eight), None)
        .unwrap();
    expect_uint(&req.body, "upscaling_factor", 8);
}

#[test]
fn cutout_sets_image_key() {
    let pig = ImagePig::new("k".to_string(), None);
    let req = pig.cutout(ImageInput::RemoteReference(JANE.to_string()), None).unwrap();
    assert_eq!(req.endpoint_url, "https://api.imagepig.com/cutout");
    expect_str(&req.body, "image_url", JANE);
}

#[test]
fn replace_sets_selection_and_prompts() {
    let pig = ImagePig::new("k".to_string(), None);
    let req = pig
        .replace(ImageInput::RemoteReference(JANE.to_string()), "woman", "robot", None, None)
        .unwrap();
    assert_eq!(req.endpoint_url, "https://api.imagepig.com/replace");
    expect_str(&req.body, "image_url", JANE);
    expect_str(&req.body, "select_prompt", "woman");
    expect_str(&req.body, "positive_prompt", "robot");
    expect_str(&req.body, "negative_prompt", "");
}

#[test]
fn outpaint_margins_default_to_zero() {
    let pig = ImagePig::new("k".to_string(), None);
    let req = pig
        .outpaint(
            ImageInput::RemoteReference(JANE.to_string()),
            "dress",
            None,
            None,
            Some(500),
            None,
            None,
            None,
        )
        .unwrap();
    assert_eq!(req.endpoint_url, "https://api.imagepig.com/outpaint");
    expect_str(&req.body, "image_url", JANE);
    expect_str(&req.body, "positive_prompt", "dress");
    expect_str(&req.body, "negative_prompt", "");
    expect_uint(&req.body, "top", 0);
    expect_uint(&req.body, "right", 500);
    expect_uint(&req.body, "bottom", 0);
    expect_uint(&req.body, "left", 0);
}

#[test]
fn image_endpoints_reject_bad_input_before_any_request() {
    let pig = ImagePig::new("k".to_string(), None);
    let bad = || ImageInput::RemoteReference("::".to_string());
    assert!(matches!(pig.cutout(bad(), None), Err(ImagePigError::InvalidUrl(_))));
    assert!(matches!(pig.upscale(bad(), None, None), Err(ImagePigError::InvalidUrl(_))));
    assert!(matches!(
        pig.replace(bad(), "a", "b", None, None),
        Err(ImagePigError::InvalidUrl(_))
    ));
    assert!(matches!(
        pig.outpaint(bad(), "a", None, None, None, None, None, None),
        Err(ImagePigError::InvalidUrl(_))
    ));
    let not_base64 = ImageInput::InlineBytes(b"%%".to_vec());
    assert!(matches!(pig.cutout(not_base64, None), Err(ImagePigError::InvalidInput)));
}

#[test]
fn insert_overwrites_existing_key() {
    let mut obj = JsonObject::new();
    obj.insert("k".to_string(), JsonScalar::UInt(1));
    obj.insert("k".to_string(), JsonScalar::UInt(2));
    expect_uint(&obj, "k", 2);
    assert_eq!(obj.entries().len(), 1);
}
