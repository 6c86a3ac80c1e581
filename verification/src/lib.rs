//! Verified client library for a remote image-generation API.
//!
//! The library builds the JSON parameter maps that the API's endpoints
//! expect, exposes a handle over the decoded response body, and verifies
//! the retry protocol that materializes image bytes from that body.
//! Network and file transport live outside the library; everything the
//! library decides or computes is stated in contracts and proved.

pub mod builder;
pub mod client;
pub mod codec;
pub mod download;
pub mod error;
pub mod image;
pub mod json;
pub mod laws;
pub mod response;

pub use builder::{Proportion, UpscalingFactor};
pub use client::{ImagePig, PreparedRequest};
pub use download::{AttemptOutcome, Directive, DownloadRun, ScriptedAttempt, DOWNLOAD_ATTEMPTS};
pub use response::{APIResponse, DataRoute, TimeSpan};
pub use error::ImagePigError;
pub use image::ImageInput;
pub use json::{JsonObject, JsonScalar, ScalarValue};
