//! The parameters of the tools and the messages of the Grok video API.

use vstd::prelude::*;

verus! {

/// The model that is used where none is named.
pub const DEFAULT_MODEL: &'static str = "grok-imagine-video";

/// What is submitted to the API.
#[derive(Debug)]
pub struct VideoGenerationRequest {
    pub model: String,
    pub prompt: String,
    pub duration: Option<u8>,
    pub aspect_ratio: Option<String>,
    pub resolution: Option<String>,
    pub image_url: Option<String>,
    pub video_url: Option<String>,
}

/// The reply to a submission.
#[derive(Debug)]
pub struct VideoSubmitResponse {
    pub request_id: String,
}

/// The reply to a poll.
#[derive(Debug)]
pub struct VideoPollResponse {
    pub status: String,
    pub request_id: Option<String>,
    pub video: Option<VideoData>,
    pub model: Option<String>,
}

/// A video that is ready: where it is found, and its seconds as they are shown.
#[derive(Debug)]
pub struct VideoData {
    pub url: String,
    pub duration: Option<String>,
}

/// The parameters of `generate_video`.
#[derive(Debug)]
pub struct GenerateVideoParams {
    pub prompt: String,
    pub duration: Option<u8>,
    pub aspect_ratio: Option<String>,
    pub resolution: Option<String>,
    pub model: Option<String>,
}

/// The parameters of `animate_image`.
#[derive(Debug)]
pub struct AnimateImageParams {
    pub image_url: String,
    pub prompt: String,
    pub duration: Option<u8>,
    pub aspect_ratio: Option<String>,
    pub resolution: Option<String>,
    pub model: Option<String>,
}

/// The parameters of `edit_video`.
#[derive(Debug)]
pub struct EditVideoParams {
    pub video_url: String,
    pub prompt: String,
    pub resolution: Option<String>,
    pub model: Option<String>,
}

/// What a request holds.
pub struct RequestView {
    pub model: Seq<char>,
    pub prompt: Seq<char>,
    pub duration: Option<u8>,
    pub aspect_ratio: Option<Seq<char>>,
    pub resolution: Option<Seq<char>>,
    pub image_url: Option<Seq<char>>,
    pub video_url: Option<Seq<char>>,
}

/// What an optional text holds.
pub open spec fn optional_text(text: Option<String>) -> Option<Seq<char>> {
    match text {
        Some(text) => Some(text@),
        None => None,
    }
}

/// The model that is used: the one that is named, else the default.
pub open spec fn chosen_model(model: Option<String>) -> Seq<char> {
    match model {
        Some(name) => name@,
        None => DEFAULT_MODEL@,
    }
}

impl View for VideoGenerationRequest {
    type V = RequestView;

    open spec fn view(&self) -> RequestView {
        RequestView {
            model: self.model@,
            prompt: self.prompt@,
            duration: self.duration,
            aspect_ratio: optional_text(self.aspect_ratio),
            resolution: optional_text(self.resolution),
            image_url: optional_text(self.image_url),
            video_url: optional_text(self.video_url),
        }
    }
}

impl RequestView {
    /// What the API accepts: parameters that it offers, and at most one source.
    pub open spec fn valid(self) -> bool {
        &&& crate::validate::valid_duration(self.duration)
        &&& crate::validate::valid_aspect_ratio(self.aspect_ratio)
        &&& crate::validate::valid_resolution(self.resolution)
        &&& self.image_url is None || self.video_url is None
    }
}

impl GenerateVideoParams {
    /// The request that the parameters ask for.
    pub open spec fn requested(self) -> RequestView {
        RequestView {
            model: chosen_model(self.model),
            prompt: self.prompt@,
            duration: self.duration,
            aspect_ratio: optional_text(self.aspect_ratio),
            resolution: optional_text(self.resolution),
            image_url: None,
            video_url: None,
        }
    }
}

impl AnimateImageParams {
    /// The request that the parameters ask for, but for the image.
    pub open spec fn requested(self) -> RequestView {
        RequestView {
            model: chosen_model(self.model),
            prompt: self.prompt@,
            duration: self.duration,
            aspect_ratio: optional_text(self.aspect_ratio),
            resolution: optional_text(self.resolution),
            image_url: None,
            video_url: None,
        }
    }
}

impl EditVideoParams {
    /// The request that the parameters ask for, but for the video. The duration
    /// and the aspect ratio are those of the video.
    pub open spec fn requested(self) -> RequestView {
        RequestView {
            model: chosen_model(self.model),
            prompt: self.prompt@,
            duration: None,
            aspect_ratio: None,
            resolution: optional_text(self.resolution),
            image_url: None,
            video_url: None,
        }
    }
}

/// The model that is used: the one that is named, else the default.
pub fn choose_model(model: Option<String>) -> (chosen: String)
    ensures
        chosen@ == chosen_model(model),
{
    match model {
        Some(name) => name,
        None => DEFAULT_MODEL.to_string(),
    }
}

/// An optional text, borrowed.
pub(crate) fn borrowed(text: &Option<String>) -> (part: Option<&str>)
    ensures
        crate::validate::contents(part) == optional_text(*text),
{
    match text {
        Some(text) => Some(text.as_str()),
        None => None,
    }
}

} // verus!
