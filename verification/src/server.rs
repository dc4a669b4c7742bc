//! The server and its tools.
//!
//! A tool call is a [`ToolCall`]. It names the effect it waits for, the caller
//! answers with a [`ToolEvent`], and so on until the reply is there.

use crate::download::{DownloadEffect, DownloadError, DownloadEvent, DownloadState};
use crate::media::{local_file_to_data_uri, resolve_url, UrlSource};
use crate::path::Directory;
use crate::poll::{PollEffect, PollEvent, PollState};
use crate::request::{
    borrowed, choose_model, AnimateImageParams, EditVideoParams, GenerateVideoParams, VideoData,
    VideoGenerationRequest, VideoPollResponse,
};
use crate::validate::{validate_aspect_ratio, validate_duration, validate_resolution};
use vstd::prelude::*;

verus! {

/// The seconds within which a connection has to be made.
pub const CONNECT_TIMEOUT_SECS: u64 = 30;

/// The seconds within which an HTTP exchange has to end.
pub const HTTP_TIMEOUT_SECS: u64 = 300;

/// The name of the server.
pub const SERVER_NAME: &'static str = "mcp-server-grok-video";

/// How the server is used.
pub const INSTRUCTIONS: &'static str =
    "Grok video generation server. Use generate_video to create videos from text prompts, animate_image to turn still images into video clips, or edit_video to modify existing videos with natural language instructions.";

/// The server's settings.
pub struct GrokVideoServer {
    pub api_key: String,
    pub save_dir: Directory,
    pub poll_interval_secs: u64,
    pub poll_timeout_secs: u64,
}

/// What the server says of itself.
#[derive(Debug)]
pub struct ServerInfo {
    pub name: &'static str,
    pub instructions: &'static str,
}

/// The reply to a tool call.
#[derive(Debug)]
pub struct ToolReply {
    pub is_error: bool,
    pub contents: Vec<String>,
}

/// What a reply holds.
pub struct ReplyView {
    pub is_error: bool,
    pub contents: Seq<Seq<char>>,
}

/// What a local file is read for.
#[derive(Clone, Copy, Debug)]
pub enum SourceKind {
    Image,
    Video,
}

/// How a tool call stands.
#[derive(Debug)]
pub enum ToolCall {
    /// A local file is to be read; the request waits for it.
    Resolving { kind: SourceKind, path: String, draft: VideoGenerationRequest },
    /// The video is being generated.
    Generating(PollState),
    /// The video is being saved.
    Saving { video: VideoData, download: DownloadState },
    /// The reply is there.
    Finished(ToolReply),
}

/// What the caller reports to a tool call.
#[derive(Debug)]
pub enum ToolEvent {
    /// What the local file holds, or why it could not be read.
    File(Result<Vec<u8>, String>),
    /// An answer to the generation of the video.
    Poll(PollEvent),
    /// An answer to the download of the video.
    Download(DownloadEvent),
}

/// What a tool call asks of its caller.
#[derive(Debug)]
pub enum ToolEffect<'a> {
    /// Read a local file; answer with `File`.
    ReadFile { path: &'a str },
    /// Go on with the generation; answer with `Poll`.
    Poll(PollEffect<'a>),
    /// Go on with the download; answer with `Download`.
    Download(DownloadEffect<'a>),
    /// Nothing more is asked: this is the reply.
    Reply(&'a ToolReply),
}

/// What a list of texts holds.
pub open spec fn text_list(contents: Seq<String>) -> Seq<Seq<char>> {
    contents.map_values(|text: String| text@)
}

impl View for ToolReply {
    type V = ReplyView;

    open spec fn view(&self) -> ReplyView {
        ReplyView {
            is_error: self.is_error,
            contents: text_list(self.contents@),
        }
    }
}

/// The reply that reports an error.
pub open spec fn error_reply(text: Seq<char>) -> ReplyView {
    ReplyView { is_error: true, contents: seq![text] }
}

/// The reply that reports a video.
pub open spec fn success_reply(text: Seq<char>) -> ReplyView {
    ReplyView { is_error: false, contents: seq![text] }
}

/// The first fault of the parameters, if they have one: the duration is looked
/// at first, then the aspect ratio, then the resolution.
pub open spec fn parameter_fault(
    duration: Option<u8>,
    aspect_ratio: Option<Seq<char>>,
    resolution: Option<Seq<char>>,
) -> Option<Seq<char>> {
    if !crate::validate::valid_duration(duration) {
        Some(crate::validate::duration_fault(duration->0))
    } else if !crate::validate::valid_aspect_ratio(aspect_ratio) {
        Some(crate::validate::aspect_ratio_fault(aspect_ratio->0))
    } else if !crate::validate::valid_resolution(resolution) {
        Some(crate::validate::resolution_fault(resolution->0))
    } else {
        None
    }
}

/// The line on the length of a video, if it is known.
pub open spec fn duration_line(video: VideoData) -> Seq<char> {
    match video.duration {
        Some(seconds) => "\nDuration: "@ + seconds@ + "s"@,
        None => Seq::empty(),
    }
}

/// What is said of a video that was saved under the given path.
pub open spec fn saved_text(video: VideoData, path: Seq<char>) -> Seq<char> {
    "Saved: "@ + path + duration_line(video) + "\nURL: "@ + video.url@
}

/// What is said of a video that could not be saved.
pub open spec fn unsaved_text(video: VideoData, error: Seq<char>) -> Seq<char> {
    "URL: "@ + video.url@ + duration_line(video) + "\n(Download failed: "@ + error + ")"@
}

/// What is said of a video, given how the attempt to save it has ended.
pub open spec fn save_report(
    video: VideoData,
    outcome: Result<Seq<char>, DownloadError>,
    save_dir: Seq<char>,
) -> Seq<char> {
    match outcome {
        Ok(path) => saved_text(video, path),
        Err(error) => unsaved_text(video, error.text(save_dir)),
    }
}

/// A draft with its image or its video.
pub open spec fn with_source(
    draft: crate::request::RequestView,
    kind: SourceKind,
    url: Seq<char>,
) -> crate::request::RequestView {
    match kind {
        SourceKind::Image => crate::request::RequestView { image_url: Some(url), ..draft },
        SourceKind::Video => crate::request::RequestView { video_url: Some(url), ..draft },
    }
}

impl ToolCall {
    /// The call is over, with the given reply.
    pub open spec fn replies(self, reply: ReplyView) -> bool {
        self matches ToolCall::Finished(given) && given@ == reply
    }

    /// The call is about to submit the given request.
    pub open spec fn submits(self, request: crate::request::RequestView) -> bool {
        self matches ToolCall::Generating(PollState::Submitting { request: submitted })
            && submitted@ == request
    }

    /// The call goes on with a source: it submits the draft with an address as
    /// it stands, and first reads a local file.
    pub open spec fn resolves(
        self,
        draft: crate::request::RequestView,
        kind: SourceKind,
        url: Seq<char>,
    ) -> bool {
        if crate::media::remote(url) {
            self.submits(with_source(draft, kind, url))
        } else {
            self matches ToolCall::Resolving { kind: wanted, path, draft: waiting } && wanted
                == kind && path@ == url && waiting@ == draft
        }
    }

    /// The call after its generation has come to the given state: a failure is
    /// the reply, a video is saved, and anything else goes on.
    pub open spec fn follows_poll(self, poll: PollState) -> bool {
        match poll {
            PollState::Finished(Err(error)) => self.replies(error_reply(error.text())),
            PollState::Finished(Ok(response)) => match response.video {
                Some(video) => self matches ToolCall::Saving { video: kept, download } && kept
                    == video && download@ == (crate::download::DownloadView::Requesting {
                    url: video.url@,
                }),
                None => self.replies(success_reply("No video data returned by API."@)),
            },
            _ => self == ToolCall::Generating(poll),
        }
    }

    /// The call after the download of a video has come to the given state: the
    /// reply names the file, or the address and why there is no file.
    pub open spec fn follows_download(
        self,
        video: VideoData,
        download: crate::download::DownloadView,
        save_dir: Seq<char>,
    ) -> bool {
        match download {
            crate::download::DownloadView::Finished(outcome) => self.replies(
                success_reply(save_report(video, outcome, save_dir)),
            ),
            _ => self matches ToolCall::Saving { video: kept, download: state } && kept == video
                && state@ == download,
        }
    }
}

impl ToolEvent {
    /// A file that was read is small enough to stand in a data URI.
    pub open spec fn fits(self) -> bool {
        self matches ToolEvent::File(Ok(data)) ==> crate::media::fits_uri(data@.len())
    }
}

impl Clone for GrokVideoServer {
    fn clone(&self) -> (copy: GrokVideoServer)
        ensures
            copy == *self,
    {
        GrokVideoServer {
            api_key: self.api_key.clone(),
            save_dir: self.save_dir.clone(),
            poll_interval_secs: self.poll_interval_secs,
            poll_timeout_secs: self.poll_timeout_secs,
        }
    }
}

/// A list of one text.
fn single(text: String) -> (contents: Vec<String>)
    ensures
        text_list(contents@) == seq![text@],
{
    let contents = vec![text];
    assert(text_list(contents@) =~= seq![text@]);
    contents
}

/// The reply that reports an error.
fn failure(text: String) -> (reply: ToolReply)
    ensures
        reply@ == error_reply(text@),
{
    ToolReply { is_error: true, contents: single(text) }
}

/// The first fault of the parameters, if they have one.
fn check_parameters(
    duration: Option<u8>,
    aspect_ratio: &Option<String>,
    resolution: &Option<String>,
) -> (verdict: Result<(), String>)
    ensures
        match parameter_fault(
            duration,
            crate::request::optional_text(*aspect_ratio),
            crate::request::optional_text(*resolution),
        ) {
            Some(fault) => verdict matches Err(text) && text@ == fault,
            None => verdict is Ok,
        },
{
    if let Err(text) = validate_duration(duration) {
        return Err(text);
    }
    if let Err(text) = validate_aspect_ratio(borrowed(aspect_ratio)) {
        return Err(text);
    }
    validate_resolution(borrowed(resolution))
}

/// The draft of a request with its image or its video.
fn complete_draft(draft: VideoGenerationRequest, kind: SourceKind, url: String) -> (request:
    VideoGenerationRequest)
    ensures
        request@ == with_source(draft@, kind, url@),
{
    let mut request = draft;
    match kind {
        SourceKind::Image => {
            request.image_url = Some(url);
        },
        SourceKind::Video => {
            request.video_url = Some(url);
        },
    }
    request
}

/// Append the line on the length of a video, if it is known.
fn append_duration(text: &mut String, video: &VideoData)
    ensures
        final(text)@ == old(text)@ + duration_line(*video),
{
    match &video.duration {
        Some(seconds) => {
            text.append("\nDuration: ");
            text.append(seconds.as_str());
            text.append("s");
            assert(text@ =~= old(text)@ + duration_line(*video));
        },
        None => {
            assert(text@ =~= old(text)@ + duration_line(*video));
        },
    }
}

impl GrokVideoServer {
    /// The server with the given settings.
    pub fn new(
        api_key: String,
        save_dir: Directory,
        poll_interval_secs: u64,
        poll_timeout_secs: u64,
    ) -> (server: GrokVideoServer)
        ensures
            server == (GrokVideoServer { api_key, save_dir, poll_interval_secs, poll_timeout_secs }),
    {
        GrokVideoServer { api_key, save_dir, poll_interval_secs, poll_timeout_secs }
    }

    /// What the server says of itself.
    pub fn get_info(&self) -> (info: ServerInfo)
        ensures
            info.name@ == SERVER_NAME@,
            info.instructions@ == INSTRUCTIONS@,
    {
        ServerInfo { name: SERVER_NAME, instructions: INSTRUCTIONS }
    }

    /// Submit a request and poll until the video is there: the state that this
    /// begins with.
    pub fn submit_and_poll(&self, request: VideoGenerationRequest) -> (state: PollState)
        ensures
            state == (PollState::Submitting { request }),
    {
        PollState::Submitting { request }
    }

    /// Download a video and save it: the state that this begins with.
    pub fn download_video(&self, url: &str) -> (state: DownloadState)
        ensures
            state@ == (crate::download::DownloadView::Requesting { url: url@ }),
    {
        DownloadState::Requesting { url: url.to_string() }
    }

    /// What is said of a video and of the attempt to save it, or of a response
    /// without a video.
    pub fn format_video_response(
        &self,
        video: Option<(&VideoData, &Result<String, DownloadError>)>,
    ) -> (contents: Vec<String>)
        ensures
            text_list(contents@) == seq![
                match video {
                    Some((video, outcome)) => save_report(
                        *video,
                        crate::download::ending(*outcome),
                        self.save_dir.path@,
                    ),
                    None => "No video data returned by API."@,
                },
            ],
    {
        match video {
            Some((video, Ok(path))) => {
                let mut text = "Saved: ".to_string();
                text.append(path.as_str());
                append_duration(&mut text, video);
                text.append("\nURL: ");
                text.append(video.url.as_str());
                single(text)
            },
            Some((video, Err(error))) => {
                let mut text = "URL: ".to_string();
                text.append(video.url.as_str());
                append_duration(&mut text, video);
                text.append("\n(Download failed: ");
                text.append(error.message(self.save_dir.path.as_str()).as_str());
                text.append(")");
                single(text)
            },
            None => single("No video data returned by API.".to_string()),
        }
    }

    /// Generate a video from a text prompt.
    pub fn generate_video(&self, params: GenerateVideoParams) -> (call: ToolCall)
        ensures
            match parameter_fault(
                params.duration,
                crate::request::optional_text(params.aspect_ratio),
                crate::request::optional_text(params.resolution),
            ) {
                Some(fault) => call.replies(error_reply(fault)),
                None => call.submits(params.requested()),
            },
            call.sound(),
            call.in_order(),
    {
        if let Err(text) = check_parameters(
            params.duration,
            &params.aspect_ratio,
            &params.resolution,
        ) {
            return ToolCall::Finished(failure(text));
        }
        let request = VideoGenerationRequest {
            model: choose_model(params.model),
            prompt: params.prompt,
            duration: params.duration,
            aspect_ratio: params.aspect_ratio,
            resolution: params.resolution,
            image_url: None,
            video_url: None,
        };
        ToolCall::Generating(self.submit_and_poll(request))
    }

    /// Animate a still image.
    pub fn animate_image(&self, params: AnimateImageParams) -> (call: ToolCall)
        ensures
            match parameter_fault(
                params.duration,
                crate::request::optional_text(params.aspect_ratio),
                crate::request::optional_text(params.resolution),
            ) {
                Some(fault) => call.replies(error_reply(fault)),
                None => call.resolves(
                    params.requested(),
                    SourceKind::Image,
                    params.image_url@,
                ),
            },
            call.sound(),
            call.in_order(),
    {
        if let Err(text) = check_parameters(
            params.duration,
            &params.aspect_ratio,
            &params.resolution,
        ) {
            return ToolCall::Finished(failure(text));
        }
        let draft = VideoGenerationRequest {
            model: choose_model(params.model),
            prompt: params.prompt,
            duration: params.duration,
            aspect_ratio: params.aspect_ratio,
            resolution: params.resolution,
            image_url: None,
            video_url: None,
        };
        self.resolve(draft, SourceKind::Image, params.image_url.as_str())
    }

    /// Edit an existing video.
    pub fn edit_video(&self, params: EditVideoParams) -> (call: ToolCall)
        ensures
            match parameter_fault(None, None, crate::request::optional_text(params.resolution)) {
                Some(fault) => call.replies(error_reply(fault)),
                None => call.resolves(
                    params.requested(),
                    SourceKind::Video,
                    params.video_url@,
                ),
            },
            call.sound(),
            call.in_order(),
    {
        if let Err(text) = validate_resolution(borrowed(&params.resolution)) {
            return ToolCall::Finished(failure(text));
        }
        let draft = VideoGenerationRequest {
            model: choose_model(params.model),
            prompt: params.prompt,
            duration: None,
            aspect_ratio: None,
            resolution: params.resolution,
            image_url: None,
            video_url: None,
        };
        self.resolve(draft, SourceKind::Video, params.video_url.as_str())
    }

    /// Go on with a source.
    fn resolve(&self, draft: VideoGenerationRequest, kind: SourceKind, url: &str) -> (call:
        ToolCall)
        ensures
            call.resolves(draft@, kind, url@),
    {
        match resolve_url(url) {
            UrlSource::Remote(url) => ToolCall::Generating(
                self.submit_and_poll(complete_draft(draft, kind, url)),
            ),
            UrlSource::LocalFile(path) => ToolCall::Resolving { kind, path, draft },
        }
    }

    /// Whether a tool call can go from one state to another on an event.
    pub open spec fn leads(self, before: ToolCall, event: ToolEvent, after: ToolCall) -> bool {
        match (before, event) {
            (
                ToolCall::Resolving { kind, path, draft },
                ToolEvent::File(Ok(data)),
            ) => after.submits(
                with_source(draft@, kind, crate::media::file_uri(path@, data@)),
            ),
            (ToolCall::Resolving { path, .. }, ToolEvent::File(Err(error))) => after.replies(
                error_reply("Failed to read file "@ + path@ + ": "@ + error@),
            ),
            (ToolCall::Generating(poll), ToolEvent::Poll(event)) => after.follows_poll(
                poll.next(event, self.poll_timeout_secs),
            ),
            (
                ToolCall::Saving { video, download },
                ToolEvent::Download(event),
            ) => after.follows_download(
                video,
                download@.next(event, self.save_dir),
                self.save_dir.path@,
            ),
            _ => after == before,
        }
    }

    /// The state of a tool call after an event. An event that does not answer
    /// the effect that the call waits for changes nothing.
    pub fn step(&self, call: ToolCall, event: ToolEvent) -> (after: ToolCall)
        requires
            event.fits(),
        ensures
            self.leads(call, event, after),
    {
        match (call, event) {
            (ToolCall::Resolving { kind, path, draft }, ToolEvent::File(contents)) => {
                match local_file_to_data_uri(path.as_str(), contents) {
                    Ok(uri) => ToolCall::Generating(
                        self.submit_and_poll(complete_draft(draft, kind, uri)),
                    ),
                    Err(text) => ToolCall::Finished(failure(text)),
                }
            },
            (ToolCall::Generating(poll), ToolEvent::Poll(event)) => {
                match poll.step(event, self.poll_timeout_secs) {
                    PollState::Finished(Err(error)) => ToolCall::Finished(
                        failure(error.message()),
                    ),
                    PollState::Finished(Ok(response)) => self.save(response),
                    poll => ToolCall::Generating(poll),
                }
            },
            (ToolCall::Saving { video, download }, ToolEvent::Download(event)) => {
                match download.step(event, &self.save_dir) {
                    DownloadState::Finished(outcome) => ToolCall::Finished(
                        ToolReply {
                            is_error: false,
                            contents: self.format_video_response(Some((&video, &outcome))),
                        },
                    ),
                    download => ToolCall::Saving { video, download },
                }
            },
            (call, _) => call,
        }
    }

    /// Save the video of a response, if it has one.
    fn save(&self, response: VideoPollResponse) -> (call: ToolCall)
        ensures
            call.follows_poll(PollState::Finished(Ok(response))),
    {
        match response.video {
            Some(video) => {
                let download = self.download_video(video.url.as_str());
                ToolCall::Saving { video, download }
            },
            None => ToolCall::Finished(
                ToolReply { is_error: false, contents: self.format_video_response(None) },
            ),
        }
    }

    /// What a tool call waits for.
    pub fn effect<'a>(&self, call: &'a ToolCall) -> (effect: ToolEffect<'a>)
        ensures
            match *call {
                ToolCall::Resolving { path, .. } => effect matches ToolEffect::ReadFile {
                    path: wanted,
                } && wanted@ == path@,
                ToolCall::Generating(poll) => effect matches ToolEffect::Poll(inner)
                    && poll.asks(inner, self.api_key@, self.poll_interval_secs),
                ToolCall::Saving { download, .. } => effect matches ToolEffect::Download(inner)
                    && download@.asks(inner, self.save_dir),
                ToolCall::Finished(reply) => effect == ToolEffect::Reply(&reply),
            },
    {
        match call {
            ToolCall::Resolving { kind: _, path, draft: _ } => ToolEffect::ReadFile {
                path: path.as_str(),
            },
            ToolCall::Generating(poll) => ToolEffect::Poll(
                poll.effect(self.api_key.as_str(), self.poll_interval_secs),
            ),
            ToolCall::Saving { video: _, download } => ToolEffect::Download(
                download.effect(&self.save_dir),
            ),
            ToolCall::Finished(reply) => ToolEffect::Reply(reply),
        }
    }
}

impl GrokVideoServer {
    /// Whether a tool call can go through the given states on the given events.
    pub open spec fn is_run(self, calls: Seq<ToolCall>, events: Seq<ToolEvent>) -> bool {
        &&& calls.len() == events.len() + 1
        &&& forall|i: int|
            0 <= i < events.len() ==> self.leads(
                calls[i],
                #[trigger] events[i],
                calls[i + 1],
            )
    }
}

/// The events that answer the generation of a video, in order.
pub open spec fn poll_events(events: Seq<ToolEvent>) -> Seq<PollEvent>
    decreases events.len(),
{
    if events.len() == 0 {
        Seq::empty()
    } else {
        match events.last() {
            ToolEvent::Poll(event) => poll_events(events.drop_last()).push(event),
            _ => poll_events(events.drop_last()),
        }
    }
}

/// The events that answer the download of a video, in order.
pub open spec fn download_events(events: Seq<ToolEvent>) -> Seq<DownloadEvent>
    decreases events.len(),
{
    if events.len() == 0 {
        Seq::empty()
    } else {
        match events.last() {
            ToolEvent::Download(event) => download_events(events.drop_last()).push(event),
            _ => download_events(events.drop_last()),
        }
    }
}

impl ToolCall {
    /// What the call has submitted or is about to submit is valid.
    pub open spec fn sound(self) -> bool {
        match self {
            ToolCall::Resolving { draft, .. } => draft@.valid() && draft@.image_url is None
                && draft@.video_url is None,
            ToolCall::Generating(PollState::Submitting { request }) => request@.valid(),
            _ => true,
        }
    }

    /// What the call waits for is not over yet.
    pub open spec fn in_order(self) -> bool {
        match self {
            ToolCall::Generating(poll) => poll !is Finished,
            ToolCall::Saving { download, .. } => download@ !is Finished,
            _ => true,
        }
    }

    /// Whether an event answers the effect that the call waits for.
    pub open spec fn answered_by(self, event: ToolEvent) -> bool {
        match (self, event) {
            (ToolCall::Resolving { .. }, ToolEvent::File(_)) => true,
            (ToolCall::Generating(poll), ToolEvent::Poll(event)) => poll.answered_by(event),
            (ToolCall::Saving { download, .. }, ToolEvent::Download(event)) => download@.answered_by(
                event,
            ),
            _ => false,
        }
    }
}

/// A run without its last step is a run.
proof fn shorter_run(server: GrokVideoServer, calls: Seq<ToolCall>, events: Seq<ToolEvent>)
    requires
        server.is_run(calls, events),
        events.len() > 0,
    ensures
        server.is_run(calls.drop_last(), events.drop_last()),
        server.leads(calls.drop_last().last(), events.last(), calls.last()),
        calls.drop_last()[0] == calls[0],
{
    assert forall|i: int| 0 <= i < events.len() - 1 implies server.leads(
        calls.drop_last()[i],
        #[trigger] events.drop_last()[i],
        calls.drop_last()[i + 1],
    ) by {
        assert(events.drop_last()[i] == events[i]);
    }
    assert(server.leads(calls[events.len() - 1], events[events.len() - 1], calls[events.len() as int]));
}

/// A tool call that has started with a valid request never submits another.
pub proof fn requests_stay_valid(
    server: GrokVideoServer,
    calls: Seq<ToolCall>,
    events: Seq<ToolEvent>,
)
    requires
        server.is_run(calls, events),
        calls[0].sound(),
    ensures
        calls.last().sound(),
    decreases events.len(),
{
    if events.len() > 0 {
        shorter_run(server, calls, events);
        requests_stay_valid(server, calls.drop_last(), events.drop_last());
    }
}

/// A tool call never waits for something that is over: as soon as the generation
/// or the download ends, the call goes on.
pub proof fn calls_stay_in_order(
    server: GrokVideoServer,
    calls: Seq<ToolCall>,
    events: Seq<ToolEvent>,
)
    requires
        server.is_run(calls, events),
        calls[0].in_order(),
    ensures
        calls.last().in_order(),
    decreases events.len(),
{
    if events.len() > 0 {
        shorter_run(server, calls, events);
        calls_stay_in_order(server, calls.drop_last(), events.drop_last());
    }
}

/// An event that does not answer the effect that a tool call waits for changes
/// nothing; one that does moves the call on.
pub proof fn only_answers_move(
    server: GrokVideoServer,
    before: ToolCall,
    event: ToolEvent,
    after: ToolCall,
)
    requires
        server.leads(before, event, after),
        before.in_order(),
    ensures
        before.answered_by(event) ==> after != before,
        !before.answered_by(event) ==> match (before, after) {
            (ToolCall::Saving { video, download }, ToolCall::Saving { video: kept, download: same }) => video
                == kept && download@ == same@,
            _ => before == after,
        },
{
    if let (ToolCall::Generating(poll), ToolEvent::Poll(inner)) = (before, event) {
        crate::poll::only_answers_move(poll, inner, server.poll_timeout_secs);
    }
    if let (ToolCall::Saving { download, .. }, ToolEvent::Download(inner)) = (before, event) {
        crate::download::only_answers_move(download@, inner, server.save_dir);
    }
}

/// Once there is a reply, it stays.
pub proof fn reply_is_final(server: GrokVideoServer, calls: Seq<ToolCall>, events: Seq<ToolEvent>)
    requires
        server.is_run(calls, events),
        calls[0] is Finished,
    ensures
        calls.last() == calls[0],
    decreases events.len(),
{
    if events.len() > 0 {
        shorter_run(server, calls, events);
        reply_is_final(server, calls.drop_last(), events.drop_last());
    }
}

/// The events that answer the download of a video, from when its generation has
/// ended.
pub open spec fn saving_events(
    request: VideoGenerationRequest,
    events: Seq<ToolEvent>,
    timeout_seconds: u64,
) -> Seq<DownloadEvent>
    decreases events.len(),
{
    if events.len() == 0 {
        Seq::empty()
    } else {
        let earlier = saving_events(request, events.drop_last(), timeout_seconds);
        let poll = crate::poll::run(
            PollState::Submitting { request },
            poll_events(events.drop_last()),
            timeout_seconds,
        );
        match events.last() {
            ToolEvent::Download(event) if poll is Finished => earlier.push(event),
            _ => earlier,
        }
    }
}

/// A tool call from the submission to the reply: as long as the generation of the
/// video lasts, the call stands where its polling stands. If it fails, the reply
/// is the message of the error. If it succeeds, the reply is no error: it says
/// that there is no video, or the call follows the download to a reply that names
/// the file, or the address and why there is no file.
pub proof fn generation_decides_reply(
    server: GrokVideoServer,
    request: VideoGenerationRequest,
    calls: Seq<ToolCall>,
    events: Seq<ToolEvent>,
)
    requires
        server.is_run(calls, events),
        calls[0] == ToolCall::Generating(PollState::Submitting { request }),
    ensures
        ({
            let poll = crate::poll::run(
                PollState::Submitting { request },
                poll_events(events),
                server.poll_timeout_secs,
            );
            let saved = saving_events(request, events, server.poll_timeout_secs);
            match poll {
                PollState::Finished(Err(error)) => calls.last().replies(error_reply(error.text())),
                PollState::Finished(Ok(response)) => match response.video {
                    None => calls.last().replies(
                        success_reply("No video data returned by API."@),
                    ),
                    Some(video) => calls.last().follows_download(
                        video,
                        crate::download::run(
                            crate::download::DownloadView::Requesting { url: video.url@ },
                            saved,
                            server.save_dir,
                        ),
                        server.save_dir.path@,
                    ),
                },
                _ => calls.last() == ToolCall::Generating(poll) && saved.len() == 0,
            }
        }),
    decreases events.len(),
{
    let polls = poll_events(events);
    let saved = saving_events(request, events, server.poll_timeout_secs);
    if events.len() > 0 {
        let earlier = events.drop_last();
        shorter_run(server, calls, events);
        generation_decides_reply(server, request, calls.drop_last(), earlier);
        let saved_earlier = saving_events(request, earlier, server.poll_timeout_secs);
        match events.last() {
            ToolEvent::Poll(event) => {
                assert(polls.drop_last() =~= poll_events(earlier));
                assert(polls.last() == event);
            },
            ToolEvent::Download(event) => {
                if saved != saved_earlier {
                    assert(saved.drop_last() =~= saved_earlier);
                    assert(saved.last() == event);
                }
            },
            ToolEvent::File(_) => {},
        }
    }
}

/// The download of a video decides what the reply says: the call stands where
/// the download stands, and the reply names the file, or the address and why
/// there is no file.
pub proof fn download_decides_text(
    server: GrokVideoServer,
    video: VideoData,
    download: DownloadState,
    calls: Seq<ToolCall>,
    events: Seq<ToolEvent>,
)
    requires
        server.is_run(calls, events),
        calls[0] == (ToolCall::Saving { video, download }),
        download@ !is Finished,
    ensures
        ({
            let state = crate::download::run(
                download@,
                download_events(events),
                server.save_dir,
            );
            match calls.last() {
                ToolCall::Saving { video: kept, download: current } => kept == video && current@
                    == state && state !is Finished,
                ToolCall::Finished(reply) => state
                    matches crate::download::DownloadView::Finished(outcome) && reply@
                    == success_reply(save_report(video, outcome, server.save_dir.path@)),
                _ => false,
            }
        }),
    decreases events.len(),
{
    let downloads = download_events(events);
    if events.len() > 0 {
        shorter_run(server, calls, events);
        download_decides_text(server, video, download, calls.drop_last(), events.drop_last());
        if let ToolEvent::Download(event) = events.last() {
            assert(downloads.drop_last() =~= download_events(events.drop_last()));
            assert(downloads.last() == event);
        }
    }
}

/// A reply that names a file names one that holds the whole video: it lies in the
/// directory for saved files, and all that came in was written to it.
pub proof fn reply_names_saved_file(
    server: GrokVideoServer,
    video: VideoData,
    download: DownloadState,
    calls: Seq<ToolCall>,
    events: Seq<ToolEvent>,
)
    requires
        server.is_run(calls, events),
        calls[0] == (ToolCall::Saving { video, download }),
        download@ == (crate::download::DownloadView::Requesting { url: video.url@ }),
    ensures
        ({
            let downloads = download_events(events);
            let came = crate::download::received(download@, downloads, server.save_dir);
            calls.last() matches ToolCall::Finished(reply) ==> {
                ||| exists|stamp: crate::download::Stamp|
                    reply@ == success_reply(
                        saved_text(
                            video,
                            #[trigger] crate::download::final_path(
                                server.save_dir,
                                stamp,
                                crate::media::concatenation(came),
                            ),
                        ),
                    ) && crate::download::written(download@, downloads, server.save_dir) == came
                ||| exists|error: DownloadError|
                    reply@ == success_reply(
                        unsaved_text(video, #[trigger] error.text(server.save_dir.path@)),
                    )
            }
        }),
{
    let downloads = download_events(events);
    let came = crate::download::received(download@, downloads, server.save_dir);
    download_decides_text(server, video, download, calls, events);
    crate::download::saved_file_is_complete(video.url@, downloads, server.save_dir);
    if calls.last() is Finished {
        match crate::download::run(download@, downloads, server.save_dir) {
            crate::download::DownloadView::Finished(Ok(path)) => {
                let stamp = choose|stamp: crate::download::Stamp| #[trigger]
                    downloads.contains(DownloadEvent::Stamped(stamp)) && path
                        == crate::download::final_path(
                        server.save_dir,
                        stamp,
                        crate::media::concatenation(came),
                    );
                assert(path == crate::download::final_path(
                    server.save_dir,
                    stamp,
                    crate::media::concatenation(came),
                ));
            },
            crate::download::DownloadView::Finished(Err(error)) => {
                assert(calls.last()->Finished_0@ == success_reply(
                    unsaved_text(video, error.text(server.save_dir.path@)),
                ));
            },
            _ => {},
        }
    }
}

} // verus!
