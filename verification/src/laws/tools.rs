//! Laws of the tools: which requests are submitted, and what is replied.

use crate::download::{DownloadEffect, DownloadError, DownloadEvent, DownloadState};
use crate::path::Directory;
use crate::poll::{PollEffect, PollError, PollEvent, PollState};
use crate::request::{
    AnimateImageParams, EditVideoParams, GenerateVideoParams, VideoData, VideoGenerationRequest,
};
use crate::server::{
    GrokVideoServer, ServerInfo, SourceKind, ToolCall, ToolEffect, ToolEvent, ToolReply,
};
use vstd::prelude::*;

verus! {

/// Two optional texts hold the same, or nothing both of them.
pub open spec fn alike(a: Option<String>, b: Option<String>) -> bool {
    match (a, b) {
        (Some(left), Some(right)) => left@ == right@,
        (None, None) => true,
        _ => false,
    }
}

/// A duration that the tools accept.
pub open spec fn good_duration(duration: Option<u8>) -> bool {
    match duration {
        Some(seconds) => seconds >= 1 && seconds <= 15,
        None => true,
    }
}

/// An aspect ratio that the tools accept.
pub open spec fn good_ratio(ratio: Seq<char>) -> bool {
    ratio == "1:1"@ || ratio == "16:9"@ || ratio == "9:16"@ || ratio == "4:3"@ || ratio == "3:4"@
        || ratio == "3:2"@ || ratio == "2:3"@
}

/// A resolution that the tools accept.
pub open spec fn good_resolution(resolution: Seq<char>) -> bool {
    resolution == "480p"@ || resolution == "720p"@
}

/// An optional text meets a condition, where it is there.
pub open spec fn where_given(text: Option<String>, good: spec_fn(Seq<char>) -> bool) -> bool {
    match text {
        Some(text) => good(text@),
        None => true,
    }
}

/// Parameters that the tools accept.
pub open spec fn good_parameters(
    duration: Option<u8>,
    aspect_ratio: Option<String>,
    resolution: Option<String>,
) -> bool {
    &&& good_duration(duration)
    &&& where_given(aspect_ratio, |ratio: Seq<char>| good_ratio(ratio))
    &&& where_given(resolution, |chosen: Seq<char>| good_resolution(chosen))
}

/// A web address or a data URI.
pub open spec fn address(url: Seq<char>) -> bool {
    "http://"@.is_prefix_of(url) || "https://"@.is_prefix_of(url) || "data:"@.is_prefix_of(url)
}

/// A request has the model that was named, or `grok-imagine-video`.
pub open spec fn uses_model(request: VideoGenerationRequest, model: Option<String>) -> bool {
    match model {
        Some(name) => request.model@ == name@,
        None => request.model@ == "grok-imagine-video"@,
    }
}

/// Two requests are alike in all but their sources.
pub open spec fn alike_but_sources(a: VideoGenerationRequest, b: VideoGenerationRequest) -> bool {
    &&& a.model@ == b.model@
    &&& a.prompt@ == b.prompt@
    &&& a.duration == b.duration
    &&& alike(a.aspect_ratio, b.aspect_ratio)
    &&& alike(a.resolution, b.resolution)
}

/// A reply is an error, or not, and holds one given text.
pub open spec fn says(reply: ToolReply, is_error: bool, text: Seq<char>) -> bool {
    &&& reply.is_error == is_error
    &&& reply.contents@.len() == 1
    &&& reply.contents@[0]@ == text
}

/// The offered aspect ratios are the seven of the API.
proof fn ratios_are_offered(ratio: Seq<char>)
    ensures
        crate::validate::offered_aspect_ratios().contains(ratio) <==> good_ratio(ratio),
{
    let all = crate::validate::offered_aspect_ratios();
    assert(all[0] == "1:1"@ && all[1] == "16:9"@ && all[2] == "9:16"@ && all[3] == "4:3"@ && all[4]
        == "3:4"@ && all[5] == "3:2"@ && all[6] == "2:3"@);
}

/// The offered resolutions are the two of the API.
proof fn resolutions_are_offered(resolution: Seq<char>)
    ensures
        crate::validate::offered_resolutions().contains(resolution) <==> good_resolution(resolution),
{
    let all = crate::validate::offered_resolutions();
    assert(all[0] == "480p"@ && all[1] == "720p"@);
}

/// The lists of options as they are shown.
proof fn shown_options()
    ensures
        crate::text::joined(crate::validate::offered_aspect_ratios(), ", "@)
            == "1:1, 16:9, 9:16, 4:3, 3:4, 3:2, 2:3"@,
        crate::text::joined(crate::validate::offered_resolutions(), ", "@) == "480p, 720p"@,
{
    reveal_strlit("1:1");
    reveal_strlit("16:9");
    reveal_strlit("9:16");
    reveal_strlit("4:3");
    reveal_strlit("3:4");
    reveal_strlit("3:2");
    reveal_strlit("2:3");
    reveal_strlit("480p");
    reveal_strlit("720p");
    reveal_strlit(", ");
    reveal_strlit("1:1, 16:9, 9:16, 4:3, 3:4, 3:2, 2:3");
    reveal_strlit("480p, 720p");
    let all = crate::validate::offered_aspect_ratios();
    let sep = ", "@;
    let t1 = seq!["1:1"@];
    let t2 = t1.push("16:9"@);
    let t3 = t2.push("9:16"@);
    let t4 = t3.push("4:3"@);
    let t5 = t4.push("3:4"@);
    let t6 = t5.push("3:2"@);
    let t7 = t6.push("2:3"@);
    assert(all =~= t7);
    grows(t1, "16:9"@, sep);
    grows(t2, "9:16"@, sep);
    grows(t3, "4:3"@, sep);
    grows(t4, "3:4"@, sep);
    grows(t5, "3:2"@, sep);
    grows(t6, "2:3"@, sep);
    assert(crate::text::joined(t1, sep) == "1:1"@);
    assert(crate::text::joined(all, sep) =~= "1:1, 16:9, 9:16, 4:3, 3:4, 3:2, 2:3"@);
    let two = seq!["480p"@];
    grows(two, "720p"@, sep);
    assert(crate::validate::offered_resolutions() =~= two.push("720p"@));
    assert(crate::text::joined(crate::validate::offered_resolutions(), sep) =~= "480p, 720p"@);
}

/// A joined list grows by the separator and the item that is added.
proof fn grows(items: Seq<Seq<char>>, item: Seq<char>, separator: Seq<char>)
    requires
        items.len() > 0,
    ensures
        crate::text::joined(items.push(item), separator) == crate::text::joined(items, separator)
            + separator + item,
{
    assert(items.push(item).drop_last() =~= items);
}

/// A duration is accepted exactly if it is absent or from 1 to 15, and is
/// otherwise named in the message.
pub proof fn durations_from_1_to_15(
    duration: Option<u8>,
    digits: String,
    verdict: Result<(), String>,
)
    requires
        call_ensures(crate::validate::validate_duration, (duration,), verdict),
        duration matches Some(seconds) ==> call_ensures(
            crate::text::decimal_text,
            (seconds as u64,),
            digits,
        ),
    ensures
        verdict is Ok <==> good_duration(duration),
        verdict matches Err(text) ==> text@ == "duration must be between 1 and 15 seconds, got "@
            + digits@,
{
}

/// An aspect ratio is accepted exactly if it is absent or one of the seven, and
/// is otherwise quoted in the message.
pub proof fn aspect_ratios_of_the_api(ratio: Option<&str>, verdict: Result<(), String>)
    requires
        call_ensures(crate::validate::validate_aspect_ratio, (ratio,), verdict),
    ensures
        verdict is Ok <==> (ratio matches Some(text) ==> good_ratio(text@)),
        verdict matches Err(text) ==> text@ == "Invalid aspect_ratio \""@ + ratio->0@
            + "\". Valid options: "@ + "1:1, 16:9, 9:16, 4:3, 3:4, 3:2, 2:3"@,
{
    shown_options();
    if let Some(text) = ratio {
        ratios_are_offered(text@);
    }
}

/// A resolution is accepted exactly if it is absent or one of the two, and is
/// otherwise quoted in the message.
pub proof fn resolutions_of_the_api(resolution: Option<&str>, verdict: Result<(), String>)
    requires
        call_ensures(crate::validate::validate_resolution, (resolution,), verdict),
    ensures
        verdict is Ok <==> (resolution matches Some(text) ==> good_resolution(text@)),
        verdict matches Err(text) ==> text@ == "Invalid resolution \""@ + resolution->0@
            + "\". Valid options: "@ + "480p, 720p"@,
{
    shown_options();
    if let Some(text) = resolution {
        resolutions_are_offered(text@);
    }
}

/// What validation says of the parameters, in the terms of these laws.
proof fn faults_are_faults(
    duration: Option<u8>,
    aspect_ratio: Option<String>,
    resolution: Option<String>,
)
    ensures
        crate::server::parameter_fault(
            duration,
            crate::request::optional_text(aspect_ratio),
            crate::request::optional_text(resolution),
        ) is None <==> good_parameters(duration, aspect_ratio, resolution),
{
    if let Some(ratio) = aspect_ratio {
        ratios_are_offered(ratio@);
    }
    if let Some(chosen) = resolution {
        resolutions_are_offered(chosen@);
    }
}

/// The message for parameters that are refused: the first fault counts.
pub open spec fn refusal(
    duration: Option<u8>,
    aspect_ratio: Option<String>,
    resolution: Option<String>,
    digits: Seq<char>,
    text: Seq<char>,
) -> bool {
    if !good_duration(duration) {
        text == "duration must be between 1 and 15 seconds, got "@ + digits
    } else if !where_given(aspect_ratio, |ratio: Seq<char>| good_ratio(ratio)) {
        text == "Invalid aspect_ratio \""@ + aspect_ratio->0@ + "\". Valid options: "@
            + "1:1, 16:9, 9:16, 4:3, 3:4, 3:2, 2:3"@
    } else {
        text == "Invalid resolution \""@ + resolution->0@ + "\". Valid options: "@ + "480p, 720p"@
    }
}

/// A fault is told in its own words.
proof fn refusals_are_told(
    duration: Option<u8>,
    aspect_ratio: Option<String>,
    resolution: Option<String>,
    digits: String,
)
    requires
        duration matches Some(seconds) ==> call_ensures(
            crate::text::decimal_text,
            (seconds as u64,),
            digits,
        ),
    ensures
        crate::server::parameter_fault(
            duration,
            crate::request::optional_text(aspect_ratio),
            crate::request::optional_text(resolution),
        ) matches Some(fault) ==> refusal(duration, aspect_ratio, resolution, digits@, fault),
{
    shown_options();
    faults_are_faults(duration, aspect_ratio, resolution);
    if let Some(ratio) = aspect_ratio {
        ratios_are_offered(ratio@);
    }
    if let Some(chosen) = resolution {
        resolutions_are_offered(chosen@);
    }
}

/// `generate_video` submits what was asked for: the prompt, the duration, the
/// aspect ratio, the resolution and the model of the parameters, without a
/// source. Parameters that are not accepted are answered with the first fault.
pub proof fn generate_video_submits_what_was_asked(
    server: GrokVideoServer,
    params: GenerateVideoParams,
    digits: String,
    call: ToolCall,
)
    requires
        call_ensures(GrokVideoServer::generate_video, (&server, params), call),
        params.duration matches Some(seconds) ==> call_ensures(
            crate::text::decimal_text,
            (seconds as u64,),
            digits,
        ),
    ensures
        good_parameters(params.duration, params.aspect_ratio, params.resolution) ==> {
            &&& call matches ToolCall::Generating(PollState::Submitting { request })
            &&& uses_model(request, params.model)
            &&& request.prompt@ == params.prompt@
            &&& request.duration == params.duration
            &&& alike(request.aspect_ratio, params.aspect_ratio)
            &&& alike(request.resolution, params.resolution)
            &&& request.image_url is None
            &&& request.video_url is None
        },
        !good_parameters(params.duration, params.aspect_ratio, params.resolution) ==> {
            &&& call matches ToolCall::Finished(reply)
            &&& says(reply, true, reply.contents@[0]@)
            &&& refusal(
                params.duration,
                params.aspect_ratio,
                params.resolution,
                digits@,
                reply.contents@[0]@,
            )
        },
{
    faults_are_faults(params.duration, params.aspect_ratio, params.resolution);
    refusals_are_told(params.duration, params.aspect_ratio, params.resolution, digits);
    one_text_alone(call);
}

/// A reply whose view holds one text holds that text.
proof fn one_text_alone(call: ToolCall)
    ensures
        call matches ToolCall::Finished(reply) ==> {
            &&& reply.contents@.len() == reply@.contents.len()
            &&& reply@.contents.len() > 0 ==> reply.contents@[0]@ == reply@.contents[0]
            &&& reply.is_error == reply@.is_error
        },
{
}

/// `animate_image` asks for what the parameters name: a request with their
/// prompt, duration, aspect ratio, resolution and model. An address is submitted
/// as the image of the request, as it stands and as nothing else; for a local
/// file the draft waits, and the file is to be read as an image.
pub proof fn animate_image_submits_what_was_asked(
    server: GrokVideoServer,
    params: AnimateImageParams,
    digits: String,
    call: ToolCall,
)
    requires
        call_ensures(GrokVideoServer::animate_image, (&server, params), call),
        params.duration matches Some(seconds) ==> call_ensures(
            crate::text::decimal_text,
            (seconds as u64,),
            digits,
        ),
    ensures
        good_parameters(params.duration, params.aspect_ratio, params.resolution) && address(
            params.image_url@,
        ) ==> {
            &&& call matches ToolCall::Generating(PollState::Submitting { request })
            &&& uses_model(request, params.model)
            &&& request.prompt@ == params.prompt@
            &&& request.duration == params.duration
            &&& alike(request.aspect_ratio, params.aspect_ratio)
            &&& alike(request.resolution, params.resolution)
            &&& request.image_url matches Some(url)
            &&& url@ == params.image_url@
            &&& request.video_url is None
        },
        good_parameters(params.duration, params.aspect_ratio, params.resolution) && !address(
            params.image_url@,
        ) ==> {
            &&& call matches ToolCall::Resolving { kind, path, draft }
            &&& kind is Image
            &&& path@ == params.image_url@
            &&& uses_model(draft, params.model)
            &&& draft.prompt@ == params.prompt@
            &&& draft.duration == params.duration
            &&& alike(draft.aspect_ratio, params.aspect_ratio)
            &&& alike(draft.resolution, params.resolution)
            &&& draft.image_url is None
            &&& draft.video_url is None
        },
        !good_parameters(params.duration, params.aspect_ratio, params.resolution) ==> {
            &&& call matches ToolCall::Finished(reply)
            &&& says(reply, true, reply.contents@[0]@)
            &&& refusal(
                params.duration,
                params.aspect_ratio,
                params.resolution,
                digits@,
                reply.contents@[0]@,
            )
        },
{
    faults_are_faults(params.duration, params.aspect_ratio, params.resolution);
    refusals_are_told(params.duration, params.aspect_ratio, params.resolution, digits);
    one_text_alone(call);
}

/// `edit_video` asks for what the parameters name: a request with their prompt,
/// resolution and model, and no duration or aspect ratio of its own. An address
/// is submitted as the video of the request, as it stands and as nothing else;
/// for a local file the draft waits, and the file is to be read as a video.
pub proof fn edit_video_submits_what_was_asked(
    server: GrokVideoServer,
    params: EditVideoParams,
    call: ToolCall,
)
    requires
        call_ensures(GrokVideoServer::edit_video, (&server, params), call),
    ensures
        where_given(params.resolution, |chosen: Seq<char>| good_resolution(chosen)) && address(
            params.video_url@,
        ) ==> {
            &&& call matches ToolCall::Generating(PollState::Submitting { request })
            &&& uses_model(request, params.model)
            &&& request.prompt@ == params.prompt@
            &&& request.duration is None
            &&& request.aspect_ratio is None
            &&& alike(request.resolution, params.resolution)
            &&& request.video_url matches Some(url)
            &&& url@ == params.video_url@
            &&& request.image_url is None
        },
        where_given(params.resolution, |chosen: Seq<char>| good_resolution(chosen)) && !address(
            params.video_url@,
        ) ==> {
            &&& call matches ToolCall::Resolving { kind, path, draft }
            &&& kind is Video
            &&& path@ == params.video_url@
            &&& uses_model(draft, params.model)
            &&& draft.prompt@ == params.prompt@
            &&& draft.duration is None
            &&& draft.aspect_ratio is None
            &&& alike(draft.resolution, params.resolution)
            &&& draft.image_url is None
            &&& draft.video_url is None
        },
        !where_given(params.resolution, |chosen: Seq<char>| good_resolution(chosen)) ==> {
            &&& call matches ToolCall::Finished(reply)
            &&& says(
                reply,
                true,
                "Invalid resolution \""@ + params.resolution->0@ + "\". Valid options: "@
                    + "480p, 720p"@,
            )
        },
{
    shown_options();
    faults_are_faults(None, None, params.resolution);
    if let Some(chosen) = params.resolution {
        resolutions_are_offered(chosen@);
    }
    one_text_alone(call);
}

/// A model that is named is used, and `grok-imagine-video` otherwise.
pub proof fn named_model_is_used(model: Option<String>, chosen: String)
    requires
        call_ensures(crate::request::choose_model, (model,), chosen),
    ensures
        model matches Some(name) ==> chosen@ == name@,
        model is None ==> chosen@ == "grok-imagine-video"@,
{
}

/// A local file that was read becomes the source that it was read for, as the
/// data URI for it; everything else of the draft is submitted as it was. Why it
/// could not be read is the reply.
pub proof fn local_file_becomes_the_source(
    server: GrokVideoServer,
    kind: SourceKind,
    path: String,
    draft: VideoGenerationRequest,
    contents: Result<Vec<u8>, String>,
    name: &str,
    uri: Result<String, String>,
    after: ToolCall,
)
    requires
        call_ensures(
            GrokVideoServer::step,
            (&server, ToolCall::Resolving { kind, path, draft }, ToolEvent::File(contents)),
            after,
        ),
        name@ == path@,
        call_ensures(crate::media::local_file_to_data_uri, (name, contents), uri),
    ensures
        uri matches Ok(text) ==> {
            &&& after matches ToolCall::Generating(PollState::Submitting { request })
            &&& alike_but_sources(request, draft)
            &&& kind is Image ==> (request.image_url matches Some(url) && url@ == text@) && alike(
                request.video_url,
                draft.video_url,
            )
            &&& kind is Video ==> (request.video_url matches Some(url) && url@ == text@) && alike(
                request.image_url,
                draft.image_url,
            )
        },
        uri matches Err(text) ==> (after matches ToolCall::Finished(reply) && says(
            reply,
            true,
            text@,
        )),
{
    one_text_alone(after);
}

/// A tool call takes each step of its polling, with the timeout of the server. A
/// failure is replied as an error with its message; a response without a video
/// says so; and the video of a response is downloaded from its address.
pub proof fn call_takes_the_steps_of_polling(
    server: GrokVideoServer,
    poll: PollState,
    event: PollEvent,
    next: PollState,
    message: String,
    after: ToolCall,
)
    requires
        call_ensures(
            GrokVideoServer::step,
            (&server, ToolCall::Generating(poll), ToolEvent::Poll(event)),
            after,
        ),
        call_ensures(PollState::step, (poll, event, server.poll_timeout_secs), next),
        next matches PollState::Finished(Err(error)) ==> call_ensures(
            PollError::message,
            (&error,),
            message,
        ),
    ensures
        next !is Finished ==> after == ToolCall::Generating(next),
        next matches PollState::Finished(Err(_)) ==> (after matches ToolCall::Finished(reply)
            && says(reply, true, message@)),
        next matches PollState::Finished(Ok(response)) ==> match response.video {
            None => after matches ToolCall::Finished(reply) && says(
                reply,
                false,
                "No video data returned by API."@,
            ),
            Some(video) => after matches ToolCall::Saving { video: kept, download } && kept.url@
                == video.url@ && alike(kept.duration, video.duration) && (download
                matches DownloadState::Requesting { url } && url@ == video.url@),
        },
{
    one_text_alone(after);
}

/// What is said of a video: where it was saved or why it was not, its seconds if
/// they are known, and its address.
pub open spec fn video_text(
    video: VideoData,
    outcome: Result<String, DownloadError>,
    message: Seq<char>,
    text: Seq<char>,
) -> bool {
    let line = match video.duration {
        Some(seconds) => "\nDuration: "@ + seconds@ + "s"@,
        None => Seq::empty(),
    };
    match outcome {
        Ok(path) => text == "Saved: "@ + path@ + line + "\nURL: "@ + video.url@,
        Err(_) => text == "URL: "@ + video.url@ + line + "\n(Download failed: "@ + message + ")"@,
    }
}

/// A tool call takes each step of its download, in the directory of the server,
/// and keeps the video meanwhile. When it ends, the reply is no error: it names
/// the file and the address, or the address and what went wrong.
pub proof fn call_takes_the_steps_of_the_download(
    server: GrokVideoServer,
    video: VideoData,
    download: DownloadState,
    event: DownloadEvent,
    next: DownloadState,
    directory: &str,
    message: String,
    after: ToolCall,
)
    requires
        call_ensures(
            GrokVideoServer::step,
            (&server, ToolCall::Saving { video, download }, ToolEvent::Download(event)),
            after,
        ),
        call_ensures(DownloadState::step, (download, event, &server.save_dir), next),
        directory@ == server.save_dir.path@,
        next matches DownloadState::Finished(Err(error)) ==> call_ensures(
            DownloadError::message,
            (&error, directory),
            message,
        ),
    ensures
        next matches DownloadState::Finished(outcome) ==> {
            &&& after matches ToolCall::Finished(reply)
            &&& says(reply, false, reply.contents@[0]@)
            &&& video_text(video, outcome, message@, reply.contents@[0]@)
        },
        next !is Finished ==> (after matches ToolCall::Saving { video: kept, download: current }
            && kept == video && current@ == next@),
{
    one_text_alone(after);
}

/// What is said of a video, or of a response without one.
pub proof fn response_is_told(
    server: GrokVideoServer,
    video: Option<(&VideoData, &Result<String, DownloadError>)>,
    directory: &str,
    message: String,
    contents: Vec<String>,
)
    requires
        call_ensures(GrokVideoServer::format_video_response, (&server, video), contents),
        directory@ == server.save_dir.path@,
        video matches Some((_, Err(error))) ==> call_ensures(
            DownloadError::message,
            (error, directory),
            message,
        ),
    ensures
        contents@.len() == 1,
        video is None ==> contents@[0]@ == "No video data returned by API."@,
        video matches Some((data, outcome)) ==> video_text(
            *data,
            *outcome,
            message@,
            contents@[0]@,
        ),
{
    assert(crate::server::text_list(contents@).len() == contents@.len());
    assert(crate::server::text_list(contents@)[0] == contents@[0]@);
}

/// An event for another stage than the one that a tool call is in changes nothing,
/// and a reply is not changed by any event.
pub proof fn other_events_are_ignored(
    server: GrokVideoServer,
    call: ToolCall,
    event: ToolEvent,
    after: ToolCall,
)
    requires
        call_ensures(GrokVideoServer::step, (&server, call, event), after),
    ensures
        call is Finished ==> after == call,
        call is Resolving && event !is File ==> after == call,
        call is Generating && event !is Poll ==> after == call,
        call is Saving && event !is Download ==> after == call,
{
}

/// A tool call asks for the file that it waits for, for what its polling asks with
/// the key and the interval of the server, for what its download asks in the
/// directory of the server, or for nothing but to give its reply.
pub proof fn call_asks_for_its_stage(
    server: GrokVideoServer,
    call: ToolCall,
    effect: ToolEffect<'_>,
)
    requires
        call_ensures(GrokVideoServer::effect, (&server, &call), effect),
    ensures
        call matches ToolCall::Resolving { path, .. } ==> (effect matches ToolEffect::ReadFile {
            path: wanted,
        } && wanted@ == path@),
        call matches ToolCall::Finished(reply) ==> (effect matches ToolEffect::Reply(given)
            && *given == reply),
        call matches ToolCall::Generating(PollState::Submitting { request }) ==> (effect
            matches ToolEffect::Poll(PollEffect::Submit { url, authorization, request: sent })
            && url@ == "https://api.x.ai/v1/videos/generations"@ && authorization@ == "Bearer "@
            + server.api_key@ && *sent == request),
        call matches ToolCall::Generating(PollState::Polling { request_id, .. }) ==> (effect
            matches ToolEffect::Poll(PollEffect::Poll { url, authorization }) && url@
            == "https://api.x.ai/v1/videos"@ + "/"@ + request_id@ && authorization@ == "Bearer "@
            + server.api_key@),
        call matches ToolCall::Generating(PollState::Pausing { .. }) ==> effect
            == ToolEffect::Poll(PollEffect::Rest { seconds: server.poll_interval_secs }),
        call matches ToolCall::Generating(PollState::Checking { .. }) ==> effect
            == ToolEffect::Poll(PollEffect::ReadClock),
        call matches ToolCall::Generating(PollState::SubmitAccepted) ==> effect
            == ToolEffect::Poll(PollEffect::ReadSubmission),
        call matches ToolCall::Generating(PollState::PollAccepted { .. }) ==> effect
            == ToolEffect::Poll(PollEffect::ReadPoll),
        call matches ToolCall::Generating(PollState::SubmitRefused { .. }) ==> effect
            == ToolEffect::Poll(PollEffect::ReadText),
        call matches ToolCall::Generating(PollState::PollRefused { .. }) ==> effect
            == ToolEffect::Poll(PollEffect::ReadText),
        call matches ToolCall::Saving {
            download: DownloadState::Writing { chunk, .. },
            ..
        } ==> (effect matches ToolEffect::Download(DownloadEffect::WriteChunk(bytes)) && bytes@
            == chunk@),
        call matches ToolCall::Saving {
            download: DownloadState::Requesting { url },
            ..
        } ==> (effect matches ToolEffect::Download(DownloadEffect::Get { url: wanted }) && wanted@
            == url@),
        call matches ToolCall::Saving { download: DownloadState::Preparing, .. } ==> (effect
            matches ToolEffect::Download(DownloadEffect::MakeDirectory { path }) && path@
            == server.save_dir.path@),
        call matches ToolCall::Saving { .. } ==> effect is Download,
        call matches ToolCall::Generating(PollState::Finished(outcome)) ==> effect
            == ToolEffect::Poll(PollEffect::Finish(&outcome)),
{
}

/// Two effects of a download ask for the same.
pub open spec fn asks_the_same(a: DownloadEffect<'_>, b: DownloadEffect<'_>) -> bool {
    match (a, b) {
        (DownloadEffect::Get { url: left }, DownloadEffect::Get { url: right }) => left@ == right@,
        (
            DownloadEffect::MakeDirectory { path: left },
            DownloadEffect::MakeDirectory { path: right },
        ) => left@ == right@,
        (DownloadEffect::DrawStamp, DownloadEffect::DrawStamp) => true,
        (DownloadEffect::MakeFile { path: left }, DownloadEffect::MakeFile { path: right }) => left@
            == right@,
        (DownloadEffect::ReadChunk, DownloadEffect::ReadChunk) => true,
        (DownloadEffect::WriteChunk(left), DownloadEffect::WriteChunk(right)) => left@ == right@,
        (DownloadEffect::Flush, DownloadEffect::Flush) => true,
        (
            DownloadEffect::Rename { from: left_from, to: left_to },
            DownloadEffect::Rename { from: right_from, to: right_to },
        ) => left_from@ == right_from@ && left_to@ == right_to@,
        (DownloadEffect::Finish(Ok(left)), DownloadEffect::Finish(Ok(right))) => left@ == right@,
        (DownloadEffect::Finish(Err(left)), DownloadEffect::Finish(Err(right))) => *left == *right,
        _ => false,
    }
}

/// A tool call that saves a video asks for what the download asks for in the
/// directory of the server.
pub proof fn call_asks_what_its_download_asks(
    server: GrokVideoServer,
    video: VideoData,
    download: DownloadState,
    inner: DownloadEffect<'_>,
    effect: ToolEffect<'_>,
)
    requires
        call_ensures(
            GrokVideoServer::effect,
            (&server, &ToolCall::Saving { video, download }),
            effect,
        ),
        call_ensures(DownloadState::effect, (&download, &server.save_dir), inner),
    ensures
        effect matches ToolEffect::Download(asked) && asks_the_same(asked, inner),
{
}

/// A server has the settings that it was made with.
pub proof fn server_keeps_its_settings(
    api_key: String,
    save_dir: Directory,
    poll_interval_secs: u64,
    poll_timeout_secs: u64,
    server: GrokVideoServer,
)
    requires
        call_ensures(
            GrokVideoServer::new,
            (api_key, save_dir, poll_interval_secs, poll_timeout_secs),
            server,
        ),
    ensures
        server.api_key@ == api_key@,
        server.save_dir.path@ == save_dir.path@,
        server.save_dir.separator@ == save_dir.separator@,
        server.poll_interval_secs == poll_interval_secs,
        server.poll_timeout_secs == poll_timeout_secs,
{
}

/// A copy of a server has its settings.
pub proof fn server_is_copied(server: GrokVideoServer, copy: GrokVideoServer)
    requires
        call_ensures(GrokVideoServer::clone, (&server,), copy),
    ensures
        copy.api_key@ == server.api_key@,
        copy.save_dir.path@ == server.save_dir.path@,
        copy.save_dir.separator@ == server.save_dir.separator@,
        copy.poll_interval_secs == server.poll_interval_secs,
        copy.poll_timeout_secs == server.poll_timeout_secs,
{
}

/// A connection has 30 seconds to be made, and an exchange 300 seconds to end.
pub proof fn exchanges_are_limited()
    ensures
        crate::server::CONNECT_TIMEOUT_SECS == 30,
        crate::server::HTTP_TIMEOUT_SECS == 300,
{
}

/// What the server says of itself.
pub proof fn server_says_what_it_is(server: GrokVideoServer, info: ServerInfo)
    requires
        call_ensures(GrokVideoServer::get_info, (&server,), info),
    ensures
        info.name@ == "mcp-server-grok-video"@,
        info.instructions@
            == "Grok video generation server. Use generate_video to create videos from text prompts, animate_image to turn still images into video clips, or edit_video to modify existing videos with natural language instructions."@,
{
}

/// A request is submitted as it is, and a video downloaded from its address.
pub proof fn work_begins_with_what_is_given(
    server: GrokVideoServer,
    request: VideoGenerationRequest,
    url: &str,
    poll: PollState,
    download: DownloadState,
)
    requires
        call_ensures(GrokVideoServer::submit_and_poll, (&server, request), poll),
        call_ensures(GrokVideoServer::download_video, (&server, url), download),
    ensures
        poll == (PollState::Submitting { request }),
        download matches DownloadState::Requesting { url: address } && address@ == url@,
{
}

/// The options that are offered are those that are accepted.
pub proof fn offered_options(ratios: Vec<&'static str>, resolutions: Vec<&'static str>)
    requires
        call_ensures(crate::validate::valid_aspect_ratios, (), ratios),
        call_ensures(crate::validate::valid_resolutions, (), resolutions),
    ensures
        ratios@.len() == 7,
        ratios@[0]@ == "1:1"@ && ratios@[1]@ == "16:9"@ && ratios@[2]@ == "9:16"@ && ratios@[3]@
            == "4:3"@ && ratios@[4]@ == "3:4"@ && ratios@[5]@ == "3:2"@ && ratios@[6]@ == "2:3"@,
        resolutions@.len() == 2,
        resolutions@[0]@ == "480p"@ && resolutions@[1]@ == "720p"@,
{
    let ratio_texts = crate::text::texts(ratios@);
    let resolution_texts = crate::text::texts(resolutions@);
    assert(ratio_texts.len() == ratios@.len());
    assert(resolution_texts.len() == resolutions@.len());
    assert forall|i: int| 0 <= i < ratios@.len() implies #[trigger] ratios@[i]@
        == ratio_texts[i] by {}
    assert forall|i: int| 0 <= i < resolutions@.len() implies #[trigger] resolutions@[i]@
        == resolution_texts[i] by {}
}

} // verus!
