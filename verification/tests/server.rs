use grok_video::download::{DownloadEffect, DownloadError, DownloadEvent, Stamp};
use grok_video::path::Directory;
use grok_video::poll::{PollEffect, PollEvent};
use grok_video::request::{
    choose_model, AnimateImageParams, EditVideoParams, GenerateVideoParams, VideoData,
    VideoGenerationRequest, VideoPollResponse, VideoSubmitResponse,
};
use grok_video::server::{GrokVideoServer, ToolCall, ToolEffect, ToolEvent, ToolReply};
use grok_video::status::HttpStatus;

fn server() -> GrokVideoServer {
    let videos = Directory { path: "/videos".to_string(), separator: "/" };
    GrokVideoServer::new("key".to_string(), videos, 5, 600)
}

fn generate() -> GenerateVideoParams {
    GenerateVideoParams {
        prompt: "a cat".to_string(),
        duration: Some(6),
        aspect_ratio: Some("16:9".to_string()),
        resolution: Some("720p".to_string()),
        model: None,
    }
}

fn animate(image_url: &str) -> AnimateImageParams {
    AnimateImageParams {
        image_url: image_url.to_string(),
        prompt: "wind".to_string(),
        duration: None,
        aspect_ratio: None,
        resolution: None,
        model: Some("other".to_string()),
    }
}

fn edit(video_url: &str) -> EditVideoParams {
    EditVideoParams {
        video_url: video_url.to_string(),
        prompt: "brighter".to_string(),
        resolution: Some("480p".to_string()),
        model: None,
    }
}

fn submitted(call: &ToolCall) -> &VideoGenerationRequest {
    match server().effect(call) {
        ToolEffect::Poll(PollEffect::Submit { request, .. }) => request,
        other => panic!("nothing is submitted: {other:?}"),
    }
}

fn reply(call: &ToolCall) -> &ToolReply {
    match server().effect(call) {
        ToolEffect::Reply(reply) => reply,
        other => panic!("no reply yet: {other:?}"),
    }
}

fn error(call: &ToolCall) -> String {
    let reply = reply(call);
    assert!(reply.is_error);
    assert_eq!(reply.contents.len(), 1);
    reply.contents[0].clone()
}

fn success(call: &ToolCall) -> String {
    let reply = reply(call);
    assert!(!reply.is_error);
    assert_eq!(reply.contents.len(), 1);
    reply.contents[0].clone()
}

fn ok() -> HttpStatus {
    HttpStatus::from_u16(200).unwrap()
}

fn finish(call: ToolCall, video: Option<VideoData>) -> ToolCall {
    let events = vec![
        PollEvent::Replied(Ok(ok())),
        PollEvent::Submitted(Ok(VideoSubmitResponse { request_id: "r".to_string() })),
        PollEvent::Elapsed(0),
        PollEvent::Rested,
        PollEvent::Replied(Ok(ok())),
        PollEvent::Polled(Ok(VideoPollResponse {
            status: "done".to_string(),
            request_id: Some("r".to_string()),
            video,
            model: None,
        })),
    ];
    events
        .into_iter()
        .fold(call, |call, event| server().step(call, ToolEvent::Poll(event)))
}

fn video(duration: Option<&str>) -> VideoData {
    VideoData { url: "https://v/1".to_string(), duration: duration.map(str::to_string) }
}

#[test]
fn generated_request() {
    let call = server().generate_video(generate());
    let request = submitted(&call);
    assert_eq!(request.model, "grok-imagine-video");
    assert_eq!(request.prompt, "a cat");
    assert_eq!(request.duration, Some(6));
    assert_eq!(request.aspect_ratio.as_deref(), Some("16:9"));
    assert_eq!(request.resolution.as_deref(), Some("720p"));
    assert_eq!(request.image_url, None);
    assert_eq!(request.video_url, None);
}

#[test]
fn first_fault_is_reported() {
    let mut params = generate();
    params.duration = Some(20);
    params.aspect_ratio = Some("5:4".to_string());
    params.resolution = Some("4k".to_string());
    assert_eq!(
        error(&server().generate_video(params)),
        "duration must be between 1 and 15 seconds, got 20"
    );
    let mut params = generate();
    params.aspect_ratio = Some("5:4".to_string());
    params.resolution = Some("4k".to_string());
    assert_eq!(
        error(&server().generate_video(params)),
        "Invalid aspect_ratio \"5:4\". Valid options: 1:1, 16:9, 9:16, 4:3, 3:4, 3:2, 2:3"
    );
    let mut params = animate("https://i/1.png");
    params.resolution = Some("4k".to_string());
    assert_eq!(
        error(&server().animate_image(params)),
        "Invalid resolution \"4k\". Valid options: 480p, 720p"
    );
    let mut params = edit("https://v/1.mp4");
    params.resolution = Some("4k".to_string());
    assert_eq!(
        error(&server().edit_video(params)),
        "Invalid resolution \"4k\". Valid options: 480p, 720p"
    );
}

#[test]
fn animated_image_from_the_web() {
    let call = server().animate_image(animate("https://i/1.png"));
    let request = submitted(&call);
    assert_eq!(request.model, "other");
    assert_eq!(request.image_url.as_deref(), Some("https://i/1.png"));
    assert_eq!(request.video_url, None);
}

#[test]
fn animated_image_from_a_file() {
    let call = server().animate_image(animate("cat.png"));
    assert!(matches!(server().effect(&call), ToolEffect::ReadFile { path: "cat.png" }));
    let call = server().step(call, ToolEvent::File(Ok(b"hello".to_vec())));
    let request = submitted(&call);
    assert_eq!(request.image_url.as_deref(), Some("data:image/png;base64,aGVsbG8="));
    assert_eq!(request.video_url, None);
    assert_eq!(request.prompt, "wind");
}

#[test]
fn edited_video_from_a_file() {
    let call = server().edit_video(edit("clip.mp4"));
    let call = server().step(call, ToolEvent::File(Ok(vec![0, 1, 2])));
    let request = submitted(&call);
    assert_eq!(request.video_url.as_deref(), Some("data:video/mp4;base64,AAEC"));
    assert_eq!(request.image_url, None);
    assert_eq!(request.duration, None);
    assert_eq!(request.aspect_ratio, None);
    assert_eq!(request.resolution.as_deref(), Some("480p"));
    assert_eq!(request.model, "grok-imagine-video");
}

#[test]
fn unreadable_file() {
    let call = server().edit_video(edit("clip.mp4"));
    let call = server().step(call, ToolEvent::File(Err("not found".to_string())));
    assert_eq!(error(&call), "Failed to read file clip.mp4: not found");
}

#[test]
fn generation_fails() {
    let call = server().generate_video(generate());
    let call = server().step(call, ToolEvent::Poll(PollEvent::Replied(Err("dns".to_string()))));
    assert_eq!(error(&call), "HTTP request failed: dns");
    let call = server().step(call, ToolEvent::Poll(PollEvent::Rested));
    assert_eq!(error(&call), "HTTP request failed: dns");
}

#[test]
fn response_without_a_video() {
    let call = finish(server().generate_video(generate()), None);
    assert_eq!(success(&call), "No video data returned by API.");
}

#[test]
fn saved_video() {
    let mut call = finish(server().generate_video(generate()), Some(video(Some("6.5"))));
    assert!(matches!(
        server().effect(&call),
        ToolEffect::Download(DownloadEffect::Get { url: "https://v/1" })
    ));
    for event in [
        DownloadEvent::Replied(Ok(ok())),
        DownloadEvent::Done(Ok(())),
        DownloadEvent::Stamped(Stamp { seconds: 9, sequence: 0 }),
        DownloadEvent::Done(Ok(())),
        DownloadEvent::Received(Ok(Some(vec![0x1A, 0x45, 0xDF, 0xA3]))),
        DownloadEvent::Done(Ok(())),
        DownloadEvent::Received(Ok(None)),
        DownloadEvent::Done(Ok(())),
    ] {
        call = server().step(call, ToolEvent::Download(event));
    }
    match server().effect(&call) {
        ToolEffect::Download(DownloadEffect::Rename { from, to }) => {
            assert_eq!(from, "/videos/9_0.tmp");
            assert_eq!(to, "/videos/9_0.webm");
        }
        other => panic!("{other:?}"),
    }
    call = server().step(call, ToolEvent::Download(DownloadEvent::Done(Ok(()))));
    assert_eq!(success(&call), "Saved: /videos/9_0.webm\nDuration: 6.5s\nURL: https://v/1");
}

#[test]
fn failed_download_is_no_error() {
    let call = finish(server().generate_video(generate()), Some(video(None)));
    let refused = DownloadEvent::Replied(Ok(HttpStatus::from_u16(404).unwrap()));
    let call = server().step(call, ToolEvent::Download(refused));
    assert_eq!(
        success(&call),
        "URL: https://v/1\n(Download failed: Video download failed (404 Not Found))"
    );
}

#[test]
fn formatted_responses() {
    let saved = Ok("/videos/a.mp4".to_string());
    assert_eq!(
        server().format_video_response(Some((&video(None), &saved))),
        vec!["Saved: /videos/a.mp4\nURL: https://v/1".to_string()]
    );
    let lost = Err(DownloadError::Directory("denied".to_string()));
    assert_eq!(
        server().format_video_response(Some((&video(Some("8")), &lost))),
        vec![
            "URL: https://v/1\nDuration: 8s\n(Download failed: Failed to create save directory /videos: denied)"
                .to_string()
        ]
    );
}

#[test]
fn events_for_another_stage_change_nothing() {
    let call = server().generate_video(generate());
    let call = server().step(call, ToolEvent::File(Ok(Vec::new())));
    let call = server().step(call, ToolEvent::Download(DownloadEvent::Done(Ok(()))));
    assert_eq!(submitted(&call).prompt, "a cat");
}

#[test]
fn description_of_the_server() {
    let info = server().get_info();
    assert_eq!(info.name, "mcp-server-grok-video");
    assert_eq!(
        info.instructions,
        "Grok video generation server. Use generate_video to create videos from text prompts, \
         animate_image to turn still images into video clips, \
         or edit_video to modify existing videos with natural language instructions."
    );
}

#[test]
fn copy_of_the_server() {
    let copy = server().clone();
    assert_eq!(copy.api_key, "key");
    assert_eq!(copy.save_dir.path, "/videos");
    assert_eq!(copy.save_dir.separator, "/");
    assert_eq!(copy.poll_interval_secs, 5);
    assert_eq!(copy.poll_timeout_secs, 600);
}

#[test]
fn models() {
    assert_eq!(choose_model(None), "grok-imagine-video");
    assert_eq!(choose_model(Some("m".to_string())), "m");
}
