use grok_video::download::{
    refused_message, Counter, DownloadEffect, DownloadEvent, DownloadState, Stamp,
};
use grok_video::path::Directory;
use grok_video::status::HttpStatus;

fn start() -> DownloadState {
    DownloadState::Requesting { url: "https://v/1".to_string() }
}

fn videos() -> Directory {
    Directory { path: "/videos".to_string(), separator: "/" }
}

fn status(code: u16) -> DownloadEvent {
    DownloadEvent::Replied(Ok(HttpStatus::from_u16(code).unwrap()))
}

fn done() -> DownloadEvent {
    DownloadEvent::Done(Ok(()))
}

fn failed(error: &str) -> DownloadEvent {
    DownloadEvent::Done(Err(error.to_string()))
}

fn chunk(bytes: &[u8]) -> DownloadEvent {
    DownloadEvent::Received(Ok(Some(bytes.to_vec())))
}

fn end() -> DownloadEvent {
    DownloadEvent::Received(Ok(None))
}

fn stamped() -> DownloadEvent {
    DownloadEvent::Stamped(Stamp { seconds: 1700000000, sequence: 3 })
}

fn run(state: DownloadState, events: Vec<DownloadEvent>) -> DownloadState {
    events.into_iter().fold(state, |state, event| state.step(event, &videos()))
}

fn message(events: Vec<DownloadEvent>) -> String {
    match run(start(), events) {
        DownloadState::Finished(Err(error)) => error.message("/videos"),
        other => panic!("not a failure: {other:?}"),
    }
}

fn new_name(chunks: &[&[u8]]) -> String {
    let mut events = vec![status(200), done(), stamped(), done()];
    for bytes in chunks {
        events.push(chunk(bytes));
        events.push(done());
    }
    events.push(end());
    events.push(done());
    let state = run(start(), events);
    match state.effect(&videos()) {
        DownloadEffect::Rename { from, to } => {
            assert_eq!(from, "/videos/1700000000_3.tmp");
            to
        }
        other => panic!("{other:?}"),
    }
}

#[test]
fn download_effects() {
    let state = start();
    assert!(matches!(state.effect(&videos()), DownloadEffect::Get { url: "https://v/1" }));
    let state = run(state, vec![status(200)]);
    match state.effect(&videos()) {
        DownloadEffect::MakeDirectory { path } => assert_eq!(path, "/videos"),
        other => panic!("{other:?}"),
    }
    let state = run(state, vec![done()]);
    assert!(matches!(state.effect(&videos()), DownloadEffect::DrawStamp));
    let state = run(state, vec![stamped()]);
    match state.effect(&videos()) {
        DownloadEffect::MakeFile { path } => assert_eq!(path, "/videos/1700000000_3.tmp"),
        other => panic!("{other:?}"),
    }
    let state = run(state, vec![done()]);
    assert!(matches!(state.effect(&videos()), DownloadEffect::ReadChunk));
    let state = run(state, vec![chunk(b"abc")]);
    match state.effect(&videos()) {
        DownloadEffect::WriteChunk(bytes) => assert_eq!(bytes, b"abc"),
        other => panic!("{other:?}"),
    }
    let state = run(state, vec![done(), end()]);
    assert!(matches!(state.effect(&videos()), DownloadEffect::Flush));
    let state = run(state, vec![done()]);
    assert!(matches!(state.effect(&videos()), DownloadEffect::Rename { .. }));
    let state = run(state, vec![done()]);
    match state.effect(&videos()) {
        DownloadEffect::Finish(Ok(path)) => assert_eq!(path, "/videos/1700000000_3.mp4"),
        other => panic!("{other:?}"),
    }
}

#[test]
fn final_names() {
    assert_eq!(new_name(&[b"\x00\x00\x00\x18ftypisom and more"]), "/videos/1700000000_3.mp4");
    assert_eq!(new_name(&[b"\x1A\x45\xDF\xA3 and more"]), "/videos/1700000000_3.webm");
    assert_eq!(new_name(&[b"\x1A", b"\x45\xDF", b"", b"\xA3"]), "/videos/1700000000_3.webm");
    assert_eq!(new_name(&[b"\x00\x00\x00", b"\x18fty", b"p"]), "/videos/1700000000_3.mp4");
    assert_eq!(new_name(&[]), "/videos/1700000000_3.mp4");
}

#[test]
fn every_chunk_is_written_as_it_came() {
    let mut state = run(start(), vec![status(200), done(), stamped(), done()]);
    let mut file = Vec::new();
    for bytes in [&b"first"[..], b"", b"second chunk, a longer one"] {
        state = state.step(chunk(bytes), &videos());
        match state.effect(&videos()) {
            DownloadEffect::WriteChunk(bytes) => file.extend_from_slice(bytes),
            other => panic!("{other:?}"),
        }
        state = state.step(done(), &videos());
    }
    assert_eq!(file, b"firstsecond chunk, a longer one");
}

#[test]
fn failures_of_a_download() {
    assert_eq!(
        message(vec![DownloadEvent::Replied(Err("dns".to_string()))]),
        "Failed to download video: dns"
    );
    assert_eq!(message(vec![status(403)]), "Video download failed (403 Forbidden)");
    assert_eq!(
        message(vec![status(200), failed("denied")]),
        "Failed to create save directory /videos: denied"
    );
    assert_eq!(
        message(vec![status(200), done(), stamped(), failed("full")]),
        "Failed to create temp file: full"
    );
    let open = || vec![status(200), done(), stamped(), done()];
    let after = |more: Vec<DownloadEvent>| {
        let mut events = open();
        events.extend(more);
        message(events)
    };
    assert_eq!(
        after(vec![DownloadEvent::Received(Err("reset".to_string()))]),
        "Stream read error: reset"
    );
    assert_eq!(after(vec![chunk(b"a"), failed("full")]), "Failed to write chunk: full");
    assert_eq!(after(vec![end(), failed("io")]), "Failed to flush file: io");
    assert_eq!(
        after(vec![end(), done(), failed("exists")]),
        "Failed to rename temp file: exists"
    );
}

#[test]
fn unrelated_events_change_nothing() {
    let state = run(start(), vec![done(), end(), stamped()]);
    assert!(matches!(state.effect(&videos()), DownloadEffect::Get { .. }));
    assert_eq!(message(vec![status(403), status(200), done()]), "Video download failed (403 Forbidden)");
}

#[test]
fn names_do_not_collide() {
    let name = |seconds: u64, sequence: u64| {
        let state = DownloadState::Creating { stamp: Stamp { seconds, sequence } };
        match state.effect(&videos()) {
            DownloadEffect::MakeFile { path } => path,
            other => panic!("{other:?}"),
        }
    };
    assert_ne!(name(1, 23), name(12, 3));
    assert_ne!(name(5, 0), name(5, 1));
    assert_ne!(new_name(&[b"\x1A\x45\xDF\xA3"]), "/videos/1700000000_3.tmp");
}

#[test]
fn numbers_of_a_counter() {
    let mut counter = Counter::new();
    for number in 0..5 {
        let stamp = counter.draw(77);
        assert_eq!(stamp.seconds, 77);
        assert_eq!(stamp.sequence, number);
    }
    let mut full = Counter { next: u64::MAX };
    assert_eq!(full.draw(0).sequence, u64::MAX);
    assert_eq!(full.draw(0).sequence, 0);
}

#[test]
fn downloads_in_one_second() {
    let mut counter = Counter::new();
    let mut paths = Vec::new();
    for _ in 0..3 {
        let stamp = counter.draw(77);
        let state = run(
            start(),
            vec![
                status(200),
                done(),
                DownloadEvent::Stamped(stamp),
                done(),
                end(),
                done(),
                done(),
            ],
        );
        match state {
            DownloadState::Finished(Ok(path)) => paths.push(path),
            other => panic!("{other:?}"),
        }
    }
    assert_eq!(paths, vec!["/videos/77_0.mp4", "/videos/77_1.mp4", "/videos/77_2.mp4"]);
}

#[test]
fn paths_in_a_directory() {
    for path in ["/videos", "/videos/", "", "relative", "/", "a/b//"] {
        let directory =
            Directory { path: path.to_string(), separator: std::path::MAIN_SEPARATOR_STR };
        let reference = std::path::Path::new(path).join("1_2.tmp").display().to_string();
        assert_eq!(directory.join("1_2.tmp"), reference);
    }
    let other = Directory { path: "C:\\videos".to_string(), separator: "\\" };
    assert_eq!(other.join("a.mp4"), "C:\\videos\\a.mp4");
}

#[test]
fn paths_on_a_drive() {
    let join = |path: &str, separator: &'static str| {
        Directory { path: path.to_string(), separator }.join("x")
    };
    assert_eq!(join("C:", "\\"), "C:x");
    assert_eq!(join("z:", "\\"), "z:x");
    assert_eq!(join("C:\\", "\\"), "C:\\x");
    assert_eq!(join("C:a", "\\"), "C:a\\x");
    assert_eq!(join("1:", "\\"), "1:\\x");
    assert_eq!(join("::", "\\"), "::\\x");
    assert_eq!(join("C:", "/"), "C:/x");
    assert_eq!(join("a/", "\\"), "a/x");
}

#[test]
fn message_of_a_refused_download() {
    assert_eq!(refused_message("403 Forbidden"), "Video download failed (403 Forbidden)");
}
