use base64::Engine;
use grok_video::media::{
    data_uri, extend_header, local_file_to_data_uri, mime_type, resolve_url, uri_can_hold, video_extension,
    UrlSource,
};

#[test]
fn types_by_extension() {
    let png = [0x89, 0x50, 0x4E, 0x47];
    for (path, mime) in [
        ("a.png", "image/png"),
        ("a.jpg", "image/jpeg"),
        ("a.jpeg", "image/jpeg"),
        ("a.gif", "image/gif"),
        ("a.webp", "image/webp"),
        ("a.mp4", "video/mp4"),
        ("a.webm", "video/webm"),
        ("dir/a.mov", "video/quicktime"),
    ] {
        assert_eq!(mime_type(path, &png), mime);
    }
}

#[test]
fn types_by_first_bytes() {
    for (data, mime) in [
        (&[0x89u8, 0x50, 0x4E, 0x47, 0x0D][..], "image/png"),
        (&[0xFF, 0xD8, 0xFF, 0xE0], "image/jpeg"),
        (b"GIF89a", "image/gif"),
        (b"RIFF\x00\x00\x00\x00WEBP", "image/webp"),
        (b"\x00\x00\x00\x18ftyp", "video/mp4"),
        (&[0x1A, 0x45, 0xDF, 0xA3], "video/webm"),
        (b"RIFF\x00\x00\x00\x00WEB", "application/octet-stream"),
        (b"\x00\x00\x00\x18fty", "application/octet-stream"),
        (&[0x1A, 0x45, 0xDF], "application/octet-stream"),
        (b"", "application/octet-stream"),
    ] {
        assert_eq!(mime_type("file", data), mime);
        assert_eq!(mime_type("file.PNG", data), mime);
    }
}

#[test]
fn data_uri_of_a_file() {
    assert_eq!(
        local_file_to_data_uri("a.png", Ok(b"hello".to_vec())),
        Ok("data:image/png;base64,aGVsbG8=".to_string())
    );
    assert_eq!(
        local_file_to_data_uri("x", Ok(vec![0xFB, 0xFF])),
        Ok("data:application/octet-stream;base64,+/8=".to_string())
    );
    assert_eq!(
        local_file_to_data_uri("empty.gif", Ok(Vec::new())),
        Ok("data:image/gif;base64,".to_string())
    );
}

#[test]
fn data_uri_of_an_unreadable_file() {
    assert_eq!(
        local_file_to_data_uri("a.png", Err("No such file".to_string())),
        Err("Failed to read file a.png: No such file".to_string())
    );
}

#[test]
fn room_in_a_data_uri() {
    assert!(uri_can_hold(0));
    assert!(uri_can_hold(1 << 30));
    let most = isize::MAX as usize / 4 * 3;
    assert!(uri_can_hold(most));
    assert!(!uri_can_hold(most + 1));
    assert!(!uri_can_hold(usize::MAX));
}

#[test]
fn urls_and_paths() {
    for url in ["http://a/b.png", "https://a/b.png", "data:image/png;base64,AA=="] {
        match resolve_url(url) {
            UrlSource::Remote(text) => assert_eq!(text, url),
            UrlSource::LocalFile(_) => panic!("{url} is remote"),
        }
    }
    for path in ["/tmp/a.png", "a.png", "", "HTTP://a", "ftp://a", "http:/a", " https://a"] {
        match resolve_url(path) {
            UrlSource::Remote(_) => panic!("{path} is local"),
            UrlSource::LocalFile(text) => assert_eq!(text, path),
        }
    }
}

#[test]
fn a_data_uri_is_resolved_already() {
    let uri = local_file_to_data_uri("a.mp4", Ok(vec![1, 2, 3])).unwrap();
    match resolve_url(&uri) {
        UrlSource::Remote(text) => assert_eq!(text, uri),
        UrlSource::LocalFile(_) => panic!("a data URI is remote"),
    }
}

#[test]
fn header_of_any_chunking() {
    let stream: Vec<u8> = (0..40).collect();
    for size in 1..=40 {
        let mut header = Vec::new();
        for chunk in stream.chunks(size) {
            extend_header(&mut header, chunk);
        }
        assert_eq!(header, stream[..12].to_vec());
    }
    let mut short = Vec::new();
    extend_header(&mut short, &[1, 2]);
    extend_header(&mut short, &[]);
    extend_header(&mut short, &[3]);
    assert_eq!(short, vec![1, 2, 3]);
}

#[test]
fn extensions() {
    assert_eq!(video_extension(b"\x00\x00\x00\x18ftypisom"), "mp4");
    assert_eq!(video_extension(&[0x1A, 0x45, 0xDF, 0xA3, 0, 0]), "webm");
    assert_eq!(video_extension(b"\x1A\x45\xDF\xA3ftyp"), "mp4");
    assert_eq!(video_extension(b"anything"), "mp4");
    assert_eq!(video_extension(b""), "mp4");
}

#[test]
fn sniffed_videos_keep_their_format() {
    let mp4 = b"\x00\x00\x00\x18ftypisom";
    assert_eq!(mime_type("clip", mp4), "video/mp4");
    assert_eq!(video_extension(mp4), "mp4");
    let webm = [0x1A, 0x45, 0xDF, 0xA3, 1, 2, 3, 4];
    assert_eq!(mime_type("clip", &webm), "video/webm");
    assert_eq!(video_extension(&webm), "webm");
}

#[test]
fn data_uri_of_encoded_text() {
    assert_eq!(data_uri("video/mp4", "AAEC"), "data:video/mp4;base64,AAEC");
    assert_eq!(data_uri("", ""), "data:;base64,");
}

#[test]
fn data_uri_decodes_to_the_file() {
    let bytes: Vec<u8> = (0..=255).collect();
    for length in [0, 1, 2, 3, 4, 5, 6, 64, 255, 256] {
        let data = bytes[..length].to_vec();
        let uri = local_file_to_data_uri("a.webm", Ok(data.clone())).unwrap();
        let (head, encoded) = uri.split_once(',').unwrap();
        assert_eq!(head, "data:video/webm;base64");
        assert_eq!(base64::engine::general_purpose::STANDARD.decode(encoded).unwrap(), data);
    }
}

#[test]
fn encodings_of_each_ending() {
    for (data, encoded) in [
        (&b""[..], ""),
        (b"f", "Zg=="),
        (b"fo", "Zm8="),
        (b"foo", "Zm9v"),
        (b"foob", "Zm9vYg=="),
        (b"fooba", "Zm9vYmE="),
        (b"foobar", "Zm9vYmFy"),
        (&[0xFB, 0xEF, 0xBE], "++++"),
        (&[0xFF, 0xFF, 0xFF], "////"),
        (&[0x00, 0x10, 0x83], "ABCD"),
        (&[0xD3, 0x5D, 0xB7], "0123"),
    ] {
        let uri = local_file_to_data_uri("a.png", Ok(data.to_vec())).unwrap();
        assert_eq!(uri, format!("data:image/png;base64,{encoded}"));
    }
}

#[test]
fn first_bytes_are_enough_for_the_type() {
    for start in [&b"RIFF\x00\x00\x00\x00WEBP"[..], b"\x00\x00\x00\x18ftypisom", b"plain text.."] {
        let mut data = start.to_vec();
        data.extend_from_slice(b"and more");
        assert_eq!(mime_type("file", &data), mime_type("file", &data[..12]));
    }
}
