//! Media: content types, data URIs and the format of a downloaded video.

use crate::outside::base64_encode;
use crate::text::{begins_with, finishes_with};
use vstd::prelude::*;

verus! {

/// How many bytes of a download are kept to tell its format.
pub const HEADER_LENGTH: usize = 12;

/// Whether `magic` stands in `data` at the given position.
pub open spec fn stands_at(data: Seq<u8>, position: int, magic: Seq<u8>) -> bool {
    position + magic.len() <= data.len() && data.subrange(position, position + magic.len())
        == magic
}

/// The content type that a path names by its extension, if it names one.
pub open spec fn named_type(path: Seq<char>) -> Option<Seq<char>> {
    if ".png"@.is_suffix_of(path) {
        Some("image/png"@)
    } else if ".jpg"@.is_suffix_of(path) || ".jpeg"@.is_suffix_of(path) {
        Some("image/jpeg"@)
    } else if ".gif"@.is_suffix_of(path) {
        Some("image/gif"@)
    } else if ".webp"@.is_suffix_of(path) {
        Some("image/webp"@)
    } else if ".mp4"@.is_suffix_of(path) {
        Some("video/mp4"@)
    } else if ".webm"@.is_suffix_of(path) {
        Some("video/webm"@)
    } else if ".mov"@.is_suffix_of(path) {
        Some("video/quicktime"@)
    } else {
        None
    }
}

/// The content type that the first bytes of a file show.
pub open spec fn sniffed_type(data: Seq<u8>) -> Seq<char> {
    if stands_at(data, 0, seq![0x89u8, 0x50, 0x4E, 0x47]) {
        "image/png"@
    } else if stands_at(data, 0, seq![0xFFu8, 0xD8, 0xFF]) {
        "image/jpeg"@
    } else if stands_at(data, 0, seq![0x47u8, 0x49, 0x46]) {
        "image/gif"@
    } else if stands_at(data, 8, seq![0x57u8, 0x45, 0x42, 0x50]) {
        "image/webp"@
    } else if stands_at(data, 4, seq![0x66u8, 0x74, 0x79, 0x70]) {
        "video/mp4"@
    } else if stands_at(data, 0, seq![0x1Au8, 0x45, 0xDF, 0xA3]) {
        "video/webm"@
    } else {
        "application/octet-stream"@
    }
}

/// The content type of a file: by its extension, else by its first bytes.
pub open spec fn content_type(path: Seq<char>, data: Seq<u8>) -> Seq<char> {
    match named_type(path) {
        Some(named) => named,
        None => sniffed_type(data),
    }
}

/// The `data:` URI that holds a file.
pub open spec fn file_uri(path: Seq<char>, data: Seq<u8>) -> Seq<char> {
    "data:"@ + content_type(path, data) + ";base64,"@ + crate::encoding::base64_standard(data)
}

/// Whether a file is small enough to stand in a `data:` URI.
pub open spec fn fits_uri(length: nat) -> bool {
    crate::encoding::base64_length(length) <= isize::MAX
}

/// Whether a parameter is passed on as it stands: a web address or a data URI.
/// Anything else is the path of a local file.
pub open spec fn remote(url: Seq<char>) -> bool {
    "http://"@.is_prefix_of(url) || "https://"@.is_prefix_of(url) || "data:"@.is_prefix_of(url)
}

/// The file extension for a video that begins with the given bytes.
pub open spec fn extension_of(header: Seq<u8>) -> Seq<char> {
    if stands_at(header, 0, seq![0x1Au8, 0x45, 0xDF, 0xA3]) && !stands_at(
        header,
        4,
        seq![0x66u8, 0x74, 0x79, 0x70],
    ) {
        "webm"@
    } else {
        "mp4"@
    }
}

/// The bytes of a download that are kept to tell its format: the first ones.
pub open spec fn header_of(stream: Seq<u8>) -> Seq<u8> {
    if stream.len() <= HEADER_LENGTH {
        stream
    } else {
        stream.take(HEADER_LENGTH as int)
    }
}

/// A kept header after the next chunk: once it is full, it stays as it is.
pub open spec fn grown_header(header: Seq<u8>, chunk: Seq<u8>) -> Seq<u8> {
    if header.len() < HEADER_LENGTH {
        header_of(header + chunk)
    } else {
        header
    }
}

/// What the chunks of a download hold together.
pub open spec fn concatenation(chunks: Seq<Seq<u8>>) -> Seq<u8>
    decreases chunks.len(),
{
    if chunks.len() == 0 {
        Seq::empty()
    } else {
        concatenation(chunks.drop_last()) + chunks.last()
    }
}

/// The header that is kept when it is grown by each chunk in turn.
pub open spec fn kept_header(chunks: Seq<Seq<u8>>) -> Seq<u8>
    decreases chunks.len(),
{
    if chunks.len() == 0 {
        Seq::empty()
    } else {
        grown_header(kept_header(chunks.drop_last()), chunks.last())
    }
}

/// Where the source of an image or a video is found.
#[derive(Debug)]
pub enum UrlSource {
    /// A web address or a data URI, to be passed on as it stands.
    Remote(String),
    /// The path of a local file, to be read and turned into a data URI.
    LocalFile(String),
}

/// Whether `magic` stands in `data` at the given position.
fn found_at(data: &[u8], position: usize, magic: &[u8]) -> (found: bool)
    ensures
        found == stands_at(data@, position as int, magic@),
{
    if position > data.len() || magic.len() > data.len() - position {
        return false;
    }
    let mut i: usize = 0;
    while i < magic.len()
        invariant
            i <= magic.len(),
            position + magic.len() <= data.len(),
            forall|j: int| 0 <= j < i ==> data@[position + j] == magic@[j],
        decreases magic.len() - i,
    {
        if data[position + i] != magic[i] {
            assert(data@.subrange(position as int, position + magic@.len())[i as int]
                != magic@[i as int]);
            return false;
        }
        i += 1;
    }
    assert(data@.subrange(position as int, position + magic@.len()) =~= magic@);
    true
}

/// The content type of a file.
pub fn mime_type(path: &str, data: &[u8]) -> (mime: &'static str)
    ensures
        mime@ == content_type(path@, data@),
{
    if finishes_with(path, ".png") {
        "image/png"
    } else if finishes_with(path, ".jpg") || finishes_with(path, ".jpeg") {
        "image/jpeg"
    } else if finishes_with(path, ".gif") {
        "image/gif"
    } else if finishes_with(path, ".webp") {
        "image/webp"
    } else if finishes_with(path, ".mp4") {
        "video/mp4"
    } else if finishes_with(path, ".webm") {
        "video/webm"
    } else if finishes_with(path, ".mov") {
        "video/quicktime"
    } else {
        sniff(data)
    }
}

/// The content type that the first bytes of a file show.
fn sniff(data: &[u8]) -> (mime: &'static str)
    ensures
        mime@ == sniffed_type(data@),
{
    let png: [u8; 4] = [0x89, 0x50, 0x4E, 0x47];
    let jpeg: [u8; 3] = [0xFF, 0xD8, 0xFF];
    let gif: [u8; 3] = [0x47, 0x49, 0x46];
    let webp: [u8; 4] = [0x57, 0x45, 0x42, 0x50];
    let ftyp: [u8; 4] = [0x66, 0x74, 0x79, 0x70];
    let ebml: [u8; 4] = [0x1A, 0x45, 0xDF, 0xA3];
    proof {
        assert(png@ =~= seq![0x89u8, 0x50, 0x4E, 0x47]);
        assert(jpeg@ =~= seq![0xFFu8, 0xD8, 0xFF]);
        assert(gif@ =~= seq![0x47u8, 0x49, 0x46]);
        assert(webp@ =~= seq![0x57u8, 0x45, 0x42, 0x50]);
        assert(ftyp@ =~= seq![0x66u8, 0x74, 0x79, 0x70]);
        assert(ebml@ =~= seq![0x1Au8, 0x45, 0xDF, 0xA3]);
    }
    if found_at(data, 0, &png) {
        "image/png"
    } else if found_at(data, 0, &jpeg) {
        "image/jpeg"
    } else if found_at(data, 0, &gif) {
        "image/gif"
    } else if found_at(data, 8, &webp) {
        "image/webp"
    } else if found_at(data, 4, &ftyp) {
        "video/mp4"
    } else if found_at(data, 0, &ebml) {
        "video/webm"
    } else {
        "application/octet-stream"
    }
}

/// Whether a file of the given length is small enough to stand in a data URI.
pub fn uri_can_hold(length: usize) -> (fits: bool)
    ensures
        fits == fits_uri(length as nat),
{
    let blocks: usize = length / 3 + (if length % 3 == 0 { 0 } else { 1 });
    blocks <= isize::MAX as usize / 4
}

/// The data URI for some base64 text of the given content type.
pub fn data_uri(mime: &str, encoded: &str) -> (uri: String)
    ensures
        uri@ == "data:"@ + mime@ + ";base64,"@ + encoded@,
{
    let mut uri = "data:".to_string();
    uri.append(mime);
    uri.append(";base64,");
    uri.append(encoded);
    uri
}

/// The data URI for a local file: its contents are what reading it gave, or
/// why it could not be read.
pub fn local_file_to_data_uri(path: &str, contents: Result<Vec<u8>, String>) -> (uri: Result<
    String,
    String,
>)
    requires
        contents matches Ok(data) ==> fits_uri(data@.len()),
    ensures
        match contents {
            Ok(data) => uri matches Ok(text) && text@ == file_uri(path@, data@),
            Err(error) => uri matches Err(text) && text@ == "Failed to read file "@ + path@
                + ": "@ + error@,
        },
{
    match contents {
        Ok(data) => {
            let mime = mime_type(path, data.as_slice());
            Ok(data_uri(mime, base64_encode(data.as_slice()).as_str()))
        },
        Err(error) => {
            let mut text = "Failed to read file ".to_string();
            text.append(path);
            text.append(": ");
            text.append(error.as_str());
            Err(text)
        },
    }
}

/// Resolve a URL parameter: what looks like a local path is to be read.
pub fn resolve_url(url: &str) -> (source: UrlSource)
    ensures
        match source {
            UrlSource::Remote(text) => remote(url@) && text@ == url@,
            UrlSource::LocalFile(path) => !remote(url@) && path@ == url@,
        },
{
    if begins_with(url, "http://") || begins_with(url, "https://") || begins_with(url, "data:") {
        UrlSource::Remote(url.to_string())
    } else {
        UrlSource::LocalFile(url.to_string())
    }
}

/// Grow the kept header by the next chunk of a download.
pub fn extend_header(header: &mut Vec<u8>, chunk: &[u8])
    ensures
        final(header)@ == grown_header(old(header)@, chunk@),
{
    if header.len() < HEADER_LENGTH {
        let room: usize = HEADER_LENGTH - header.len();
        let count: usize = if chunk.len() < room {
            chunk.len()
        } else {
            room
        };
        header.extend_from_slice(vstd::slice::slice_subrange(chunk, 0, count));
        assert(header@ =~= header_of(old(header)@ + chunk@));
    }
}

/// The file extension for a video that begins with the given bytes.
pub fn video_extension(header: &[u8]) -> (extension: &'static str)
    ensures
        extension@ == extension_of(header@),
{
    let ftyp: [u8; 4] = [0x66, 0x74, 0x79, 0x70];
    let ebml: [u8; 4] = [0x1A, 0x45, 0xDF, 0xA3];
    proof {
        assert(ftyp@ =~= seq![0x66u8, 0x74, 0x79, 0x70]);
        assert(ebml@ =~= seq![0x1Au8, 0x45, 0xDF, 0xA3]);
    }
    if found_at(header, 4, &ftyp) {
        "mp4"
    } else if found_at(header, 0, &ebml) {
        "webm"
    } else {
        "mp4"
    }
}

/// However a download is cut into chunks, the header that is kept consists of
/// its first bytes.
pub proof fn header_ignores_chunking(chunks: Seq<Seq<u8>>)
    ensures
        kept_header(chunks) == header_of(concatenation(chunks)),
    decreases chunks.len(),
{
    if chunks.len() > 0 {
        header_ignores_chunking(chunks.drop_last());
        assert(kept_header(chunks) =~= header_of(concatenation(chunks)));
    }
}

/// The kept header is enough to choose the extension: it gives the one that
/// the whole video would give.
pub proof fn header_decides_extension(stream: Seq<u8>)
    ensures
        extension_of(header_of(stream)) == extension_of(stream),
{
    if stream.len() > HEADER_LENGTH {
        assert(header_of(stream).subrange(4, 8) =~= stream.subrange(4, 8));
        assert(header_of(stream).subrange(0, 4) =~= stream.subrange(0, 4));
    }
}

/// The same bytes are enough to tell the content type of a file.
pub proof fn header_decides_type(data: Seq<u8>)
    ensures
        sniffed_type(header_of(data)) == sniffed_type(data),
{
    if data.len() > HEADER_LENGTH {
        assert(header_of(data).subrange(0, 3) =~= data.subrange(0, 3));
        assert(header_of(data).subrange(0, 4) =~= data.subrange(0, 4));
        assert(header_of(data).subrange(4, 8) =~= data.subrange(4, 8));
        assert(header_of(data).subrange(8, 12) =~= data.subrange(8, 12));
    }
}

/// A file whose bytes show a video of one of the two saved formats is saved
/// under the extension of that format.
pub proof fn sniffed_video_keeps_format(data: Seq<u8>)
    ensures
        sniffed_type(data) == "video/mp4"@ ==> extension_of(data) == "mp4"@,
        sniffed_type(data) == "video/webm"@ ==> extension_of(data) == "webm"@,
{
    reveal_strlit("image/png");
    reveal_strlit("image/jpeg");
    reveal_strlit("image/gif");
    reveal_strlit("image/webp");
    reveal_strlit("video/mp4");
    reveal_strlit("video/webm");
    reveal_strlit("application/octet-stream");
    assert("image/png"@[0] == 'i' && "image/jpeg"@[0] == 'i');
    assert("image/gif"@[0] == 'i' && "image/webp"@[0] == 'i');
    assert("application/octet-stream"@[0] == 'a');
    assert("video/mp4"@[0] == 'v' && "video/webm"@[0] == 'v');
    assert("video/mp4"@.len() != "video/webm"@.len());
}

/// Resolving is idempotent: a data URI made from a local file is passed on as
/// it stands.
pub proof fn file_uri_is_remote(path: Seq<char>, data: Seq<u8>)
    ensures
        remote(file_uri(path, data)),
{
    assert("data:"@.is_prefix_of(file_uri(path, data)));
}

/// A content type holds neither of the characters that end its part of a data
/// URI.
pub proof fn content_type_is_plain(path: Seq<char>, data: Seq<u8>)
    ensures
        !content_type(path, data).contains(';'),
        !content_type(path, data).contains(','),
{
    reveal_strlit("image/png");
    reveal_strlit("image/jpeg");
    reveal_strlit("image/gif");
    reveal_strlit("image/webp");
    reveal_strlit("video/mp4");
    reveal_strlit("video/webm");
    reveal_strlit("video/quicktime");
    reveal_strlit("application/octet-stream");
}

/// The data URI of a file holds the whole file: what follows the first comma
/// decodes to its contents.
pub proof fn file_uri_holds_file(path: Seq<char>, data: Seq<u8>)
    ensures
        ({
            let head = "data:"@ + content_type(path, data) + ";base64"@;
            let encoded = crate::encoding::base64_standard(data);
            &&& file_uri(path, data) == head + seq![','] + encoded
            &&& !head.contains(',')
            &&& crate::encoding::base64_decoded(encoded) == data
        }),
{
    content_type_is_plain(path, data);
    crate::encoding::decoding_undoes_encoding(data);
    reveal_strlit("data:");
    reveal_strlit(";base64");
    reveal_strlit(";base64,");
    let mime = content_type(path, data);
    let head = "data:"@ + mime + ";base64"@;
    assert(";base64,"@ =~= ";base64"@ + seq![',']);
    assert(file_uri(path, data) =~= head + seq![','] + crate::encoding::base64_standard(data));
    assert(!head.contains(',')) by {
        if head.contains(',') {
            let i = choose|i: int| 0 <= i < head.len() && head[i] == ',';
            if i >= 5 && i < 5 + mime.len() {
                assert(mime[i - 5] == ',');
            } else if i >= 5 {
                assert(";base64"@[i - 5 - mime.len()] == ',');
            } else {
                assert("data:"@[i] == ',');
            }
        }
    }
}

/// Files with different contents never give the same data URI.
pub proof fn file_uri_is_injective(
    first_path: Seq<char>,
    first: Seq<u8>,
    second_path: Seq<char>,
    second: Seq<u8>,
)
    requires
        file_uri(first_path, first) == file_uri(second_path, second),
    ensures
        first == second,
        content_type(first_path, first) == content_type(second_path, second),
{
    file_uri_holds_file(first_path, first);
    file_uri_holds_file(second_path, second);
    let first_type = content_type(first_path, first);
    let second_type = content_type(second_path, second);
    let first_head = "data:"@ + first_type + ";base64"@;
    let second_head = "data:"@ + second_type + ";base64"@;
    crate::text::first_mark_splits(
        first_head,
        crate::encoding::base64_standard(first),
        second_head,
        crate::encoding::base64_standard(second),
        ',',
    );
    let start = "data:"@.len() as int;
    assert(first_type =~= first_head.subrange(start, start + first_type.len()));
    assert(second_type =~= second_head.subrange(start, start + second_type.len()));
}

} // verus!
