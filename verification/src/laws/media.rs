//! Laws of content types, data URIs and the format of a video.

use crate::media::UrlSource;
use vstd::prelude::*;

verus! {

/// The last characters of a text that ends with another.
proof fn ending_characters(text: Seq<char>, ending: Seq<char>)
    requires
        ending.is_suffix_of(text),
    ensures
        text.len() >= ending.len(),
        forall|i: int|
            0 <= i < ending.len() ==> #[trigger] ending[i] == text[text.len() - ending.len() + i],
{
    let tail = text.subrange(text.len() - ending.len(), text.len() as int);
    assert(tail =~= ending);
    assert forall|i: int| 0 <= i < ending.len() implies #[trigger] ending[i] == text[text.len()
        - ending.len() + i] by {
        assert(tail[i] == ending[i]);
    }
}

/// The character that stands `back` places before the end of a text.
spec fn from_end(text: Seq<char>, back: int) -> char {
    text[text.len() - back]
}

/// The characters at the end of a path with one of the known extensions.
proof fn extension_characters(path: Seq<char>)
    ensures
        ".png"@.is_suffix_of(path) ==> from_end(path, 2) == 'n' && from_end(path, 1) == 'g',
        ".jpg"@.is_suffix_of(path) ==> from_end(path, 3) == 'j' && from_end(path, 2) == 'p'
            && from_end(path, 1) == 'g',
        ".jpeg"@.is_suffix_of(path) ==> from_end(path, 2) == 'e' && from_end(path, 1) == 'g',
        ".gif"@.is_suffix_of(path) ==> from_end(path, 1) == 'f',
        ".webp"@.is_suffix_of(path) ==> from_end(path, 1) == 'p',
        ".mp4"@.is_suffix_of(path) ==> from_end(path, 1) == '4',
        ".webm"@.is_suffix_of(path) ==> from_end(path, 1) == 'm',
        ".mov"@.is_suffix_of(path) ==> from_end(path, 1) == 'v',
{
    reveal_strlit(".png");
    reveal_strlit(".jpg");
    reveal_strlit(".jpeg");
    reveal_strlit(".gif");
    reveal_strlit(".webp");
    reveal_strlit(".mp4");
    reveal_strlit(".webm");
    reveal_strlit(".mov");
    if ".png"@.is_suffix_of(path) {
        ending_characters(path, ".png"@);
        assert(".png"@[2] == 'n' && ".png"@[3] == 'g');
    }
    if ".jpg"@.is_suffix_of(path) {
        ending_characters(path, ".jpg"@);
        assert(".jpg"@[1] == 'j' && ".jpg"@[2] == 'p' && ".jpg"@[3] == 'g');
    }
    if ".jpeg"@.is_suffix_of(path) {
        ending_characters(path, ".jpeg"@);
        assert(".jpeg"@[3] == 'e' && ".jpeg"@[4] == 'g');
    }
    if ".gif"@.is_suffix_of(path) {
        ending_characters(path, ".gif"@);
        assert(".gif"@[3] == 'f');
    }
    if ".webp"@.is_suffix_of(path) {
        ending_characters(path, ".webp"@);
        assert(".webp"@[4] == 'p');
    }
    if ".mp4"@.is_suffix_of(path) {
        ending_characters(path, ".mp4"@);
        assert(".mp4"@[3] == '4');
    }
    if ".webm"@.is_suffix_of(path) {
        ending_characters(path, ".webm"@);
        assert(".webm"@[4] == 'm');
    }
    if ".mov"@.is_suffix_of(path) {
        ending_characters(path, ".mov"@);
        assert(".mov"@[3] == 'v');
    }
}

/// Whether a path has one of the known extensions.
pub open spec fn has_known_extension(path: Seq<char>) -> bool {
    ".png"@.is_suffix_of(path) || ".jpg"@.is_suffix_of(path) || ".jpeg"@.is_suffix_of(path)
        || ".gif"@.is_suffix_of(path) || ".webp"@.is_suffix_of(path) || ".mp4"@.is_suffix_of(path)
        || ".webm"@.is_suffix_of(path) || ".mov"@.is_suffix_of(path)
}

/// A known extension decides the content type, whatever the file holds.
pub proof fn extension_decides_type(path: &str, data: &[u8], mime: &'static str)
    requires
        call_ensures(crate::media::mime_type, (path, data), mime),
    ensures
        ".png"@.is_suffix_of(path@) ==> mime@ == "image/png"@,
        ".jpg"@.is_suffix_of(path@) || ".jpeg"@.is_suffix_of(path@) ==> mime@ == "image/jpeg"@,
        ".gif"@.is_suffix_of(path@) ==> mime@ == "image/gif"@,
        ".webp"@.is_suffix_of(path@) ==> mime@ == "image/webp"@,
        ".mp4"@.is_suffix_of(path@) ==> mime@ == "video/mp4"@,
        ".webm"@.is_suffix_of(path@) ==> mime@ == "video/webm"@,
        ".mov"@.is_suffix_of(path@) ==> mime@ == "video/quicktime"@,
{
    extension_characters(path@);
}

/// Four bytes stand at a place of a file.
pub open spec fn four_at(data: Seq<u8>, place: int, a: u8, b: u8, c: u8, d: u8) -> bool {
    data.len() >= place + 4 && data[place] == a && data[place + 1] == b && data[place + 2] == c
        && data[place + 3] == d
}

/// Three bytes stand at the beginning of a file.
pub open spec fn begins_with_three(data: Seq<u8>, a: u8, b: u8, c: u8) -> bool {
    data.len() >= 3 && data[0] == a && data[1] == b && data[2] == c
}

/// Standing at a place, in terms of the bytes.
proof fn four_stand(data: Seq<u8>, place: int, a: u8, b: u8, c: u8, d: u8)
    requires
        place >= 0,
    ensures
        crate::media::stands_at(data, place, seq![a, b, c, d]) == four_at(data, place, a, b, c, d),
{
    let magic = seq![a, b, c, d];
    if place + 4 <= data.len() {
        let part = data.subrange(place, place + 4);
        assert(part[0] == data[place] && part[1] == data[place + 1] && part[2] == data[place + 2]
            && part[3] == data[place + 3]);
        assert(magic[0] == a && magic[1] == b && magic[2] == c && magic[3] == d);
        if four_at(data, place, a, b, c, d) {
            assert(part =~= magic);
        }
    }
}

/// Standing at the beginning, in terms of the bytes.
proof fn three_stand(data: Seq<u8>, a: u8, b: u8, c: u8)
    ensures
        crate::media::stands_at(data, 0, seq![a, b, c]) == begins_with_three(data, a, b, c),
{
    let magic = seq![a, b, c];
    if 3 <= data.len() {
        let part = data.subrange(0, 3);
        assert(part[0] == data[0] && part[1] == data[1] && part[2] == data[2]);
        assert(magic[0] == a && magic[1] == b && magic[2] == c);
        if begins_with_three(data, a, b, c) {
            assert(part =~= magic);
        }
    }
}

/// Without a known extension the bytes decide: a PNG, JPEG, GIF or WebP image, an
/// `ftyp` box, an EBML header, in this order, or nothing that is known.
pub proof fn bytes_decide_type(path: &str, data: &[u8], mime: &'static str)
    requires
        call_ensures(crate::media::mime_type, (path, data), mime),
        !has_known_extension(path@),
    ensures
        ({
            let png = four_at(data@, 0, 0x89, 0x50, 0x4E, 0x47);
            let jpeg = begins_with_three(data@, 0xFF, 0xD8, 0xFF);
            let gif = begins_with_three(data@, 0x47, 0x49, 0x46);
            let webp = four_at(data@, 8, 0x57, 0x45, 0x42, 0x50);
            let ftyp = four_at(data@, 4, 0x66, 0x74, 0x79, 0x70);
            let ebml = four_at(data@, 0, 0x1A, 0x45, 0xDF, 0xA3);
            &&& png ==> mime@ == "image/png"@
            &&& jpeg ==> mime@ == "image/jpeg"@
            &&& gif ==> mime@ == "image/gif"@
            &&& webp && !png && !jpeg && !gif ==> mime@ == "image/webp"@
            &&& ftyp && !png && !jpeg && !gif && !webp ==> mime@ == "video/mp4"@
            &&& ebml && !ftyp && !webp ==> mime@ == "video/webm"@
            &&& !png && !jpeg && !gif && !webp && !ftyp && !ebml ==> mime@
                == "application/octet-stream"@
        }),
{
    four_stand(data@, 0, 0x89, 0x50, 0x4E, 0x47);
    three_stand(data@, 0xFF, 0xD8, 0xFF);
    three_stand(data@, 0x47, 0x49, 0x46);
    four_stand(data@, 8, 0x57, 0x45, 0x42, 0x50);
    four_stand(data@, 4, 0x66, 0x74, 0x79, 0x70);
    four_stand(data@, 0, 0x1A, 0x45, 0xDF, 0xA3);
}

/// A video is saved as WebM exactly if it begins with an EBML header and has no
/// `ftyp` box after its first four bytes, and as MP4 otherwise.
pub proof fn first_bytes_decide_extension(header: &[u8], extension: &'static str)
    requires
        call_ensures(crate::media::video_extension, (header,), extension),
    ensures
        ({
            let ftyp = four_at(header@, 4, 0x66, 0x74, 0x79, 0x70);
            let ebml = four_at(header@, 0, 0x1A, 0x45, 0xDF, 0xA3);
            &&& ebml && !ftyp ==> extension@ == "webm"@
            &&& !ebml || ftyp ==> extension@ == "mp4"@
        }),
{
    four_stand(header@, 4, 0x66, 0x74, 0x79, 0x70);
    four_stand(header@, 0, 0x1A, 0x45, 0xDF, 0xA3);
}

/// The kept bytes are filled up to twelve from the next chunk, in order; none that
/// was kept is lost.
pub proof fn kept_bytes_are_filled_up(header: &mut Vec<u8>, chunk: &[u8])
    requires
        call_ensures(crate::media::extend_header, (header, chunk), ()),
    ensures
        old(header)@.len() >= 12 ==> final(header)@ == old(header)@,
        old(header)@.len() < 12 && old(header)@.len() + chunk@.len() <= 12 ==> final(header)@
            == old(header)@ + chunk@,
        old(header)@.len() < 12 && old(header)@.len() + chunk@.len() > 12 ==> final(header)@
            == old(header)@ + chunk@.take(12 - old(header)@.len()),
{
    if old(header)@.len() < 12 && old(header)@.len() + chunk@.len() > 12 {
        assert((old(header)@ + chunk@).take(12) =~= old(header)@ + chunk@.take(
            12 - old(header)@.len(),
        ));
    }
}

/// A web address or a data URI is passed on as it stands, and anything else is the
/// path of a local file as it stands.
pub proof fn source_is_told_by_its_beginning(url: &str, source: UrlSource)
    requires
        call_ensures(crate::media::resolve_url, (url,), source),
    ensures
        source is Remote <==> "http://"@.is_prefix_of(url@) || "https://"@.is_prefix_of(url@)
            || "data:"@.is_prefix_of(url@),
        source matches UrlSource::Remote(text) ==> text@ == url@,
        source matches UrlSource::LocalFile(path) ==> path@ == url@,
{
}

/// A data URI names the content type and says that base64 follows.
pub proof fn data_uri_has_its_parts(mime: &str, encoded: &str, uri: String)
    requires
        call_ensures(crate::media::data_uri, (mime, encoded), uri),
    ensures
        uri@ == "data:"@ + mime@ + ";base64,"@ + encoded@,
{
}

/// A file fits a data URI exactly if its encoding, four characters for each three
/// bytes begun, is no longer than a text can be.
pub proof fn files_that_fit(length: usize, fits: bool)
    requires
        call_ensures(crate::media::uri_can_hold, (length,), fits),
    ensures
        fits <==> 4 * ((length + 2) / 3) <= isize::MAX,
{
}

/// The data URI of a local file has the content type of the file and the base64
/// encoding of all of its contents; a file that could not be read is named with the
/// reason.
pub proof fn local_file_becomes_its_uri(
    path: &str,
    contents: Result<Vec<u8>, String>,
    bytes: &[u8],
    mime: &'static str,
    uri: Result<String, String>,
)
    requires
        call_ensures(crate::media::local_file_to_data_uri, (path, contents), uri),
        contents matches Ok(data) ==> bytes@ == data@,
        call_ensures(crate::media::mime_type, (path, bytes), mime),
    ensures
        contents is Ok ==> (uri matches Ok(text) && text@ == "data:"@ + mime@ + ";base64,"@
            + crate::encoding::base64_standard(bytes@)),
        contents matches Err(error) ==> (uri matches Err(text) && text@ == "Failed to read file "@
            + path@ + ": "@ + error@),
{
}

/// The alphabet of the standard base64 encoding.
pub open spec fn alphabet() -> Seq<char> {
    "ABCDEFGHIJKLMNOPQRSTUVWXYZabcdefghijklmnopqrstuvwxyz0123456789+/"@
}

/// A number below 64 is shown by the character at its place of the alphabet.
proof fn alphabet_shows(n: int)
    requires
        0 <= n < 64,
    ensures
        crate::encoding::sextet(n) == alphabet()[n],
{
    reveal_strlit("ABCDEFGHIJKLMNOPQRSTUVWXYZabcdefghijklmnopqrstuvwxyz0123456789+/");
    let letters = alphabet();
    assert(letters[0] == 'A' && letters[1] == 'B' && letters[2] == 'C' && letters[3] == 'D');
    assert(letters[62] == '+' && letters[63] == '/');
}

/// Each three bytes of a file are four characters of its encoding, which show the
/// 24 bits in four numbers below 64; one or two bytes that are left over are filled
/// up with zero bits, and the text with `=`.
pub proof fn encoding_shows_the_bits(data: Seq<u8>, i: int)
    requires
        0 <= i,
        3 * i < data.len(),
    ensures
        ({
            let text = crate::encoding::base64_standard(data);
            let left = data.len() - 3 * i;
            let a = data[3 * i] as int;
            let b = if left >= 2 {
                data[3 * i + 1] as int
            } else {
                0
            };
            let c = if left >= 3 {
                data[3 * i + 2] as int
            } else {
                0
            };
            &&& text.len() == 4 * ((data.len() + 2) / 3)
            &&& text[4 * i] == alphabet()[a / 4]
            &&& text[4 * i + 1] == alphabet()[a % 4 * 16 + b / 16]
            &&& left >= 2 ==> text[4 * i + 2] == alphabet()[b % 16 * 4 + c / 64]
            &&& left >= 3 ==> text[4 * i + 3] == alphabet()[c % 64]
            &&& left == 1 ==> text[4 * i + 2] == '='
            &&& left <= 2 ==> text[4 * i + 3] == '='
        }),
    decreases i,
{
    crate::encoding::encoding_has_length(data);
    if i > 0 {
        let rest = data.skip(3);
        encoding_shows_the_bits(rest, i - 1);
        assert(rest[3 * (i - 1)] == data[3 * i]);
        if data.len() - 3 * i >= 2 {
            assert(rest[3 * (i - 1) + 1] == data[3 * i + 1]);
        }
        if data.len() - 3 * i >= 3 {
            assert(rest[3 * (i - 1) + 2] == data[3 * i + 2]);
        }
    } else {
        let a = data[0] as int;
        let b = if data.len() >= 2 {
            data[1] as int
        } else {
            0
        };
        let c = if data.len() >= 3 {
            data[2] as int
        } else {
            0
        };
        first_block(a, b, c);
        alphabet_shows(a / 4);
        alphabet_shows(a % 4 * 16 + b / 16);
        alphabet_shows(b % 16 * 4 + c / 64);
        alphabet_shows(c % 64);
    }
}

/// A number is its quotient and its remainder.
proof fn divides(number: int, divisor: int, quotient: int, remainder: int)
    requires
        divisor > 0,
        0 <= remainder < divisor,
        number == quotient * divisor + remainder,
    ensures
        number / divisor == quotient,
        number % divisor == remainder,
{
    vstd::arithmetic::div_mod::lemma_fundamental_div_mod_converse(
        number,
        divisor,
        quotient,
        remainder,
    );
}

/// The four numbers below 64 that three bytes are cut into.
proof fn first_block(a: int, b: int, c: int)
    requires
        0 <= a < 256,
        0 <= b < 256,
        0 <= c < 256,
    ensures
        ({
            let bits = a * 65536 + b * 256 + c;
            &&& bits / 262144 == a / 4
            &&& bits / 4096 % 64 == a % 4 * 16 + b / 16
            &&& bits / 64 % 64 == b % 16 * 4 + c / 64
            &&& bits % 64 == c % 64
        }),
        a * 16 / 64 == a / 4,
        a * 16 % 64 == a % 4 * 16,
        ({
            let bits = (a * 256 + b) * 4;
            &&& bits / 4096 == a / 4
            &&& bits / 64 % 64 == a % 4 * 16 + b / 16
            &&& bits % 64 == b % 16 * 4
        }),
{
    let (p, q) = (a / 4, a % 4);
    let (r, s) = (b / 16, b % 16);
    let (t, u) = (c / 64, c % 64);
    let three = a * 65536 + b * 256 + c;
    divides(three, 262144, p, q * 65536 + b * 256 + c);
    divides(three, 4096, p * 64 + q * 16 + r, s * 256 + c);
    divides(p * 64 + q * 16 + r, 64, p, q * 16 + r);
    divides(three, 64, (p * 64 + q * 16 + r) * 64 + s * 4 + t, u);
    divides((p * 64 + q * 16 + r) * 64 + s * 4 + t, 64, p * 64 + q * 16 + r, s * 4 + t);
    divides(a * 16, 64, p, q * 16);
    let two = (a * 256 + b) * 4;
    divides(two, 4096, p, q * 1024 + b * 4);
    divides(two, 64, p * 64 + q * 16 + r, s * 4);
}

} // verus!
