//! Downloading a video to a file.
//!
//! As with polling, the network and the disk are left to the caller: a
//! [`DownloadState`] names the effect it waits for, and the caller answers
//! with a [`DownloadEvent`].

use crate::media::{extend_header, video_extension};
use crate::path::Directory;
use crate::status::HttpStatus;
use crate::text::decimal_text;
use vstd::prelude::*;

verus! {

/// What a saved file is named after: the time, in seconds since the epoch, and
/// the number of the download.
#[derive(Clone, Copy, Debug)]
pub struct Stamp {
    pub seconds: u64,
    pub sequence: u64,
}

/// How a download stands.
#[derive(Debug)]
pub enum DownloadState {
    /// The video is to be requested.
    Requesting { url: String },
    /// The directory for the file is to be made.
    Preparing,
    /// The stamp is to be drawn.
    Stamping,
    /// The temporary file is to be made.
    Creating { stamp: Stamp },
    /// The next chunk is to be read.
    Reading { stamp: Stamp, header: Vec<u8> },
    /// The chunk is to be written.
    Writing { stamp: Stamp, header: Vec<u8>, chunk: Vec<u8> },
    /// The temporary file is complete and is to be flushed.
    Flushing { stamp: Stamp, header: Vec<u8> },
    /// The temporary file is to get its final name.
    Renaming { stamp: Stamp, header: Vec<u8> },
    /// The file is saved under the given path, or the attempt has failed.
    Finished(Result<String, DownloadError>),
}

/// What a download's state holds.
pub enum DownloadView {
    Requesting { url: Seq<char> },
    Preparing,
    Stamping,
    Creating { stamp: Stamp },
    Reading { stamp: Stamp, header: Seq<u8> },
    Writing { stamp: Stamp, header: Seq<u8>, chunk: Seq<u8> },
    Flushing { stamp: Stamp, header: Seq<u8> },
    Renaming { stamp: Stamp, header: Seq<u8> },
    Finished(Result<Seq<char>, DownloadError>),
}

/// What the caller reports to a download.
#[derive(Debug)]
pub enum DownloadEvent {
    /// A response came to the request, or why none came.
    Replied(Result<HttpStatus, String>),
    /// The time and the number of this download.
    Stamped(Stamp),
    /// The next chunk, nothing at the end of the video, or why reading failed.
    Received(Result<Option<Vec<u8>>, String>),
    /// The directory or the file is made, the chunk is written, or the file is
    /// flushed or renamed, or why that failed.
    Done(Result<(), String>),
}

/// What a download asks of its caller.
#[derive(Debug)]
pub enum DownloadEffect<'a> {
    /// Request the video; answer with `Replied`.
    Get { url: &'a str },
    /// Make a directory, with all above it; answer with `Done`.
    MakeDirectory { path: String },
    /// Draw a stamp; answer with `Stamped`.
    DrawStamp,
    /// Make a file; answer with `Done`.
    MakeFile { path: String },
    /// Read the next chunk; answer with `Received`.
    ReadChunk,
    /// Write a chunk to the file; answer with `Done`.
    WriteChunk(&'a Vec<u8>),
    /// Flush and close the file; answer with `Done`.
    Flush,
    /// Rename the file; answer with `Done`.
    Rename { from: String, to: String },
    /// Nothing more is asked.
    Finish(&'a Result<String, DownloadError>),
}

/// Why a download failed.
#[derive(Debug)]
pub enum DownloadError {
    /// The video could not be requested.
    Unreachable(String),
    /// The request was refused.
    Refused(HttpStatus),
    /// The directory could not be made.
    Directory(String),
    /// The temporary file could not be made.
    Create(String),
    /// The video broke off.
    Stream(String),
    /// A chunk could not be written.
    Write(String),
    /// The file could not be flushed.
    Flush(String),
    /// The file could not be renamed.
    Rename(String),
}

/// The name of a file with the given stamp and extension.
pub open spec fn file_name(stamp: Stamp, extension: Seq<char>) -> Seq<char> {
    crate::text::decimal(stamp.seconds as nat) + "_"@ + crate::text::decimal(
        stamp.sequence as nat,
    ) + "."@ + extension
}

/// The name of a file with the given stamp and extension.
fn name_file(stamp: Stamp, extension: &str) -> (name: String)
    ensures
        name@ == file_name(stamp, extension@),
{
    let mut name = decimal_text(stamp.seconds);
    name.append("_");
    name.append(decimal_text(stamp.sequence).as_str());
    name.append(".");
    name.append(extension);
    name
}

impl DownloadError {
    /// The message for the user, where files are saved in `save_dir`.
    pub open spec fn text(self, save_dir: Seq<char>) -> Seq<char> {
        match self {
            DownloadError::Unreachable(error) => "Failed to download video: "@ + error@,
            DownloadError::Refused(status) => "Video download failed ("@
                + crate::status::status_text(status.code()) + ")"@,
            DownloadError::Directory(error) => "Failed to create save directory "@ + save_dir
                + ": "@ + error@,
            DownloadError::Create(error) => "Failed to create temp file: "@ + error@,
            DownloadError::Stream(error) => "Stream read error: "@ + error@,
            DownloadError::Write(error) => "Failed to write chunk: "@ + error@,
            DownloadError::Flush(error) => "Failed to flush file: "@ + error@,
            DownloadError::Rename(error) => "Failed to rename temp file: "@ + error@,
        }
    }

    /// The message for the user, where files are saved in `save_dir`.
    pub fn message(&self, save_dir: &str) -> (message: String)
        ensures
            message@ == self.text(save_dir@),
    {
        match self {
            DownloadError::Unreachable(error) => explained("Failed to download video: ", error),
            DownloadError::Refused(status) => refused_message(status.line().as_str()),
            DownloadError::Directory(error) => {
                let mut message = "Failed to create save directory ".to_string();
                message.append(save_dir);
                message.append(": ");
                message.append(error.as_str());
                message
            },
            DownloadError::Create(error) => explained("Failed to create temp file: ", error),
            DownloadError::Stream(error) => explained("Stream read error: ", error),
            DownloadError::Write(error) => explained("Failed to write chunk: ", error),
            DownloadError::Flush(error) => explained("Failed to flush file: ", error),
            DownloadError::Rename(error) => explained("Failed to rename temp file: ", error),
        }
    }
}

/// The message for a download that was refused with the given status line.
pub fn refused_message(line: &str) -> (message: String)
    ensures
        message@ == "Video download failed ("@ + line@ + ")"@,
{
    let mut message = "Video download failed (".to_string();
    message.append(line);
    message.append(")");
    message
}

/// What failed, followed by why.
fn explained(what: &str, why: &String) -> (message: String)
    ensures
        message@ == what@ + why@,
{
    let mut message = what.to_string();
    message.append(why.as_str());
    message
}

/// What the outcome of a download holds.
pub open spec fn ending(outcome: Result<String, DownloadError>) -> Result<
    Seq<char>,
    DownloadError,
> {
    match outcome {
        Ok(path) => Ok(path@),
        Err(error) => Err(error),
    }
}

/// The path of the temporary file with the given stamp.
pub open spec fn temporary_path(directory: Directory, stamp: Stamp) -> Seq<char> {
    directory.entry(file_name(stamp, "tmp"@))
}

/// The path under which a video that begins with the given bytes is saved.
pub open spec fn final_path(directory: Directory, stamp: Stamp, header: Seq<u8>) -> Seq<char> {
    directory.entry(file_name(stamp, crate::media::extension_of(header)))
}

impl View for DownloadState {
    type V = DownloadView;

    open spec fn view(&self) -> DownloadView {
        match *self {
            DownloadState::Requesting { url } => DownloadView::Requesting { url: url@ },
            DownloadState::Preparing => DownloadView::Preparing,
            DownloadState::Stamping => DownloadView::Stamping,
            DownloadState::Creating { stamp } => DownloadView::Creating { stamp },
            DownloadState::Reading { stamp, header } => DownloadView::Reading {
                stamp,
                header: header@,
            },
            DownloadState::Writing { stamp, header, chunk } => DownloadView::Writing {
                stamp,
                header: header@,
                chunk: chunk@,
            },
            DownloadState::Flushing { stamp, header } => DownloadView::Flushing {
                stamp,
                header: header@,
            },
            DownloadState::Renaming { stamp, header } => DownloadView::Renaming {
                stamp,
                header: header@,
            },
            DownloadState::Finished(outcome) => DownloadView::Finished(ending(outcome)),
        }
    }
}

impl DownloadView {
    /// The state after an event, where files are saved in `directory`. An event
    /// that does not answer the effect that the state waits for changes nothing.
    pub open spec fn next(self, event: DownloadEvent, directory: Directory) -> DownloadView {
        match (self, event) {
            (DownloadView::Requesting { .. }, DownloadEvent::Replied(Ok(status))) => if crate::status::success_code(
                status.code(),
            ) {
                DownloadView::Preparing
            } else {
                DownloadView::Finished(Err(DownloadError::Refused(status)))
            },
            (
                DownloadView::Requesting { .. },
                DownloadEvent::Replied(Err(error)),
            ) => DownloadView::Finished(Err(DownloadError::Unreachable(error))),
            (DownloadView::Preparing, DownloadEvent::Done(Ok(_))) => DownloadView::Stamping,
            (DownloadView::Preparing, DownloadEvent::Done(Err(error))) => DownloadView::Finished(
                Err(DownloadError::Directory(error)),
            ),
            (DownloadView::Stamping, DownloadEvent::Stamped(stamp)) => DownloadView::Creating {
                stamp,
            },
            (DownloadView::Creating { stamp }, DownloadEvent::Done(Ok(_))) => DownloadView::Reading {
                stamp,
                header: Seq::empty(),
            },
            (DownloadView::Creating { .. }, DownloadEvent::Done(Err(error))) => DownloadView::Finished(
                Err(DownloadError::Create(error)),
            ),
            (
                DownloadView::Reading { stamp, header },
                DownloadEvent::Received(Ok(Some(chunk))),
            ) => DownloadView::Writing {
                stamp,
                header: crate::media::grown_header(header, chunk@),
                chunk: chunk@,
            },
            (
                DownloadView::Reading { stamp, header },
                DownloadEvent::Received(Ok(None)),
            ) => DownloadView::Flushing { stamp, header },
            (
                DownloadView::Reading { .. },
                DownloadEvent::Received(Err(error)),
            ) => DownloadView::Finished(Err(DownloadError::Stream(error))),
            (
                DownloadView::Writing { stamp, header, .. },
                DownloadEvent::Done(Ok(_)),
            ) => DownloadView::Reading { stamp, header },
            (DownloadView::Writing { .. }, DownloadEvent::Done(Err(error))) => DownloadView::Finished(
                Err(DownloadError::Write(error)),
            ),
            (
                DownloadView::Flushing { stamp, header },
                DownloadEvent::Done(Ok(_)),
            ) => DownloadView::Renaming { stamp, header },
            (DownloadView::Flushing { .. }, DownloadEvent::Done(Err(error))) => DownloadView::Finished(
                Err(DownloadError::Flush(error)),
            ),
            (
                DownloadView::Renaming { stamp, header },
                DownloadEvent::Done(Ok(_)),
            ) => DownloadView::Finished(Ok(final_path(directory, stamp, header))),
            (DownloadView::Renaming { .. }, DownloadEvent::Done(Err(error))) => DownloadView::Finished(
                Err(DownloadError::Rename(error)),
            ),
            _ => self,
        }
    }

    /// Whether an effect is what the state waits for.
    pub open spec fn asks(self, effect: DownloadEffect<'_>, directory: Directory) -> bool {
        match self {
            DownloadView::Requesting { url } => effect matches DownloadEffect::Get {
                url: address,
            } && address@ == url,
            DownloadView::Preparing => effect matches DownloadEffect::MakeDirectory { path }
                && path@ == directory.path@,
            DownloadView::Stamping => effect is DrawStamp,
            DownloadView::Creating { stamp } => effect matches DownloadEffect::MakeFile { path }
                && path@ == temporary_path(directory, stamp),
            DownloadView::Reading { .. } => effect is ReadChunk,
            DownloadView::Writing { chunk, .. } => effect matches DownloadEffect::WriteChunk(
                bytes,
            ) && bytes@ == chunk,
            DownloadView::Flushing { .. } => effect is Flush,
            DownloadView::Renaming { stamp, header } => effect matches DownloadEffect::Rename {
                from,
                to,
            } && from@ == temporary_path(directory, stamp) && to@ == final_path(
                directory,
                stamp,
                header,
            ),
            DownloadView::Finished(outcome) => effect matches DownloadEffect::Finish(result)
                && ending(*result) == outcome,
        }
    }
}

impl DownloadState {
    /// The state after an event, where files are saved in `directory`.
    pub fn step(self, event: DownloadEvent, directory: &Directory) -> (state: DownloadState)
        ensures
            state@ == self@.next(event, *directory),
    {
        match (self, event) {
            (DownloadState::Requesting { url: _ }, DownloadEvent::Replied(Ok(status))) => {
                if status.is_success() {
                    DownloadState::Preparing
                } else {
                    DownloadState::Finished(Err(DownloadError::Refused(status)))
                }
            },
            (DownloadState::Requesting { url: _ }, DownloadEvent::Replied(Err(error))) => {
                DownloadState::Finished(Err(DownloadError::Unreachable(error)))
            },
            (DownloadState::Preparing, DownloadEvent::Done(Ok(_))) => DownloadState::Stamping,
            (DownloadState::Preparing, DownloadEvent::Done(Err(error))) => DownloadState::Finished(
                Err(DownloadError::Directory(error)),
            ),
            (DownloadState::Stamping, DownloadEvent::Stamped(stamp)) => DownloadState::Creating {
                stamp,
            },
            (DownloadState::Creating { stamp }, DownloadEvent::Done(Ok(_))) => {
                DownloadState::Reading { stamp, header: Vec::new() }
            },
            (DownloadState::Creating { stamp: _ }, DownloadEvent::Done(Err(error))) => {
                DownloadState::Finished(Err(DownloadError::Create(error)))
            },
            (
                DownloadState::Reading { stamp, header },
                DownloadEvent::Received(Ok(Some(chunk))),
            ) => {
                let mut header = header;
                extend_header(&mut header, chunk.as_slice());
                DownloadState::Writing { stamp, header, chunk }
            },
            (DownloadState::Reading { stamp, header }, DownloadEvent::Received(Ok(None))) => {
                DownloadState::Flushing { stamp, header }
            },
            (
                DownloadState::Reading { stamp: _, header: _ },
                DownloadEvent::Received(Err(error)),
            ) => DownloadState::Finished(Err(DownloadError::Stream(error))),
            (
                DownloadState::Writing { stamp, header, chunk: _ },
                DownloadEvent::Done(Ok(_)),
            ) => DownloadState::Reading { stamp, header },
            (
                DownloadState::Writing { stamp: _, header: _, chunk: _ },
                DownloadEvent::Done(Err(error)),
            ) => DownloadState::Finished(Err(DownloadError::Write(error))),
            (DownloadState::Flushing { stamp, header }, DownloadEvent::Done(Ok(_))) => {
                DownloadState::Renaming { stamp, header }
            },
            (
                DownloadState::Flushing { stamp: _, header: _ },
                DownloadEvent::Done(Err(error)),
            ) => DownloadState::Finished(Err(DownloadError::Flush(error))),
            (DownloadState::Renaming { stamp, header }, DownloadEvent::Done(Ok(_))) => {
                let name = name_file(stamp, video_extension(header.as_slice()));
                DownloadState::Finished(Ok(directory.join(name.as_str())))
            },
            (
                DownloadState::Renaming { stamp: _, header: _ },
                DownloadEvent::Done(Err(error)),
            ) => DownloadState::Finished(Err(DownloadError::Rename(error))),
            (state, _) => state,
        }
    }

    /// What the state waits for, where files are saved in `directory`.
    pub fn effect<'a>(&'a self, directory: &Directory) -> (effect: DownloadEffect<'a>)
        ensures
            self@.asks(effect, *directory),
    {
        match self {
            DownloadState::Requesting { url } => DownloadEffect::Get { url: url.as_str() },
            DownloadState::Preparing => DownloadEffect::MakeDirectory {
                path: directory.path.clone(),
            },
            DownloadState::Stamping => DownloadEffect::DrawStamp,
            DownloadState::Creating { stamp } => DownloadEffect::MakeFile {
                path: directory.join(name_file(*stamp, "tmp").as_str()),
            },
            DownloadState::Reading { stamp: _, header: _ } => DownloadEffect::ReadChunk,
            DownloadState::Writing { stamp: _, header: _, chunk } => DownloadEffect::WriteChunk(
                chunk,
            ),
            DownloadState::Flushing { stamp: _, header: _ } => DownloadEffect::Flush,
            DownloadState::Renaming { stamp, header } => DownloadEffect::Rename {
                from: directory.join(name_file(*stamp, "tmp").as_str()),
                to: directory.join(
                    name_file(*stamp, video_extension(header.as_slice())).as_str(),
                ),
            },
            DownloadState::Finished(outcome) => DownloadEffect::Finish(outcome),
        }
    }
}

/// The state after several events.
pub open spec fn run(start: DownloadView, events: Seq<DownloadEvent>, directory: Directory) -> DownloadView
    decreases events.len(),
{
    if events.len() == 0 {
        start
    } else {
        run(start, events.drop_last(), directory).next(events.last(), directory)
    }
}

/// The chunks that have come in, in order.
pub open spec fn received(start: DownloadView, events: Seq<DownloadEvent>, directory: Directory) -> Seq<Seq<u8>>
    decreases events.len(),
{
    if events.len() == 0 {
        Seq::empty()
    } else {
        let before = received(start, events.drop_last(), directory);
        match (run(start, events.drop_last(), directory), events.last()) {
            (
                DownloadView::Reading { .. },
                DownloadEvent::Received(Ok(Some(chunk))),
            ) => before.push(chunk@),
            _ => before,
        }
    }
}

/// The chunks that have been written to the file, in order.
pub open spec fn written(start: DownloadView, events: Seq<DownloadEvent>, directory: Directory) -> Seq<Seq<u8>>
    decreases events.len(),
{
    if events.len() == 0 {
        Seq::empty()
    } else {
        let before = written(start, events.drop_last(), directory);
        match (run(start, events.drop_last(), directory), events.last()) {
            (DownloadView::Writing { chunk, .. }, DownloadEvent::Done(Ok(_))) => before.push(chunk),
            _ => before,
        }
    }
}

impl DownloadView {
    /// Whether an event answers the effect that the state waits for.
    pub open spec fn answered_by(self, event: DownloadEvent) -> bool {
        match self {
            DownloadView::Requesting { .. } => event is Replied,
            DownloadView::Stamping => event is Stamped,
            DownloadView::Reading { .. } => event is Received,
            DownloadView::Preparing
            | DownloadView::Creating { .. }
            | DownloadView::Writing { .. }
            | DownloadView::Flushing { .. }
            | DownloadView::Renaming { .. } => event is Done,
            DownloadView::Finished(_) => false,
        }
    }

    /// The bytes that are kept to tell the format.
    pub open spec fn header(self) -> Option<Seq<u8>> {
        match self {
            DownloadView::Reading { header, .. } => Some(header),
            DownloadView::Writing { header, .. } => Some(header),
            DownloadView::Flushing { header, .. } => Some(header),
            DownloadView::Renaming { header, .. } => Some(header),
            _ => None,
        }
    }

    /// The stamp, once it is drawn.
    pub open spec fn stamp(self) -> Option<Stamp> {
        match self {
            DownloadView::Creating { stamp } => Some(stamp),
            DownloadView::Reading { stamp, .. } => Some(stamp),
            DownloadView::Writing { stamp, .. } => Some(stamp),
            DownloadView::Flushing { stamp, .. } => Some(stamp),
            DownloadView::Renaming { stamp, .. } => Some(stamp),
            _ => None,
        }
    }
}

/// An event moves a download on exactly when it answers the effect that the
/// download waits for.
pub proof fn only_answers_move(state: DownloadView, event: DownloadEvent, directory: Directory)
    ensures
        state.next(event, directory) != state <==> state.answered_by(event),
{
}

/// What has finished stays as it is, whatever is reported later.
pub proof fn finished_for_good(start: DownloadView, events: Seq<DownloadEvent>, directory: Directory)
    requires
        start is Finished,
    ensures
        run(start, events, directory) == start,
    decreases events.len(),
{
    if events.len() > 0 {
        finished_for_good(start, events.drop_last(), directory);
    }
}

/// Every chunk that came in is written, unchanged and in order, before the next
/// one is asked for and before the file is flushed and renamed.
pub proof fn writes_what_came(url: Seq<char>, events: Seq<DownloadEvent>, directory: Directory)
    ensures
        ({
            let start = DownloadView::Requesting { url };
            let came = received(start, events, directory);
            let wrote = written(start, events, directory);
            match run(start, events, directory) {
                DownloadView::Writing { chunk, .. } => came == wrote.push(chunk),
                DownloadView::Finished(Err(_)) => wrote.is_prefix_of(came),
                _ => came == wrote,
            }
        }),
    decreases events.len(),
{
    if events.len() > 0 {
        writes_what_came(url, events.drop_last(), directory);
    }
}

/// The header consists of the first bytes of what came in, however it was cut
/// into chunks; of a longer video no more than these bytes are kept.
pub proof fn header_is_start_of_video(url: Seq<char>, events: Seq<DownloadEvent>, directory: Directory)
    ensures
        ({
            let start = DownloadView::Requesting { url };
            let came = received(start, events, directory);
            let state = run(start, events, directory);
            &&& state.header() matches Some(header) ==> header == crate::media::header_of(
                crate::media::concatenation(came),
            ) && header.len() <= crate::media::HEADER_LENGTH
            &&& state is Requesting || state is Preparing || state is Stamping || state
                is Creating ==> came.len() == 0
        }),
    decreases events.len(),
{
    let start = DownloadView::Requesting { url };
    let came = received(start, events, directory);
    crate::media::header_ignores_chunking(came);
    if events.len() > 0 {
        let earlier = received(start, events.drop_last(), directory);
        header_is_start_of_video(url, events.drop_last(), directory);
        crate::media::header_ignores_chunking(earlier);
        if came != earlier {
            assert(came.drop_last() =~= earlier);
        } else if came.len() == 0 {
            assert(crate::media::concatenation(came) =~= Seq::<u8>::empty());
        }
    } else {
        assert(came =~= Seq::<Seq<u8>>::empty());
    }
}

/// The final name has the extension that the whole video shows.
pub proof fn extension_fits_video(url: Seq<char>, events: Seq<DownloadEvent>, directory: Directory)
    requires
        run(DownloadView::Requesting { url }, events, directory) is Renaming,
    ensures
        crate::media::extension_of(
            run(DownloadView::Requesting { url }, events, directory)->Renaming_header,
        ) == crate::media::extension_of(
            crate::media::concatenation(received(DownloadView::Requesting { url }, events, directory)),
        ),
{
    header_is_start_of_video(url, events, directory);
    crate::media::header_decides_extension(
        crate::media::concatenation(received(DownloadView::Requesting { url }, events, directory)),
    );
}

/// A download that succeeds saves the whole video where it says: it has come to
/// its end, all that came in was written in order, and the path that it reports
/// is that of a file in the directory for saved files, named after the stamp that
/// was drawn and with the extension that the video shows.
pub proof fn saved_file_is_complete(
    url: Seq<char>,
    events: Seq<DownloadEvent>,
    directory: Directory,
)
    ensures
        ({
            let start = DownloadView::Requesting { url };
            let came = received(start, events, directory);
            let state = run(start, events, directory);
            &&& state.stamp() matches Some(stamp) ==> events.contains(DownloadEvent::Stamped(stamp))
            &&& state is Flushing || state is Renaming ==> events.contains(
                DownloadEvent::Received(Ok(None)),
            )
            &&& state matches DownloadView::Finished(Ok(path)) ==> {
                &&& events.contains(DownloadEvent::Received(Ok(None)))
                &&& written(start, events, directory) == came
                &&& exists|stamp: Stamp| #[trigger]
                    events.contains(DownloadEvent::Stamped(stamp)) && path == final_path(
                        directory,
                        stamp,
                        crate::media::concatenation(came),
                    )
            }
        }),
    decreases events.len(),
{
    let start = DownloadView::Requesting { url };
    writes_what_came(url, events, directory);
    if events.len() > 0 {
        let earlier = events.drop_last();
        let before = run(start, earlier, directory);
        saved_file_is_complete(url, earlier, directory);
        assert forall|event: DownloadEvent| #[trigger]
            earlier.contains(event) implies events.contains(event) by {
            let i = choose|i: int| 0 <= i < earlier.len() && earlier[i] == event;
            assert(events[i] == event);
        }
        assert(events.contains(events.last())) by {
            assert(events[events.len() - 1] == events.last());
        }
        if before is Renaming {
            extension_fits_video(url, earlier, directory);
            assert(events.contains(DownloadEvent::Stamped(before.stamp()->0)));
        }
        if let DownloadView::Finished(Ok(path)) = before {
            let stamp = choose|stamp: Stamp| #[trigger]
                earlier.contains(DownloadEvent::Stamped(stamp)) && path == final_path(
                    directory,
                    stamp,
                    crate::media::concatenation(received(start, earlier, directory)),
                );
            assert(events.contains(DownloadEvent::Stamped(stamp)));
        }
    }
}

/// A stamp stays: what is renamed is the file that was made.
pub proof fn stamp_is_kept(start: DownloadView, events: Seq<DownloadEvent>, directory: Directory)
    requires
        start.stamp() is Some,
    ensures
        run(start, events, directory).stamp() == start.stamp() || run(start, events, directory) is Finished,
    decreases events.len(),
{
    if events.len() > 0 {
        stamp_is_kept(start, events.drop_last(), directory);
    }
}

/// Two saved files have the same name only if they have the same stamp and the
/// same extension: downloads with different numbers never share a file, and
/// no final name is that of a temporary file.
pub proof fn file_names_are_distinct(
    first: Stamp,
    first_extension: Seq<char>,
    second: Stamp,
    second_extension: Seq<char>,
)
    requires
        file_name(first, first_extension) == file_name(second, second_extension),
    ensures
        first == second,
        first_extension == second_extension,
{
    reveal_strlit("_");
    reveal_strlit(".");
    let seconds_1 = crate::text::decimal(first.seconds as nat);
    let seconds_2 = crate::text::decimal(second.seconds as nat);
    let sequence_1 = crate::text::decimal(first.sequence as nat);
    let sequence_2 = crate::text::decimal(second.sequence as nat);
    crate::text::decimal_digits(first.seconds as nat);
    crate::text::decimal_digits(second.seconds as nat);
    crate::text::decimal_digits(first.sequence as nat);
    crate::text::decimal_digits(second.sequence as nat);
    let rest_1 = sequence_1 + seq!['.'] + first_extension;
    let rest_2 = sequence_2 + seq!['.'] + second_extension;
    assert("_"@ =~= seq!['_']);
    assert("."@ =~= seq!['.']);
    assert(file_name(first, first_extension) =~= seconds_1 + seq!['_'] + rest_1);
    assert(file_name(second, second_extension) =~= seconds_2 + seq!['_'] + rest_2);
    crate::text::first_mark_splits(seconds_1, rest_1, seconds_2, rest_2, '_');
    crate::text::first_mark_splits(
        sequence_1,
        first_extension,
        sequence_2,
        second_extension,
        '.',
    );
    crate::text::decimal_injective(first.seconds as nat, second.seconds as nat);
    crate::text::decimal_injective(first.sequence as nat, second.sequence as nat);
}

/// The number after another one; after the largest the count begins again.
pub open spec fn successor(n: u64) -> u64 {
    if n == u64::MAX {
        0
    } else {
        (n + 1) as u64
    }
}

/// The number that a counter hands out at the given draw, the first being draw 0.
pub open spec fn drawn(draw: nat) -> u64
    decreases draw,
{
    if draw == 0 {
        0
    } else {
        successor(drawn((draw - 1) as nat))
    }
}

/// The counter that numbers the downloads of a server and of its copies.
#[derive(Debug)]
pub struct Counter {
    pub next: u64,
}

impl Counter {
    /// A counter that has handed out nothing.
    pub fn new() -> (counter: Counter)
        ensures
            counter.next == drawn(0),
    {
        Counter { next: 0 }
    }

    /// Stamp a download with the time and the next number.
    pub fn draw(&mut self, seconds: u64) -> (stamp: Stamp)
        ensures
            stamp == (Stamp { seconds, sequence: old(self).next }),
            final(self).next == successor(old(self).next),
            forall|draw: nat|
                old(self).next == #[trigger] drawn(draw) ==> final(self).next == drawn(draw + 1),
    {
        let sequence: u64 = self.next;
        self.next = if sequence == u64::MAX {
            0
        } else {
            sequence + 1
        };
        Stamp { seconds, sequence }
    }
}

/// The numbers count the draws, and begin again after 2^64 of them.
pub proof fn drawn_counts(draw: nat)
    ensures
        drawn(draw) == draw % 0x1_0000_0000_0000_0000,
    decreases draw,
{
    if draw > 0 {
        drawn_counts((draw - 1) as nat);
    }
}

/// No number is handed out twice in 2^64 draws.
pub proof fn draws_are_distinct(first: nat, second: nat)
    requires
        first < second < first + 0x1_0000_0000_0000_0000,
    ensures
        drawn(first) != drawn(second),
{
    drawn_counts(first);
    drawn_counts(second);
}

/// Two downloads that draw their numbers from one counter never touch the same
/// file, neither under a temporary nor under a final name, even within the same
/// second: none of the two paths of the one is a path of the other.
pub proof fn downloads_never_collide(
    directory: Directory,
    first_draw: nat,
    first_seconds: u64,
    first_header: Seq<u8>,
    second_draw: nat,
    second_seconds: u64,
    second_header: Seq<u8>,
)
    requires
        first_draw < second_draw < first_draw + 0x1_0000_0000_0000_0000,
    ensures
        ({
            let first = Stamp { seconds: first_seconds, sequence: drawn(first_draw) };
            let second = Stamp { seconds: second_seconds, sequence: drawn(second_draw) };
            &&& temporary_path(directory, first) != temporary_path(directory, second)
            &&& temporary_path(directory, first) != final_path(directory, second, second_header)
            &&& final_path(directory, first, first_header) != temporary_path(directory, second)
            &&& final_path(directory, first, first_header) != final_path(
                directory,
                second,
                second_header,
            )
        }),
{
    draws_are_distinct(first_draw, second_draw);
    let first = Stamp { seconds: first_seconds, sequence: drawn(first_draw) };
    let second = Stamp { seconds: second_seconds, sequence: drawn(second_draw) };
    stamps_keep_apart(directory, first, "tmp"@, second, "tmp"@);
    stamps_keep_apart(
        directory,
        first,
        "tmp"@,
        second,
        crate::media::extension_of(second_header),
    );
    stamps_keep_apart(
        directory,
        first,
        crate::media::extension_of(first_header),
        second,
        "tmp"@,
    );
    stamps_keep_apart(
        directory,
        first,
        crate::media::extension_of(first_header),
        second,
        crate::media::extension_of(second_header),
    );
}

/// Files with different stamps have different paths.
proof fn stamps_keep_apart(
    directory: Directory,
    first: Stamp,
    first_extension: Seq<char>,
    second: Stamp,
    second_extension: Seq<char>,
)
    requires
        first != second,
    ensures
        directory.entry(file_name(first, first_extension)) != directory.entry(
            file_name(second, second_extension),
        ),
{
    let first_name = file_name(first, first_extension);
    let second_name = file_name(second, second_extension);
    if directory.entry(first_name) == directory.entry(second_name) {
        crate::path::entries_are_distinct(directory, first_name, second_name);
        file_names_are_distinct(first, first_extension, second, second_extension);
    }
}

} // verus!
