//! Laws of downloads: what is written, under which name, and what is reported.

use crate::download::{
    Counter, DownloadEffect, DownloadError, DownloadEvent, DownloadState, DownloadView, Stamp,
};
use crate::path::Directory;
use crate::status::HttpStatus;
use vstd::prelude::*;

verus! {

/// The states that a download goes through, with the effects that it asks for and
/// the events that are reported to it.
pub open spec fn download(
    states: Seq<DownloadState>,
    effects: Seq<DownloadEffect<'_>>,
    events: Seq<DownloadEvent>,
    directory: Directory,
) -> bool {
    &&& states.len() == events.len() + 1
    &&& effects.len() == states.len()
    &&& states[0] is Requesting
    &&& forall|i: int|
        0 <= i < states.len() ==> call_ensures(
            DownloadState::effect,
            (&#[trigger] states[i], &directory),
            effects[i],
        )
    &&& forall|i: int|
        0 <= i < events.len() ==> call_ensures(
            DownloadState::step,
            (#[trigger] states[i], events[i], &directory),
            states[i + 1],
        )
}

/// Without its last event, a download is still one.
proof fn shorter_download(
    states: Seq<DownloadState>,
    effects: Seq<DownloadEffect<'_>>,
    events: Seq<DownloadEvent>,
    directory: Directory,
)
    requires
        download(states, effects, events, directory),
        events.len() > 0,
    ensures
        download(states.drop_last(), effects.drop_last(), events.drop_last(), directory),
        states.last()@ == states.drop_last().last()@.next(events.last(), directory),
        states.last()@.asks(effects.last(), directory),
        states.drop_last().last()@.asks(effects.drop_last().last(), directory),
{
    let last = events.len() - 1;
    let before = states.drop_last();
    assert(states[last] == before.last());
    assert(states[last + 1] == states.last());
    assert forall|i: int| 0 <= i < before.len() implies call_ensures(
        DownloadState::effect,
        (&#[trigger] before[i], &directory),
        effects.drop_last()[i],
    ) by {
        assert(states[i] == before[i]);
    }
    assert forall|i: int| 0 <= i < events.drop_last().len() implies call_ensures(
        DownloadState::step,
        (#[trigger] before[i], events.drop_last()[i], &directory),
        before[i + 1],
    ) by {
        assert(states[i] == before[i]);
        assert(states[i + 1] == before[i + 1]);
    }
}

/// The bytes of the chunks that have come in, one after another: those that were
/// reported when the next chunk was asked for.
pub open spec fn arrived(effects: Seq<DownloadEffect<'_>>, events: Seq<DownloadEvent>) -> Seq<u8>
    decreases events.len(),
{
    if events.len() == 0 {
        Seq::empty()
    } else {
        let before = arrived(effects.drop_last(), events.drop_last());
        match (effects[events.len() - 1], events.last()) {
            (DownloadEffect::ReadChunk, DownloadEvent::Received(Ok(Some(chunk)))) => before
                + chunk@,
            _ => before,
        }
    }
}

/// The bytes that the caller was asked to write, one after another, and has
/// reported on.
pub open spec fn handed_over(effects: Seq<DownloadEffect<'_>>, events: Seq<DownloadEvent>) -> Seq<
    u8,
>
    decreases events.len(),
{
    if events.len() == 0 {
        Seq::empty()
    } else {
        let before = handed_over(effects.drop_last(), events.drop_last());
        match (effects[events.len() - 1], events.last()) {
            (DownloadEffect::WriteChunk(bytes), DownloadEvent::Done(_)) => before + bytes@,
            _ => before,
        }
    }
}

/// The bytes that are in the file: those that the caller was asked to write and
/// has reported as written, one after another.
pub open spec fn in_file(effects: Seq<DownloadEffect<'_>>, events: Seq<DownloadEvent>) -> Seq<u8>
    decreases events.len(),
{
    if events.len() == 0 {
        Seq::empty()
    } else {
        let before = in_file(effects.drop_last(), events.drop_last());
        match (effects[events.len() - 1], events.last()) {
            (DownloadEffect::WriteChunk(bytes), DownloadEvent::Done(Ok(_))) => before + bytes@,
            _ => before,
        }
    }
}

/// The bytes that the caller is asked to write are the bytes that have come in, all
/// of them and in order: together with the chunk that is being written, if there is
/// one, they make up what has come in.
pub proof fn asks_to_write_what_arrived(
    states: Seq<DownloadState>,
    effects: Seq<DownloadEffect<'_>>,
    events: Seq<DownloadEvent>,
    directory: Directory,
)
    requires
        download(states, effects, events, directory),
    ensures
        effects.last() matches DownloadEffect::WriteChunk(bytes) ==> arrived(effects, events)
            == handed_over(effects, events) + bytes@,
        effects.last() !is WriteChunk ==> arrived(effects, events) == handed_over(effects, events),
    decreases events.len(),
{
    if events.len() > 0 {
        shorter_download(states, effects, events, directory);
        asks_to_write_what_arrived(
            states.drop_last(),
            effects.drop_last(),
            events.drop_last(),
            directory,
        );
        assert(effects[events.len() - 1] == effects.drop_last().last());
    } else {
        assert(call_ensures(DownloadState::effect, (&states[0], &directory), effects[0]));
    }
}

/// The file holds what has come in whenever the next chunk is asked for, the file is
/// flushed or renamed, or the download has succeeded; and at all times the beginning
/// of it.
pub proof fn file_holds_what_arrived(
    states: Seq<DownloadState>,
    effects: Seq<DownloadEffect<'_>>,
    events: Seq<DownloadEvent>,
    directory: Directory,
)
    requires
        download(states, effects, events, directory),
    ensures
        match effects.last() {
            DownloadEffect::WriteChunk(bytes) => arrived(effects, events) == in_file(
                effects,
                events,
            ) + bytes@,
            DownloadEffect::Finish(Err(_)) => in_file(effects, events).is_prefix_of(
                arrived(effects, events),
            ),
            _ => in_file(effects, events) == arrived(effects, events),
        },
    decreases events.len(),
{
    if events.len() > 0 {
        shorter_download(states, effects, events, directory);
        file_holds_what_arrived(
            states.drop_last(),
            effects.drop_last(),
            events.drop_last(),
            directory,
        );
        assert(effects[events.len() - 1] == effects.drop_last().last());
    } else {
        assert(call_ensures(DownloadState::effect, (&states[0], &directory), effects[0]));
    }
}

/// The stamp that was given when one was asked for.
pub open spec fn given_stamp(effects: Seq<DownloadEffect<'_>>, events: Seq<DownloadEvent>) -> Option<
    Stamp,
>
    decreases events.len(),
{
    if events.len() == 0 {
        None
    } else {
        match (effects[events.len() - 1], events.last()) {
            (DownloadEffect::DrawStamp, DownloadEvent::Stamped(stamp)) => Some(stamp),
            _ => given_stamp(effects.drop_last(), events.drop_last()),
        }
    }
}

/// What the state of a download remembers of what was reported to it.
proof fn remembers_what_was_reported(
    states: Seq<DownloadState>,
    effects: Seq<DownloadEffect<'_>>,
    events: Seq<DownloadEvent>,
    directory: Directory,
)
    requires
        download(states, effects, events, directory),
    ensures
        ({
            let stamped = given_stamp(effects, events);
            let video = arrived(effects, events);
            let kept = crate::media::header_of(video);
            match states.last()@ {
                DownloadView::Creating { stamp } => stamped == Some(stamp) && video.len() == 0,
                DownloadView::Reading { stamp, header } => stamped == Some(stamp) && header
                    == kept,
                DownloadView::Writing { stamp, header, .. } => stamped == Some(stamp) && header
                    == kept,
                DownloadView::Flushing { stamp, header } => stamped == Some(stamp) && header
                    == kept,
                DownloadView::Renaming { stamp, header } => stamped == Some(stamp) && header
                    == kept,
                DownloadView::Finished(Ok(path)) => stamped matches Some(stamp) && path
                    == crate::download::final_path(directory, stamp, kept),
                DownloadView::Finished(Err(_)) => true,
                _ => video.len() == 0,
            }
        }),
    decreases events.len(),
{
    if events.len() > 0 {
        let before = arrived(effects.drop_last(), events.drop_last());
        let video = arrived(effects, events);
        shorter_download(states, effects, events, directory);
        remembers_what_was_reported(
            states.drop_last(),
            effects.drop_last(),
            events.drop_last(),
            directory,
        );
        assert(effects[events.len() - 1] == effects.drop_last().last());
        match (states.drop_last().last()@, events.last()) {
            (
                DownloadView::Reading { header, .. },
                DownloadEvent::Received(Ok(Some(chunk))),
            ) => {
                assert(video == before + chunk@);
                assert(crate::media::grown_header(header, chunk@) =~= crate::media::header_of(
                    video,
                ));
            },
            (DownloadView::Creating { .. }, DownloadEvent::Done(Ok(_))) => {
                assert(crate::media::header_of(video) =~= Seq::<u8>::empty());
            },
            _ => {},
        }
    }
}

/// The file is made, renamed and reported under names in the directory that consist
/// of the time and the number of the download in decimal, and of an extension: `tmp`
/// until it is complete, and from then on the one that the whole video shows.
pub proof fn file_is_named_after_its_stamp(
    states: Seq<DownloadState>,
    effects: Seq<DownloadEffect<'_>>,
    events: Seq<DownloadEvent>,
    directory: Directory,
    stamp: Stamp,
    seconds: String,
    sequence: String,
    video: &[u8],
    extension: &'static str,
    temporary_name: &str,
    final_name: &str,
    temporary: String,
    saved: String,
)
    requires
        download(states, effects, events, directory),
        given_stamp(effects, events) matches Some(given) ==> given == stamp,
        call_ensures(crate::text::decimal_text, (stamp.seconds,), seconds),
        call_ensures(crate::text::decimal_text, (stamp.sequence,), sequence),
        video@ == arrived(effects, events),
        call_ensures(crate::media::video_extension, (video,), extension),
        temporary_name@ == seconds@ + "_"@ + sequence@ + "."@ + "tmp"@,
        final_name@ == seconds@ + "_"@ + sequence@ + "."@ + extension@,
        call_ensures(Directory::join, (&directory, temporary_name), temporary),
        call_ensures(Directory::join, (&directory, final_name), saved),
    ensures
        effects.last() matches DownloadEffect::MakeFile { path } ==> path@ == temporary@,
        effects.last() matches DownloadEffect::Rename { from, to } ==> from@ == temporary@ && to@
            == saved@,
        effects.last() matches DownloadEffect::Finish(Ok(path)) ==> path@ == saved@,
        effects.last() is MakeFile || effects.last() is ReadChunk || effects.last() is WriteChunk
            || effects.last() is Flush || effects.last() is Rename ==> given_stamp(
            effects,
            events,
        ) is Some,
{
    remembers_what_was_reported(states, effects, events, directory);
    crate::media::header_decides_extension(video@);
    let last = states.len() - 1;
    assert(call_ensures(DownloadState::effect, (&states[last], &directory), effects[last]));
}

/// The steps of a download up to the first chunk. A number from 200 to 299 is an
/// acceptance, any other a refusal.
pub proof fn download_is_prepared(
    url: String,
    reply: Result<HttpStatus, String>,
    number: u16,
    stamp: Stamp,
    done: Result<(), String>,
    directory: Directory,
    replied: DownloadState,
    prepared: DownloadState,
    stamped: DownloadState,
    created: DownloadState,
)
    requires
        reply matches Ok(status) ==> call_ensures(HttpStatus::as_u16, (status,), number),
        call_ensures(
            DownloadState::step,
            (DownloadState::Requesting { url }, DownloadEvent::Replied(reply), &directory),
            replied,
        ),
        call_ensures(
            DownloadState::step,
            (DownloadState::Preparing, DownloadEvent::Done(done), &directory),
            prepared,
        ),
        call_ensures(
            DownloadState::step,
            (DownloadState::Stamping, DownloadEvent::Stamped(stamp), &directory),
            stamped,
        ),
        call_ensures(
            DownloadState::step,
            (DownloadState::Creating { stamp }, DownloadEvent::Done(done), &directory),
            created,
        ),
    ensures
        reply matches Ok(status) ==> if number >= 200 && number <= 299 {
            replied is Preparing
        } else {
            replied == DownloadState::Finished(Err(DownloadError::Refused(status)))
        },
        reply matches Err(error) ==> replied == DownloadState::Finished(
            Err(DownloadError::Unreachable(error)),
        ),
        done is Ok ==> prepared is Stamping,
        done matches Err(error) ==> prepared == DownloadState::Finished(
            Err(DownloadError::Directory(error)),
        ),
        stamped == (DownloadState::Creating { stamp }),
        done is Ok ==> (created matches DownloadState::Reading { stamp: kept, header } && kept
            == stamp && header@.len() == 0),
        done matches Err(error) ==> created == DownloadState::Finished(
            Err(DownloadError::Create(error)),
        ),
{
}

/// A chunk that comes in is to be written as it is, and its bytes fill up the kept
/// ones to twelve; the end of the video leads to the flush, and a failure ends the
/// download with its reason.
pub proof fn chunk_is_taken_in(
    stamp: Stamp,
    header: Vec<u8>,
    received: Result<Option<Vec<u8>>, String>,
    directory: Directory,
    after: DownloadState,
)
    requires
        call_ensures(
            DownloadState::step,
            (
                DownloadState::Reading { stamp, header },
                DownloadEvent::Received(received),
                &directory,
            ),
            after,
        ),
    ensures
        received matches Ok(Some(chunk)) ==> {
            &&& after matches DownloadState::Writing { stamp: kept, header: grown, chunk: written }
            &&& kept == stamp
            &&& written@ == chunk@
            &&& header@.len() >= 12 ==> grown@ == header@
            &&& header@.len() < 12 && header@.len() + chunk@.len() <= 12 ==> grown@ == header@
                + chunk@
            &&& header@.len() < 12 && header@.len() + chunk@.len() > 12 ==> grown@ == (header@
                + chunk@).take(12)
        },
        received matches Ok(None) ==> (after matches DownloadState::Flushing {
            stamp: kept,
            header: same,
        } && kept == stamp && same@ == header@),
        received matches Err(error) ==> after == DownloadState::Finished(
            Err(DownloadError::Stream(error)),
        ),
{
}

/// The steps of a download after each chunk and after the last one.
pub proof fn download_is_completed(
    stamp: Stamp,
    header: Vec<u8>,
    chunk: Vec<u8>,
    done: Result<(), String>,
    directory: Directory,
    written: DownloadState,
    flushed: DownloadState,
    renamed: DownloadState,
    rename: DownloadEffect<'_>,
)
    requires
        call_ensures(
            DownloadState::step,
            (
                DownloadState::Writing { stamp, header, chunk },
                DownloadEvent::Done(done),
                &directory,
            ),
            written,
        ),
        call_ensures(
            DownloadState::step,
            (DownloadState::Flushing { stamp, header }, DownloadEvent::Done(done), &directory),
            flushed,
        ),
        call_ensures(
            DownloadState::step,
            (DownloadState::Renaming { stamp, header }, DownloadEvent::Done(done), &directory),
            renamed,
        ),
        call_ensures(
            DownloadState::effect,
            (&DownloadState::Renaming { stamp, header }, &directory),
            rename,
        ),
    ensures
        done is Ok ==> (written matches DownloadState::Reading { stamp: kept, header: same }
            && kept == stamp && same@ == header@),
        done matches Err(error) ==> written == DownloadState::Finished(
            Err(DownloadError::Write(error)),
        ),
        done is Ok ==> (flushed matches DownloadState::Renaming { stamp: kept, header: same }
            && kept == stamp && same@ == header@),
        done matches Err(error) ==> flushed == DownloadState::Finished(
            Err(DownloadError::Flush(error)),
        ),
        done is Ok ==> (renamed matches DownloadState::Finished(Ok(path)) && rename
            matches DownloadEffect::Rename { to, .. } && path@ == to@),
        done matches Err(error) ==> renamed == DownloadState::Finished(
            Err(DownloadError::Rename(error)),
        ),
{
}

/// An event that answers something else changes nothing, and a download that has
/// finished stays as it is.
pub proof fn other_answers_change_nothing(
    state: DownloadState,
    event: DownloadEvent,
    directory: Directory,
    after: DownloadState,
)
    requires
        call_ensures(DownloadState::step, (state, event, &directory), after),
    ensures
        state is Finished ==> after@ == state@,
        state is Requesting && event !is Replied ==> after@ == state@,
        state is Stamping && event !is Stamped ==> after@ == state@,
        state is Reading && event !is Received ==> after@ == state@,
        (state is Preparing || state is Creating || state is Writing || state is Flushing || state
            is Renaming) && event !is Done ==> after@ == state@,
{
}

/// A download asks for the video at its address, for the directory of saved files,
/// for a stamp, and for each chunk; it writes the chunk that it holds.
pub proof fn download_asks_for_its_stage(
    state: DownloadState,
    directory: Directory,
    effect: DownloadEffect<'_>,
)
    requires
        call_ensures(DownloadState::effect, (&state, &directory), effect),
    ensures
        state matches DownloadState::Requesting { url } ==> (effect matches DownloadEffect::Get {
            url: address,
        } && address@ == url@),
        state is Preparing ==> (effect matches DownloadEffect::MakeDirectory { path } && path@
            == directory.path@),
        state is Stamping ==> effect is DrawStamp,
        state is Creating ==> effect is MakeFile,
        state is Reading ==> effect is ReadChunk,
        state matches DownloadState::Writing { chunk, .. } ==> (effect
            matches DownloadEffect::WriteChunk(bytes) && bytes@ == chunk@),
        state is Flushing ==> effect is Flush,
        state is Renaming ==> effect is Rename,
        state matches DownloadState::Finished(Ok(path)) ==> (effect
            matches DownloadEffect::Finish(Ok(shown)) && shown@ == path@),
        state matches DownloadState::Finished(Err(error)) ==> (effect
            matches DownloadEffect::Finish(Err(shown)) && *shown == error),
{
}

/// The files that a download makes and renames, in any state: the directory joined with
/// the time, the number and the extension, which is `tmp` at first and then the one that
/// the kept bytes show.
pub proof fn files_are_named_in_every_state(
    stamp: Stamp,
    header: Vec<u8>,
    directory: Directory,
    seconds: String,
    sequence: String,
    bytes: &[u8],
    extension: &'static str,
    temporary_name: &str,
    final_name: &str,
    temporary: String,
    saved: String,
    make: DownloadEffect<'_>,
    rename: DownloadEffect<'_>,
)
    requires
        call_ensures(crate::text::decimal_text, (stamp.seconds,), seconds),
        call_ensures(crate::text::decimal_text, (stamp.sequence,), sequence),
        bytes@ == header@,
        call_ensures(crate::media::video_extension, (bytes,), extension),
        temporary_name@ == seconds@ + "_"@ + sequence@ + "."@ + "tmp"@,
        final_name@ == seconds@ + "_"@ + sequence@ + "."@ + extension@,
        call_ensures(Directory::join, (&directory, temporary_name), temporary),
        call_ensures(Directory::join, (&directory, final_name), saved),
        call_ensures(
            DownloadState::effect,
            (&DownloadState::Creating { stamp }, &directory),
            make,
        ),
        call_ensures(
            DownloadState::effect,
            (&DownloadState::Renaming { stamp, header }, &directory),
            rename,
        ),
    ensures
        make matches DownloadEffect::MakeFile { path } && path@ == temporary@,
        rename matches DownloadEffect::Rename { from, to } && from@ == temporary@ && to@ == saved@,
{
}

/// What the user is told of a failed download.
pub proof fn failures_are_told(
    error: DownloadError,
    save_dir: &str,
    status: HttpStatus,
    line: String,
    message: String,
)
    requires
        call_ensures(DownloadError::message, (&error, save_dir), message),
        call_ensures(HttpStatus::line, (status,), line),
    ensures
        error matches DownloadError::Unreachable(why) ==> message@ == "Failed to download video: "@
            + why@,
        error matches DownloadError::Refused(shown) ==> (shown == status ==> message@
            == "Video download failed ("@ + line@ + ")"@),
        error matches DownloadError::Directory(why) ==> message@
            == "Failed to create save directory "@ + save_dir@ + ": "@ + why@,
        error matches DownloadError::Create(why) ==> message@ == "Failed to create temp file: "@
            + why@,
        error matches DownloadError::Stream(why) ==> message@ == "Stream read error: "@ + why@,
        error matches DownloadError::Write(why) ==> message@ == "Failed to write chunk: "@ + why@,
        error matches DownloadError::Flush(why) ==> message@ == "Failed to flush file: "@ + why@,
        error matches DownloadError::Rename(why) ==> message@ == "Failed to rename temp file: "@
            + why@,
{
}

/// What the user is told of a download that was refused with a given status line.
pub proof fn refusal_is_told(line: &str, message: String)
    requires
        call_ensures(crate::download::refused_message, (line,), message),
    ensures
        message@ == "Video download failed ("@ + line@ + ")"@,
{
}

/// A counter hands out the number that it stands at, with the time that it is given,
/// and then stands at the next one; after the largest number it begins again.
pub proof fn counter_hands_out_its_number(counter: &mut Counter, seconds: u64, stamp: Stamp)
    requires
        call_ensures(Counter::draw, (counter, seconds), stamp),
    ensures
        stamp.seconds == seconds,
        stamp.sequence == old(counter).next,
        old(counter).next < u64::MAX ==> final(counter).next == old(counter).next + 1,
        old(counter).next == u64::MAX ==> final(counter).next == 0,
{
}

/// A new counter begins at zero.
pub proof fn counting_begins_at_zero(counter: Counter)
    requires
        call_ensures(Counter::new, (), counter),
    ensures
        counter.next == 0,
{
}

} // verus!
