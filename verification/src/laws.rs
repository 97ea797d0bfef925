//! What holds of every run of a session, whatever the device and the user do.

use crate::line::ReadOutcomeView;
use crate::outcome::Failure;
use crate::outcome::Notice;
use crate::outcome::Outcome;
use crate::ready::has_ready_signal;
use crate::ready::lemma_signal_stays;
use crate::ready::signal_at;
use crate::terminal::lemma_initial_is_wf;
use crate::terminal::lemma_next_keeps_wf;
use crate::terminal::CommandView;
use crate::terminal::EventView;
use crate::terminal::Phase;
use crate::terminal::SessionView;
use crate::terminal::SizeStage;
use crate::wire::ack;
use crate::wire::chunk;
use crate::wire::chunk_count;
use crate::wire::chunks;
use crate::wire::header_of;
use crate::wire::joined;
use crate::wire::lemma_chunk_lengths;
use crate::wire::lemma_chunks_rebuild_image;
use crate::wire::lemma_header_round_trip;
use crate::wire::le_value;
use vstd::prelude::*;

verus! {

/// The events of one read after another, each bringing one of `pieces`.
pub open spec fn reads_of(pieces: Seq<Seq<u8>>) -> Seq<EventView> {
    Seq::new(pieces.len(), |i: int| EventView::Read(ReadOutcomeView::Data(pieces[i])))
}

/// What the device sends while its request is awaited is all heard: each read
/// adds its bytes to the stream, and the session goes on to load the image
/// exactly when the stream, as far as it has come, holds the ready signal.
pub proof fn lemma_ready_signal_starts_the_push(s: SessionView, event: EventView)
    requires
        s.wf(),
        s.phase == Phase::AwaitPayloadRequest,
    ensures
        s.next(event).phase == Phase::SendSize(SizeStage::LoadImage) <==> (event matches
            EventView::Read(ReadOutcomeView::Data(bytes)) && has_ready_signal(s.heard + bytes)),
        event matches EventView::Read(ReadOutcomeView::Data(bytes)) ==> s.next(event).heard
            == s.heard + bytes && s.echo(event) == bytes,
        !(s.next(event).pending() is Write),
{
}

/// A session that pushes an image has left the phase in which it awaits the
/// device's request exactly when the ready signal is in what it has heard.
pub proof fn lemma_past_request_iff_signal(s: SessionView)
    requires
        s.wf(),
        s.is_loader(),
        s.phase == Phase::AwaitPayloadRequest || s.phase is SendSize || s.phase
            == Phase::SendPayload || s.phase == Phase::Complete || s.phase == Phase::Handoff,
    ensures
        s.phase != Phase::AwaitPayloadRequest <==> has_ready_signal(s.heard),
{
}

/// However the device's output is cut into reads, the session goes on from
/// awaiting the request exactly when three ready bytes in a row stand
/// somewhere in the output: within one read or across several.
pub proof fn lemma_request_is_heard_across_reads(s: SessionView, pieces: Seq<Seq<u8>>)
    requires
        s.wf(),
        s.phase == Phase::AwaitPayloadRequest,
    ensures
        s.after(reads_of(pieces)).phase == if has_ready_signal(s.heard + joined(pieces)) {
            Phase::SendSize(SizeStage::LoadImage)
        } else {
            Phase::AwaitPayloadRequest
        },
        s.after(reads_of(pieces)).wf(),
        !has_ready_signal(s.heard + joined(pieces)) ==> s.after(reads_of(pieces)).heard == s.heard
            + joined(pieces),
    decreases pieces.len(),
{
    let events = reads_of(pieces);
    if pieces.len() == 0 {
        assert(s.heard + joined(pieces) =~= s.heard);
    } else {
        let earlier = pieces.drop_last();
        let last = pieces.last();
        lemma_request_is_heard_across_reads(s, earlier);
        assert(events.drop_last() =~= reads_of(earlier));
        assert(events.last() == EventView::Read(ReadOutcomeView::Data(last)));
        let before = s.after(reads_of(earlier));
        lemma_next_keeps_wf(before, events.last());
        assert(s.heard + joined(pieces) =~= (s.heard + joined(earlier)) + last);
        if has_ready_signal(s.heard + joined(earlier)) {
            lemma_signal_stays(s.heard + joined(earlier), last);
        }
    }
}

/// A complete push has written the device the size header, four bytes that
/// hold the length of the image, and then the image in chunks: as many as the
/// length divided by 512, rounded up, each of them full but for the last, and
/// together the image, byte for byte.
pub proof fn lemma_complete_push(s: SessionView)
    requires
        s.wf(),
        s.phase == Phase::Complete || (s.phase == Phase::Handoff && s.is_loader()),
    ensures
        s.writes.len() == 1 + chunk_count(s.image.len()),
        s.writes[0] == header_of(s.image.len()),
        s.writes[0].len() == 4,
        le_value(s.writes[0]) == s.image.len(),
        forall|i: int|
            0 <= i < chunk_count(s.image.len()) ==> #[trigger] s.writes[1 + i] == chunk(
                s.image,
                i as nat,
            ),
        joined(s.writes.skip(1)) == s.image,
        s.image.len() > 0 ==> s.writes.last().len() == if s.image.len() % 512 == 0 {
            512
        } else {
            s.image.len() % 512
        },
        forall|i: int|
            0 <= i < chunk_count(s.image.len()) - 1 ==> (#[trigger] s.writes[1 + i]).len() == 512,
{
    let count = chunk_count(s.image.len());
    let plan = s.planned_writes();
    lemma_header_round_trip(s.image.len());
    assert(s.writes =~= plan);
    assert(s.writes.skip(1) =~= chunks(s.image, count));
    lemma_chunks_rebuild_image(s.image);
    if s.image.len() > 0 {
        lemma_chunk_lengths(s.image, (count - 1) as nat);
    }
    assert forall|i: int| 0 <= i < count - 1 implies (#[trigger] s.writes[1 + i]).len() == 512 by {
        lemma_chunk_lengths(s.image, i as nat);
    }
}

/// While the image is sent, each write that is carried out is the next chunk,
/// and the count of bytes sent grows by its length.
pub proof fn lemma_payload_goes_chunk_by_chunk(s: SessionView)
    requires
        s.wf(),
        s.phase == Phase::SendPayload,
    ensures
        s.pending() == CommandView::Write(chunk(s.image, s.sent / 512)),
        chunk(s.image, s.sent / 512) == s.image.subrange(
            s.sent as int,
            s.next(EventView::Done).sent as int,
        ),
        0 < chunk(s.image, s.sent / 512).len() <= 512,
        s.next(EventView::Done).sent == s.sent + chunk(s.image, s.sent / 512).len(),
        s.next(EventView::Done).phase == Phase::Complete <==> s.next(EventView::Done).sent
            == s.image.len(),
{
    lemma_chunk_lengths(s.image, s.sent / 512);
}

/// The count of bytes sent never falls, and never exceeds the length of the image.
pub proof fn lemma_sent_only_grows(s: SessionView, event: EventView)
    requires
        s.wf(),
    ensures
        s.sent <= s.next(event).sent <= s.next(event).image.len(),
{
    lemma_next_keeps_wf(s, event);
}

/// An answer to the size header that is not the acknowledgement ends the run
/// with status 1 and a diagnostic.
pub proof fn lemma_wrong_ack_is_fatal(s: SessionView, response: Seq<u8>)
    requires
        s.wf(),
        s.phase == Phase::SendSize(SizeStage::AwaitAck),
        response.len() > 0,
        response != ack(),
    ensures
        s.next(EventView::Read(ReadOutcomeView::Data(response))).phase == Phase::Stopped(
            Outcome::Failed(Failure::Desync),
        ),
        s.next(EventView::Read(ReadOutcomeView::Data(response))).pending() == (CommandView::Exit {
            status: 1,
        }),
        s.notice(EventView::Read(ReadOutcomeView::Data(response))) == Some(
            Notice::Error(Failure::Desync),
        ),
{
}

/// As long as the device has not acknowledged the size header, nothing of the
/// image is sent, whatever else happens and however long it takes: the header
/// stays the only write, and no write is asked for.
pub proof fn lemma_no_payload_without_ack(s: SessionView, events: Seq<EventView>)
    requires
        s.wf(),
        s.phase == Phase::SendSize(SizeStage::AwaitAck),
        forall|i: int|
            0 <= i < events.len() ==> events[i] != EventView::Read(ReadOutcomeView::Data(ack())),
    ensures
        s.after(events).phase == Phase::SendSize(SizeStage::AwaitAck) || s.after(events).phase
            is Stopped,
        s.after(events).sent == 0,
        s.after(events).writes == seq![header_of(s.image.len())],
        !(s.after(events).pending() is Write),
    decreases events.len(),
{
    if events.len() == 0 {
        assert(s.writes =~= seq![header_of(s.image.len())]);
    } else {
        lemma_no_payload_without_ack(s, events.drop_last());
        let last = events.last();
        assert(last == events[events.len() - 1]);
        match last {
            EventView::Read(ReadOutcomeView::Data(bytes)) => {
                assert(bytes != ack());
            },
            _ => {},
        }
    }
}

/// A run that is over stays over: no event but an interrupt changes it.
pub proof fn lemma_stopped_is_final(s: SessionView, event: EventView)
    requires
        s.phase is Stopped,
    ensures
        !(event is Interrupted) ==> s.next(event) == s,
        s.next(event).phase is Stopped,
        s.next(event).writes == s.writes,
        s.next(event).pending() is Exit,
{
}

/// An interrupt ends the run with status 0, wherever the run stands, and
/// nothing is written to the device from then on, whatever follows.
pub proof fn lemma_interrupt_ends_the_run(s: SessionView, events: Seq<EventView>)
    ensures
        s.next(EventView::Interrupted).after(events).phase == Phase::Stopped(Outcome::Interrupted),
        s.next(EventView::Interrupted).after(events).pending() == (CommandView::Exit { status: 0 }),
        s.next(EventView::Interrupted).after(events).writes == s.writes,
    decreases events.len(),
{
    if events.len() > 0 {
        lemma_interrupt_ends_the_run(s, events.drop_last());
    }
}

/// The image is loaded once, when the device has asked for it, and stays as
/// it is from then on.
pub proof fn lemma_image_is_loaded_once(s: SessionView, event: EventView)
    ensures
        s.next(event).image != s.image ==> s.phase == Phase::SendSize(SizeStage::LoadImage)
            && event == EventView::Image(s.next(event).image),
{
}

/// An image that cannot be read ends the run with status 1 before anything
/// is written to the device.
pub proof fn lemma_unreadable_image_writes_nothing(s: SessionView)
    requires
        s.wf(),
        s.phase == Phase::SendSize(SizeStage::LoadImage),
    ensures
        s.next(EventView::Failed).phase == Phase::Stopped(Outcome::Failed(Failure::ImageRead)),
        s.next(EventView::Failed).pending() == (CommandView::Exit { status: 1 }),
        s.next(EventView::Failed).writes.len() == 0,
        s.notice(EventView::Failed) == Some(Notice::Error(Failure::ImageRead)),
{
}

/// `count` times the event `Done`.
pub open spec fn done_times(count: nat) -> Seq<EventView> {
    Seq::new(count, |i: int| EventView::Done)
}

/// From the first chunk on, each write that is carried out brings the push a
/// chunk further, and the last one completes it.
proof fn lemma_chunks_are_sent(s: SessionView, count: nat)
    requires
        s.wf(),
        s.phase == Phase::SendPayload,
        s.sent == 0,
        count <= chunk_count(s.image.len()),
    ensures
        s.after(done_times(count)).wf(),
        s.after(done_times(count)).image == s.image,
        count < chunk_count(s.image.len()) ==> s.after(done_times(count)).phase
            == Phase::SendPayload && s.after(done_times(count)).sent == 512 * count,
        count == chunk_count(s.image.len()) ==> s.after(done_times(count)).phase == Phase::Complete,
    decreases count,
{
    if count > 0 {
        let fewer = (count - 1) as nat;
        lemma_chunks_are_sent(s, fewer);
        assert(done_times(count).drop_last() =~= done_times(fewer));
        assert(done_times(count).last() == EventView::Done);
        let before = s.after(done_times(fewer));
        lemma_next_keeps_wf(before, EventView::Done);
        lemma_chunk_lengths(s.image, fewer);
    }
}

/// Once the device acknowledges the size header, carrying out the writes
/// that the session asks for, one for each chunk, completes the push: the
/// device has then been written the header and the whole image, in order.
pub proof fn lemma_acknowledged_push_completes(s: SessionView)
    requires
        s.wf(),
        s.phase == Phase::SendSize(SizeStage::AwaitAck),
    ensures
        s.next(EventView::Read(ReadOutcomeView::Data(ack()))).after(
            done_times(chunk_count(s.image.len())),
        ).phase == Phase::Complete,
        s.next(EventView::Read(ReadOutcomeView::Data(ack()))).after(
            done_times(chunk_count(s.image.len())),
        ).writes == s.planned_writes(),
        joined(s.planned_writes().skip(1)) == s.image,
{
    let acknowledged = s.next(EventView::Read(ReadOutcomeView::Data(ack())));
    let count = chunk_count(s.image.len());
    lemma_next_keeps_wf(s, EventView::Read(ReadOutcomeView::Data(ack())));
    if s.image.len() > 0 {
        lemma_chunks_are_sent(acknowledged, count);
    }
    let t = acknowledged.after(done_times(count));
    assert(t.image == s.image);
    assert(t.writes =~= s.planned_writes());
    assert(s.planned_writes().skip(1) =~= chunks(s.image, count));
    lemma_chunks_rebuild_image(s.image);
}

/// A run that pushes no image writes nothing to the device before it relays,
/// and asks for no read and no write.
pub proof fn lemma_plain_run_leaves_the_device_alone(s: SessionView)
    requires
        s.wf(),
        !s.is_loader(),
    ensures
        s.writes.len() == 0,
        !(s.pending() is Write),
        !(s.pending() is Read),
        !(s.pending() is LoadImage),
{
}

/// The session that asks the device to acknowledge the size of `image`: the
/// run began, the device was there and was opened, it printed `greeting` and
/// then its ready signal, and the image was loaded and its size written.
pub open spec fn awaiting_ack(
    device: Seq<char>,
    baud: u32,
    path: Seq<char>,
    greeting: Seq<u8>,
    image: Seq<u8>,
) -> SessionView {
    SessionView::initial(device, baud, Some(path)).next(EventView::Done).next(
        EventView::Done,
    ).next(EventView::Present).next(EventView::Done).next(EventView::Done).next(
        EventView::Read(ReadOutcomeView::Data(greeting)),
    ).next(EventView::Read(ReadOutcomeView::Data(seq![3u8, 3u8, 3u8]))).next(
        EventView::Image(image),
    ).next(EventView::Done)
}

/// A push in which nothing goes wrong ends in relaying, and the device has
/// then been written the size of the image and the image, and nothing else:
/// the header first, then the chunks in order.
pub proof fn lemma_a_whole_push(
    device: Seq<char>,
    baud: u32,
    path: Seq<char>,
    greeting: Seq<u8>,
    image: Seq<u8>,
)
    requires
        !has_ready_signal(greeting),
        image.len() <= u32::MAX,
    ensures
        awaiting_ack(device, baud, path, greeting, image).wf(),
        le_value(header_of(image.len())) == image.len(),
        awaiting_ack(device, baud, path, greeting, image).phase == Phase::SendSize(
            SizeStage::AwaitAck,
        ),
        awaiting_ack(device, baud, path, greeting, image).writes == seq![header_of(image.len())],
        awaiting_ack(device, baud, path, greeting, image).next(
            EventView::Read(ReadOutcomeView::Data(ack())),
        ).after(done_times(chunk_count(image.len()))).next(EventView::Done).phase == Phase::Handoff,
        awaiting_ack(device, baud, path, greeting, image).next(
            EventView::Read(ReadOutcomeView::Data(ack())),
        ).after(done_times(chunk_count(image.len()))).next(EventView::Done).writes == seq![
            header_of(image.len()),
        ] + chunks(image, chunk_count(image.len())),
        joined(chunks(image, chunk_count(image.len()))) == image,
{
    let begun = SessionView::initial(device, baud, Some(path));
    lemma_initial_is_wf(device, baud, Some(path));
    let listening = begun.next(EventView::Done).next(EventView::Done).next(EventView::Present).next(
        EventView::Done,
    ).next(EventView::Done);
    assert(listening.phase == Phase::AwaitPayloadRequest);
    assert(listening.heard + greeting =~= greeting);
    let greeted = listening.next(EventView::Read(ReadOutcomeView::Data(greeting)));
    assert(greeted.phase == Phase::AwaitPayloadRequest);
    let signal = seq![3u8, 3u8, 3u8];
    assert(signal_at(greeted.heard + signal, greeting.len() as int));
    let asked = greeted.next(EventView::Read(ReadOutcomeView::Data(signal)));
    assert(asked.phase == Phase::SendSize(SizeStage::LoadImage));
    let loaded = asked.next(EventView::Image(image));
    let s = loaded.next(EventView::Done);
    assert(s == awaiting_ack(device, baud, path, greeting, image));
    assert(s.writes =~= seq![header_of(image.len())]);
    assert(s.image == image);
    assert(s.writes =~= s.planned_writes().take(1));
    assert(s.wf());
    lemma_acknowledged_push_completes(s);
    lemma_chunks_rebuild_image(image);
    lemma_header_round_trip(image.len());
}

/// How far a phase is into a run. Looking for the device and waiting for it
/// are equally far.
pub open spec fn rank_of(phase: Phase) -> nat {
    match phase {
        Phase::Greeting => 0,
        Phase::Arming => 1,
        Phase::Probing => 2,
        Phase::Waiting => 2,
        Phase::Opening => 3,
        Phase::Cloning => 4,
        Phase::AwaitPayloadRequest => 5,
        Phase::SendSize(SizeStage::LoadImage) => 6,
        Phase::SendSize(SizeStage::WriteHeader) => 7,
        Phase::SendSize(SizeStage::AwaitAck) => 8,
        Phase::SendPayload => 9,
        Phase::Complete => 10,
        Phase::Handoff => 11,
        Phase::Stopped(_) => 12,
    }
}

/// A run only moves forward: no phase is entered a second time once the run
/// has gone beyond it. So the handler is installed once, the device opened
/// once, the image pushed once, and a session that relays never pushes again.
pub proof fn lemma_a_run_moves_forward(s: SessionView, event: EventView)
    ensures
        rank_of(s.phase) <= rank_of(s.next(event).phase),
        s.next(event).device == s.device,
        s.next(event).baud == s.baud,
        s.next(event).image_path == s.image_path,
{
}

/// Whatever has been written to the device begins with the size header, and
/// the header states the length of the image: its four bytes, read as a
/// little-endian number, are the length. The same holds of a header that is
/// still to be written.
pub proof fn lemma_header_states_the_length(s: SessionView)
    requires
        s.wf(),
    ensures
        s.writes.len() > 0 ==> s.writes[0] == header_of(s.image.len()),
        s.writes.len() > 0 ==> le_value(s.writes[0]) == s.image.len(),
        s.phase == Phase::SendSize(SizeStage::WriteHeader) ==> s.pending() == CommandView::Write(
            header_of(s.image.len()),
        ),
        le_value(header_of(s.image.len())) == s.image.len(),
        header_of(s.image.len()).len() == 4,
{
    lemma_header_round_trip(s.image.len());
    if s.writes.len() > 0 {
        assert(s.writes[0] == s.planned_writes().take(s.writes.len() as int)[0]);
    }
}

/// Once a run is over, nothing that happens brings it back: it stays over,
/// nothing more is written to the device, and all that is asked for is to end
/// the process.
pub proof fn lemma_nothing_follows_the_end(s: SessionView, events: Seq<EventView>)
    requires
        s.phase is Stopped,
    ensures
        s.after(events).phase is Stopped,
        s.after(events).writes == s.writes,
        s.after(events).image == s.image,
        s.after(events).pending() is Exit,
    decreases events.len(),
{
    if events.len() > 0 {
        lemma_nothing_follows_the_end(s, events.drop_last());
    }
}

/// An image that is longer than the size header can state is not pushed: the
/// run ends with status 1 and a diagnostic, and neither a header nor a byte
/// of the image is written to the device, then or later.
pub proof fn lemma_oversized_image_is_refused(
    s: SessionView,
    image: Seq<u8>,
    events: Seq<EventView>,
)
    requires
        s.wf(),
        s.phase == Phase::SendSize(SizeStage::LoadImage),
        image.len() > u32::MAX,
    ensures
        s.next(EventView::Image(image)).phase == Phase::Stopped(
            Outcome::Failed(Failure::ImageTooLarge),
        ),
        s.next(EventView::Image(image)).pending() == (CommandView::Exit { status: 1 }),
        s.notice(EventView::Image(image)) == Some(Notice::Error(Failure::ImageTooLarge)),
        s.next(EventView::Image(image)).writes.len() == 0,
        s.next(EventView::Image(image)).after(events).writes.len() == 0,
        s.next(EventView::Image(image)).after(events).pending() is Exit,
{
    lemma_nothing_follows_the_end(s.next(EventView::Image(image)), events);
}

/// No event gives a session an image that is longer than the size header can
/// state.
pub proof fn lemma_only_a_stated_length_is_sent(s: SessionView, event: EventView)
    requires
        s.wf(),
    ensures
        s.next(event).image.len() <= u32::MAX,
{
    lemma_next_keeps_wf(s, event);
}

} // verus!
