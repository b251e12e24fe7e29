//! What holds of the bridge as a whole.
use vstd::prelude::*;

use crate::events::{
    PauseVerdict, PlayerEvent, TransitionChange, TransitionPoll, TransitionTask,
};
use crate::http::{BodyView, Connection, Endpoint, PollView, StreamBody, Surroundings};
use crate::json::JsonTree;
use crate::state::{BridgeCommand, BridgeConfig, BridgeView, TrackInfo};

verus! {

/// Text without a separator is one piece.
proof fn lemma_one_piece(s: Seq<char>, separator: char)
    requires
        forall|i: int| 0 <= i < s.len() ==> s[i] != separator,
    ensures
        crate::text::split(s, separator) == seq![s],
    decreases s.len(),
{
    if s.len() == 0 {
        assert(s =~= Seq::empty());
    } else {
        lemma_one_piece(s.drop_last(), separator);
        let pieces = crate::text::split(s.drop_last(), separator);
        assert(pieces.drop_last() =~= Seq::empty());
        assert(pieces.last().push(s.last()) =~= s);
        assert(crate::text::split(s, separator) =~= seq![s]);
    }
}

/// The token in the address that the station is told is the token that the bridge
/// reads when the station asks.
pub proof fn law_announced_token_reads_back(host: Seq<char>, port: u16, token: u64)
    ensures
        crate::http::token_of_query(Some(crate::events::stream_query(token))) == token,
        crate::events::stream_url(host, port, token) == "http://"@ + host + ":"@
            + crate::text::decimal(port as nat) + "/stream.mp3"@ + "?"@
            + crate::events::stream_query(token),
        crate::http::endpoint_of("/stream.mp3"@) == Endpoint::Stream,
{
    reveal_strlit("t=");
    reveal_strlit("/stream.mp3");
    reveal_strlit("/stream.mp3?");
    reveal_strlit("?");
    let digits = crate::text::decimal(token as nat);
    let query = crate::events::stream_query(token);
    crate::text::lemma_decimal_digits(token as nat);
    crate::text::law_decimal_reads_back(token);
    assert forall|i: int| 0 <= i < query.len() implies query[i] != '&' by {
        if i >= 2 {
            assert(query[i] == digits[i - 2]);
            assert(crate::text::is_digit(digits[i - 2]));
        }
    }
    lemma_one_piece(query, '&');
    assert(query.take(2) =~= "t="@);
    assert(query.skip(2) =~= digits);
    assert("/stream.mp3"@.take("/stream.mp3"@.len() as int) =~= "/stream.mp3"@);
    assert(crate::events::stream_url(host, port, token) =~= "http://"@ + host + ":"@
        + crate::text::decimal(port as nat) + "/stream.mp3"@ + "?"@ + query);
}

/// A request for the stream is answered by its token alone.
#[verifier::rlimit(50)]
#[verifier::spinoff_prover]
proof fn lemma_stream_request<W>(
    s: BridgeView<W>,
    query: Option<Seq<char>>,
    config: BridgeConfig,
    around: Surroundings,
)
    ensures
        s.answer("/stream.mp3"@, query, config, around) == s.stream_view(
            crate::http::token_of_query(query),
        ),
{
    assert(crate::http::endpoint_of("/stream.mp3"@) == Endpoint::Stream) by {
        law_announced_token_reads_back(Seq::empty(), 0, 0);
    }
}

/// The station that asks for the stream it was told of is given that stream, with the
/// length it was promised, and is from then on the one whose leaving counts.
pub proof fn law_announced_stream_is_served<W>(
    s: BridgeView<W>,
    config: BridgeConfig,
    around: Surroundings,
)
    requires
        s.streaming,
    ensures
        ({
            let query = Some(crate::events::stream_query(s.stream_token));
            let answer = s.answer("/stream.mp3"@, query, config, around);
            &&& answer.status == 200
            &&& answer.headers[1] == ("Content-Length"@, crate::text::decimal(
                s.expected_bytes as nat,
            ))
            &&& answer.body == BodyView::Stream(
                StreamBody {
                    token: s.stream_token,
                    bytes_delivered: 0,
                    expected_bytes: s.expected_bytes,
                    done: false,
                },
            )
        }),
        ({
            let query = Some(crate::events::stream_query(s.stream_token));
            let after = s.after_request("/stream.mp3"@, query, around.now_ms);
            &&& !after.internal_disconnect
            &&& after.station_connected_wall is Some
        }),
{
    law_announced_token_reads_back(Seq::empty(), 0, s.stream_token);
    let query = Some(crate::events::stream_query(s.stream_token));
    lemma_stream_request(s, query, config, around);
}

/// A client with a stale token is answered with silence, all of it and nothing else,
/// and changes nothing.
pub proof fn law_stale_token_gets_silence<W>(
    s: BridgeView<W>,
    query: Option<Seq<char>>,
    config: BridgeConfig,
    around: Surroundings,
)
    requires
        crate::http::token_of_query(query) != s.stream_token,
    ensures
        ({
            let answer = s.answer("/stream.mp3"@, query, config, around);
            &&& answer.body == BodyView::Static(Some(s.silence))
            &&& answer.headers[1] == ("Content-Length"@, crate::text::decimal(s.silence.len()))
            &&& answer.headers.last() == ("Connection"@, "close"@)
            &&& answer.body.reply(s) == PollView::Frame(s.silence)
            &&& answer.body.polled(s).reply(s) == PollView::End
        }),
        s.after_request("/stream.mp3"@, query, around.now_ms) == s,
{
    law_announced_token_reads_back(Seq::empty(), 0, 0);
    lemma_stream_request(s, query, config, around);
}

/// A client that asks for more is told that there is nothing more, and takes nothing.
pub open spec fn turned_away<W>(body: StreamBody, s: BridgeView<W>, waker: W) -> bool {
    &&& body.reply(s) == PollView::End
    &&& body.polled(s).done
    &&& s.served(body, waker) == s
}

/// Whenever the bridge cuts the stream, for another track, a seek, a pause or the end
/// of one, every client of it is turned away at its next question.
pub proof fn law_cut_ends_older_streams<W>(
    s: BridgeView<W>,
    body: StreamBody,
    track: TrackInfo,
    position_ms: u32,
    now_ms: u64,
    waker: W,
)
    requires
        body.attached(s),
        s.stream_token < u64::MAX,
    ensures
        turned_away(body, s.started(track, position_ms, now_ms), waker),
        turned_away(body, s.reset(position_ms, now_ms), waker),
        turned_away(body, s.held(), waker),
        turned_away(body, s.resumed(position_ms), waker),
{
}

/// A client that has been told that there is nothing more is told so for ever, and
/// takes nothing.
pub proof fn law_done_is_final<W>(s: BridgeView<W>, body: StreamBody, waker: W)
    requires
        body.done,
    ensures
        body.reply(s) == PollView::End,
        body.polled(s) == body,
        s.served(body, waker) == s,
{
}

/// A client whose stream stays current is told that there is nothing more only once it
/// has been handed as much as it was promised, and then no later than with its next
/// question.
pub proof fn law_promise_is_kept<W>(s: BridgeView<W>, body: StreamBody)
    requires
        !body.done,
        body.token == s.stream_token,
    ensures
        body.reply(s) == PollView::End ==> body.bytes_delivered >= body.expected_bytes,
        body.polled(s).done <==> body.polled(s).bytes_delivered >= body.expected_bytes,
        body.reply(s) == PollView::Pending ==> body.bytes_delivered < body.expected_bytes,
{
}

/// A client after it has asked for more, once in each of these states.
pub open spec fn client_after<W>(body: StreamBody, states: Seq<BridgeView<W>>) -> StreamBody
    decreases states.len(),
{
    if states.len() == 0 {
        body
    } else {
        client_after(body, states.drop_last()).polled(states.last())
    }
}

/// The frames that a client is handed when it asks for more in each of these states.
pub open spec fn frames_of<W>(body: StreamBody, states: Seq<BridgeView<W>>) -> Seq<Seq<u8>>
    decreases states.len(),
{
    if states.len() == 0 {
        Seq::empty()
    } else {
        let before = frames_of(body, states.drop_last());
        match client_after(body, states.drop_last()).reply(states.last()) {
            PollView::Frame(data) => before.push(data),
            _ => before,
        }
    }
}

/// A client that has once asked when its stream was over is turned away then and ever
/// after, whatever becomes of the bridge meanwhile.
pub proof fn law_turned_away_for_ever<W>(
    body: StreamBody,
    s: BridgeView<W>,
    meanwhile: Seq<BridgeView<W>>,
    later: BridgeView<W>,
    waker: W,
)
    requires
        body.token != s.stream_token,
    ensures
        turned_away(body, s, waker),
        turned_away(client_after(body.polled(s), meanwhile), later, waker),
    decreases meanwhile.len(),
{
    if meanwhile.len() > 0 {
        law_turned_away_for_ever(body, s, meanwhile.drop_last(), meanwhile.last(), waker);
    }
}

/// Whether all that a client is handed in these states can be counted.
pub open spec fn run_fits<W>(body: StreamBody, states: Seq<BridgeView<W>>) -> bool {
    forall|i: int|
        0 <= i < states.len() ==> {
            let client = client_after(body, states.take(i));
            client.closed(#[trigger] states[i]) || client.servable(states[i])
        }
}

/// What stays true of a client and its frames while it asks for more.
proof fn lemma_client_run<W>(body: StreamBody, states: Seq<BridgeView<W>>)
    requires
        body.bytes_delivered == 0,
        !body.done,
        body.expected_bytes > 0,
        run_fits(body, states),
    ensures
        ({
            let client = client_after(body, states);
            let frames = frames_of(body, states);
            &&& client.token == body.token
            &&& client.expected_bytes == body.expected_bytes
            &&& client.bytes_delivered == crate::chunk::total_len(frames)
            &&& client.bytes_delivered >= body.expected_bytes ==> client.done
            &&& frames.len() > 0 ==> crate::chunk::total_len(frames.drop_last())
                < body.expected_bytes
        }),
    decreases states.len(),
{
    if states.len() > 0 {
        let rest = states.drop_last();
        let s = states.last();
        assert(states.take(states.len() - 1) =~= rest);
        assert(states[states.len() - 1] == s);
        assert(run_fits(body, rest)) by {
            assert forall|i: int| 0 <= i < rest.len() implies {
                let client = client_after(body, rest.take(i));
                client.closed(#[trigger] rest[i]) || client.servable(rest[i])
            } by {
                assert(rest.take(i) =~= states.take(i));
                assert(states[i] == rest[i]);
            }
        }
        lemma_client_run(body, rest);
        let before = client_after(body, rest);
        let got = frames_of(body, rest);
        if !before.closed(s) && s.mp3_buffer.len() > 0 {
            crate::chunk::lemma_total_len_first(s.mp3_buffer);
            assert(got.push(s.mp3_buffer[0]).drop_last() =~= got);
        }
    }
}

/// A client that has been handed nothing yet, however often it asks and whatever becomes
/// of the bridge meanwhile: all its frames but the last add up to less than it was
/// promised, and once they add up to that, it is turned away for ever.
pub proof fn law_client_gets_its_promise<W>(
    body: StreamBody,
    states: Seq<BridgeView<W>>,
    meanwhile: Seq<BridgeView<W>>,
    later: BridgeView<W>,
    waker: W,
)
    requires
        body.bytes_delivered == 0,
        !body.done,
        body.expected_bytes > 0,
        run_fits(body, states),
    ensures
        ({
            let frames = frames_of(body, states);
            &&& frames.len() > 0 ==> crate::chunk::total_len(frames.drop_last())
                < body.expected_bytes
            &&& crate::chunk::total_len(frames) >= body.expected_bytes ==> turned_away(
                client_after(client_after(body, states), meanwhile),
                later,
                waker,
            )
        }),
{
    lemma_client_run(body, states);
    lemma_done_stays(client_after(body, states), meanwhile);
}

/// A client that is done stays done.
proof fn lemma_done_stays<W>(body: StreamBody, states: Seq<BridgeView<W>>)
    ensures
        body.done ==> client_after(body, states).done,
    decreases states.len(),
{
    if states.len() > 0 {
        lemma_done_stays(body, states.drop_last());
    }
}

/// All that was produced for the current stream has been delivered or is queued, and
/// nothing that is queued is empty.
pub open spec fn balanced<W>(s: BridgeView<W>) -> bool {
    &&& s.bytes_produced == s.bytes_delivered + crate::chunk::total_len(s.mp3_buffer)
    &&& forall|i: int| 0 <= i < s.mp3_buffer.len() ==> (#[trigger] s.mp3_buffer[i]).len() > 0
}

/// Something that happens to the stream.
pub enum StreamStep<W> {
    Push(Seq<u8>),
    Start(TrackInfo, u32, u64),
    Reset(u32, u64),
    Resume(u32),
    Poll(StreamBody, W),
    Connect(Seq<char>, Option<Seq<char>>, u64),
    Play(bool),
    Stop(bool),
    SetVolume(u16, bool),
    AutoPause(u64, bool),
}

/// The state after one step.
pub open spec fn stepped<W>(s: BridgeView<W>, step: StreamStep<W>) -> BridgeView<W> {
    match step {
        StreamStep::Push(data) => s.pushed(data),
        StreamStep::Start(track, position_ms, now_ms) => s.started(track, position_ms, now_ms),
        StreamStep::Reset(position_ms, now_ms) => s.reset(position_ms, now_ms),
        StreamStep::Resume(position_ms) => s.resumed(position_ms),
        StreamStep::Poll(body, waker) => s.served(body, waker),
        StreamStep::Connect(rest, query, now_ms) => s.after_request(
            "/stream.mp3"@ + rest,
            query,
            now_ms,
        ),
        StreamStep::Play(bt_playing) => s.after_command(BridgeCommand::SendRadioPlay, bt_playing),
        StreamStep::Stop(bt_playing) => s.after_command(BridgeCommand::Stop, bt_playing),
        StreamStep::SetVolume(volume, bt_playing) => s.after_command(
            BridgeCommand::SetVolume(volume),
            bt_playing,
        ),
        StreamStep::AutoPause(token, bt_playing) => s.after_command(
            BridgeCommand::AutoPause(token),
            bt_playing,
        ),
    }
}

/// The state after these steps.
pub open spec fn stream_after<W>(s: BridgeView<W>, steps: Seq<StreamStep<W>>) -> BridgeView<W>
    decreases steps.len(),
{
    if steps.len() == 0 {
        s
    } else {
        stepped(stream_after(s, steps.drop_last()), steps.last())
    }
}

/// Whether what is produced in these steps can be counted.
pub open spec fn countable<W>(s: BridgeView<W>, steps: Seq<StreamStep<W>>) -> bool {
    forall|i: int|
        0 <= i < steps.len() ==> ((#[trigger] steps[i]) matches StreamStep::Push(data)
            ==> stream_after(s, steps.take(i)).bytes_produced + data.len() <= usize::MAX)
}

/// From the start of the bridge on, as long as data is pushed, streams are begun, clients
/// connect and ask for more, and commands other than a forced stop are carried out, in
/// whatever order: what was produced is to the byte what was
/// delivered and what is queued, and nothing that is queued is empty.
pub proof fn law_bytes_balance<W>(silence: Seq<u8>, steps: Seq<StreamStep<W>>)
    requires
        countable(BridgeView::<W>::initial(silence), steps),
    ensures
        balanced(stream_after(BridgeView::<W>::initial(silence), steps)),
    decreases steps.len(),
{
    let first = BridgeView::<W>::initial(silence);
    if steps.len() > 0 {
        let rest = steps.drop_last();
        let before = stream_after(first, rest);
        assert(steps.take(steps.len() - 1) =~= rest);
        assert(steps[steps.len() - 1] == steps.last());
        assert forall|i: int| 0 <= i < rest.len() implies ((#[trigger] rest[i])
            matches StreamStep::Push(data) ==> stream_after(first, rest.take(i)).bytes_produced
            + data.len() <= usize::MAX) by {
            assert(rest.take(i) =~= steps.take(i));
            assert(steps[i] == rest[i]);
        }
        law_bytes_balance(silence, rest);
        let now = stream_after(first, steps);
        match steps.last() {
            StreamStep::Push(data) => {
                assert(before.mp3_buffer.push(data).drop_last() =~= before.mp3_buffer);
            },
            StreamStep::Poll(body, waker) => {
                if !body.closed(before) && before.mp3_buffer.len() > 0 {
                    crate::chunk::lemma_total_len_first(before.mp3_buffer);
                    assert forall|i: int| 0 <= i < now.mp3_buffer.len() implies (
                    #[trigger] now.mp3_buffer[i]).len() > 0 by {
                        assert(now.mp3_buffer[i] == before.mp3_buffer[i + 1]);
                    }
                }
            },
            StreamStep::Connect(rest, query, now_ms) => {
                crate::answers::law_paths(Seq::empty(), rest);
            },
            _ => {},
        }
    }
}

/// A client that asks for the stream finds it as it is: whatever the token it brings,
/// nothing that is queued or counted changes, nor the stream itself.
pub proof fn law_connecting_leaves_the_stream<W>(
    s: BridgeView<W>,
    rest: Seq<char>,
    query: Option<Seq<char>>,
    now_ms: u64,
)
    ensures
        ({
            let t = s.after_request("/stream.mp3"@ + rest, query, now_ms);
            &&& t.mp3_buffer == s.mp3_buffer
            &&& t.bytes_produced == s.bytes_produced
            &&& t.bytes_delivered == s.bytes_delivered
            &&& t.total_bytes_served == s.total_bytes_served
            &&& t.stream_token == s.stream_token
            &&& t.expected_bytes == s.expected_bytes
            &&& t.current_track == s.current_track
            &&& t.pending_track == s.pending_track
            &&& t.streaming == s.streaming
            &&& t.paused == s.paused
            &&& t.track_ended == s.track_ended
            &&& t.stream_waker == s.stream_waker
        }),
{
    crate::answers::law_paths(Seq::empty(), rest);
}

/// Something that happens to the queue: the encoder adds to it, a client connects or asks
/// for more, or a command other than a forced stop is carried out.
pub enum QueueStep<W> {
    Push(Seq<u8>),
    Poll(StreamBody, W),
    Connect(Seq<char>, Option<Seq<char>>, u64),
    Play(bool),
    Stop(bool),
    SetVolume(u16, bool),
    AutoPause(u64, bool),
}

/// The state after these steps.
pub open spec fn queue_after<W>(s: BridgeView<W>, steps: Seq<QueueStep<W>>) -> BridgeView<W>
    decreases steps.len(),
{
    if steps.len() == 0 {
        s
    } else {
        let before = queue_after(s, steps.drop_last());
        match steps.last() {
            QueueStep::Push(data) => before.pushed(data),
            QueueStep::Poll(body, waker) => before.served(body, waker),
            QueueStep::Connect(rest, query, now_ms) => before.after_request(
                "/stream.mp3"@ + rest,
                query,
                now_ms,
            ),
            QueueStep::Play(bt_playing) => before.after_command(
                BridgeCommand::SendRadioPlay,
                bt_playing,
            ),
            QueueStep::Stop(bt_playing) => before.after_command(BridgeCommand::Stop, bt_playing),
            QueueStep::SetVolume(volume, bt_playing) => before.after_command(
                BridgeCommand::SetVolume(volume),
                bt_playing,
            ),
            QueueStep::AutoPause(token, bt_playing) => before.after_command(
                BridgeCommand::AutoPause(token),
                bt_playing,
            ),
        }
    }
}

/// All that the encoder added in these steps.
pub open spec fn encoded<W>(steps: Seq<QueueStep<W>>) -> Seq<u8>
    decreases steps.len(),
{
    if steps.len() == 0 {
        Seq::empty()
    } else {
        let before = encoded(steps.drop_last());
        match steps.last() {
            QueueStep::Push(data) => before + data,
            _ => before,
        }
    }
}

/// All that clients were handed in these steps.
pub open spec fn handed_out<W>(s: BridgeView<W>, steps: Seq<QueueStep<W>>) -> Seq<u8>
    decreases steps.len(),
{
    if steps.len() == 0 {
        Seq::empty()
    } else {
        let before = handed_out(s, steps.drop_last());
        match steps.last() {
            QueueStep::Poll(body, waker) => match body.reply(queue_after(s, steps.drop_last())) {
                PollView::Frame(data) => before + data,
                _ => before,
            },
            _ => before,
        }
    }
}

/// What goes in comes out: whatever the order of pushes, connections, questions and
/// commands, the data handed
/// out, followed by what is queued, is what was queued at first, followed by what the
/// encoder added. Nothing is lost, doubled or out of order.
pub proof fn law_stream_reads_back<W>(s: BridgeView<W>, steps: Seq<QueueStep<W>>)
    ensures
        handed_out(s, steps) + crate::chunk::joined(queue_after(s, steps).mp3_buffer)
            == crate::chunk::joined(s.mp3_buffer) + encoded(steps),
    decreases steps.len(),
{
    let now = queue_after(s, steps);
    if steps.len() == 0 {
        assert(handed_out(s, steps) + crate::chunk::joined(now.mp3_buffer)
            =~= crate::chunk::joined(s.mp3_buffer) + encoded(steps));
    } else {
        let rest = steps.drop_last();
        let before = queue_after(s, rest);
        law_stream_reads_back(s, rest);
        let out = handed_out(s, rest);
        let queued = crate::chunk::joined(before.mp3_buffer);
        let first = crate::chunk::joined(s.mp3_buffer);
        match steps.last() {
            QueueStep::Push(data) => {
                crate::state::law_push_appends(before, data);
                assert(out + (queued + data) =~= (out + queued) + data);
                assert((first + encoded(rest)) + data =~= first + (encoded(rest) + data));
            },
            QueueStep::Poll(body, waker) => {
                if !body.closed(before) && before.mp3_buffer.len() > 0 {
                    crate::chunk::lemma_joined_first(before.mp3_buffer);
                    let frame = before.mp3_buffer[0];
                    let left = crate::chunk::joined(before.mp3_buffer.skip(1));
                    assert((out + frame) + left =~= out + (frame + left));
                }
            },
            QueueStep::Connect(tail, query, now_ms) => {
                crate::answers::law_paths(Seq::empty(), tail);
            },
            _ => {},
        }
    }
}

/// What is produced, delivered and served is counted to the byte, and what every
/// operation keeps is kept.
pub proof fn law_delivery_is_counted<W>(s: BridgeView<W>, steps: Seq<QueueStep<W>>)
    requires
        s.wf(),
        s.bytes_produced + encoded(steps).len() <= usize::MAX,
        s.total_bytes_served + crate::chunk::joined(s.mp3_buffer).len() + encoded(steps).len()
            <= u64::MAX,
    ensures
        ({
            let now = queue_after(s, steps);
            let out = handed_out(s, steps).len();
            &&& now.wf()
            &&& now.bytes_produced == s.bytes_produced + encoded(steps).len()
            &&& now.bytes_delivered == s.bytes_delivered + out
            &&& now.total_bytes_served == s.total_bytes_served + out
        }),
    decreases steps.len(),
{
    if steps.len() > 0 {
        let rest = steps.drop_last();
        let before = queue_after(s, rest);
        law_delivery_is_counted(s, rest);
        law_stream_reads_back(s, rest);
        crate::chunk::lemma_joined_len(before.mp3_buffer);
        match steps.last() {
            QueueStep::Push(data) => {
                assert(before.mp3_buffer.push(data).drop_last() =~= before.mp3_buffer);
            },
            QueueStep::Poll(body, waker) => {
                if !body.closed(before) && before.mp3_buffer.len() > 0 {
                    crate::chunk::lemma_total_len_first(before.mp3_buffer);
                    assert((handed_out(s, rest) + crate::chunk::joined(before.mp3_buffer)).len()
                        == (crate::chunk::joined(s.mp3_buffer) + encoded(rest)).len());
                }
            },
            QueueStep::Connect(tail, query, now_ms) => {
                crate::answers::law_paths(Seq::empty(), tail);
            },
            _ => {},
        }
    }
}

/// Between `s` and `t` the stream was cut at most once, by the bridge itself: the token
/// grows by one, nothing of the old stream stays queued, and it is taken down that it
/// was not the station that left.
pub open spec fn same_or_cut<W>(s: BridgeView<W>, t: BridgeView<W>) -> bool {
    t.stream_token == s.stream_token || {
        &&& t.stream_token == s.stream_token + 1
        &&& t.internal_disconnect
        &&& t.mp3_buffer.len() == 0
    }
}

/// The token changes only where the bridge cuts the stream.
pub proof fn law_token_moves_with_a_cut<W>(s: BridgeView<W>, event: PlayerEvent, now_ms: u64)
    requires
        s.stream_token < u64::MAX,
    ensures
        same_or_cut(s, s.after_event(event, now_ms)),
        same_or_cut(s, s.transitioned(now_ms)),
{
}

/// Every event that has the station play or stop comes with a cut: the token is raised,
/// so that the station is told of an address that it was not told of before.
pub proof fn law_commands_come_with_a_cut<W>(
    s: BridgeView<W>,
    event: PlayerEvent,
    task: TransitionTask,
    now_ms: u64,
)
    requires
        s.stream_token < u64::MAX,
    ensures
        s.event_outcome(event, task).command == Some(BridgeCommand::SendRadioPlay)
            || s.event_outcome(event, task).command == Some(BridgeCommand::Stop) ==> {
            let t = s.after_event(event, now_ms);
            &&& t.stream_token == s.stream_token + 1
            &&& t.internal_disconnect
            &&& t.mp3_buffer.len() == 0
        },
{
}

/// The state after these events, each with its time.
pub open spec fn after_events<W>(s: BridgeView<W>, events: Seq<(PlayerEvent, u64)>) -> BridgeView<W>
    decreases events.len(),
{
    if events.len() == 0 {
        s
    } else {
        after_events(s, events.drop_last()).after_event(events.last().0, events.last().1)
    }
}

/// Events never lower the token, and raise it at most once each.
pub proof fn law_events_never_lower_the_token<W>(
    s: BridgeView<W>,
    events: Seq<(PlayerEvent, u64)>,
    earlier: int,
)
    requires
        0 <= earlier <= events.len(),
        s.stream_token + events.len() <= u64::MAX,
    ensures
        after_events(s, events.take(earlier)).stream_token <= after_events(s, events).stream_token,
        after_events(s, events).stream_token <= s.stream_token + events.len(),
    decreases events.len(),
{
    if earlier == events.len() {
        assert(events.take(earlier) =~= events);
    }
    if events.len() > 0 {
        let rest = events.drop_last();
        let before = after_events(s, rest);
        if earlier < events.len() {
            assert(events.take(earlier) =~= rest.take(earlier));
            law_events_never_lower_the_token(s, rest, earlier);
        } else {
            law_events_never_lower_the_token(s, rest, 0);
        }
        law_token_moves_with_a_cut(before, events.last().0, events.last().1);
    }
}

/// Different tokens make different addresses.
pub proof fn law_addresses_differ(host: Seq<char>, port: u16, one: u64, other: u64)
    requires
        one != other,
    ensures
        crate::events::stream_url(host, port, one) != crate::events::stream_url(host, port, other),
{
    let front = "http://"@ + host + ":"@ + crate::text::decimal(port as nat) + "/stream.mp3?"@;
    let n = front.len() as int;
    law_announced_token_reads_back(host, port, one);
    law_announced_token_reads_back(host, port, other);
    assert(crate::events::stream_url(host, port, one).skip(n) =~= crate::events::stream_query(
        one,
    ));
    assert(crate::events::stream_url(host, port, other).skip(n) =~= crate::events::stream_query(
        other,
    ));
}

/// Whenever an event has the station play, its stream's address is one that the stream
/// had in no state before.
pub proof fn law_every_play_has_a_new_address<W>(
    s: BridgeView<W>,
    events: Seq<(PlayerEvent, u64)>,
    event: PlayerEvent,
    task: TransitionTask,
    now_ms: u64,
    earlier: int,
    host: Seq<char>,
    port: u16,
)
    requires
        0 <= earlier <= events.len(),
        s.stream_token + events.len() < u64::MAX,
        after_events(s, events).event_outcome(event, task).command == Some(
            BridgeCommand::SendRadioPlay,
        ),
    ensures
        ({
            let then = after_events(s, events.take(earlier));
            let now = after_events(s, events).after_event(event, now_ms);
            &&& then.stream_token < now.stream_token
            &&& crate::events::stream_url(host, port, then.stream_token)
                != crate::events::stream_url(host, port, now.stream_token)
        }),
{
    let then = after_events(s, events.take(earlier));
    let before = after_events(s, events);
    law_events_never_lower_the_token(s, events, earlier);
    law_commands_come_with_a_cut(before, event, task, now_ms);
    law_addresses_differ(
        host,
        port,
        then.stream_token,
        before.after_event(event, now_ms).stream_token,
    );
}

/// No request, command, delivery or closing of a session changes the token.
pub proof fn law_token_stays_otherwise<W>(
    s: BridgeView<W>,
    command: BridgeCommand,
    bt_playing: bool,
    path: Seq<char>,
    query: Option<Seq<char>>,
    body: StreamBody,
    waker: W,
    data: Seq<u8>,
    now_ms: u64,
)
    ensures
        s.after_command(command, bt_playing).stream_token == s.stream_token,
        s.after_request(path, query, now_ms).stream_token == s.stream_token,
        s.served(body, waker).stream_token == s.stream_token,
        s.pushed(data).stream_token == s.stream_token,
        s.released().stream_token == s.stream_token,
        s.cleared().stream_token == s.stream_token,
{
}

/// Whatever happens, a client keeps to its stream: of the current one it has no more
/// than was delivered in all.
pub proof fn law_clients_stay_attached<W>(
    s: BridgeView<W>,
    body: StreamBody,
    event: PlayerEvent,
    command: BridgeCommand,
    bt_playing: bool,
    path: Seq<char>,
    query: Option<Seq<char>>,
    other: StreamBody,
    waker: W,
    data: Seq<u8>,
    now_ms: u64,
)
    requires
        s.wf(),
        body.attached(s),
        s.stream_token < u64::MAX,
    ensures
        body.attached(s.after_event(event, now_ms)),
        body.attached(s.transitioned(now_ms)),
        body.attached(s.after_command(command, bt_playing)),
        body.attached(s.after_request(path, query, now_ms)),
        body.attached(s.served(other, waker)),
        body.attached(s.pushed(data)),
        body.attached(s.released()),
        body.attached(s.cleared()),
{
    if s.mp3_buffer.len() > 0 {
        crate::chunk::lemma_total_len_first(s.mp3_buffer);
    }
}

/// Nobody who leaves makes Spotify pause: neither when the connection ends, nor when a
/// pause is to be confirmed.
pub open spec fn pauses_for_nobody<W>(s: BridgeView<W>) -> bool {
    &&& forall|left: Connection, bt_playing: bool| #[trigger]
        left.farewell(s, bt_playing) is None
    &&& forall|token: u64, bt_playing: bool| #[trigger]
        crate::events::pause_verdict(s, token, bt_playing) == PauseVerdict::Cancelled
}

/// Once the bridge itself has cut the stream, nobody who leaves makes Spotify pause,
/// until the station connects.
pub proof fn law_own_cuts_never_pause<W>(
    s: BridgeView<W>,
    track: TrackInfo,
    position_ms: u32,
    now_ms: u64,
)
    ensures
        pauses_for_nobody(s.started(track, position_ms, now_ms)),
        pauses_for_nobody(s.reset(position_ms, now_ms)),
        pauses_for_nobody(s.held()),
        pauses_for_nobody(s.resumed(position_ms)),
{
}

/// A station that connects to the current stream and leaves it while it is being played
/// makes Spotify pause, unless it plays Bluetooth.
pub proof fn law_leaving_station_pauses<W>(
    s: BridgeView<W>,
    left: Connection,
    now_ms: u64,
    bt_playing: bool,
)
    requires
        s.admits(s.stream_token),
        !s.paused,
        left.served == Some(s.stream_token),
    ensures
        left.farewell(s.joined(now_ms), bt_playing) == (if bt_playing {
            None
        } else {
            Some(BridgeCommand::AutoPause(s.stream_token))
        }),
        crate::events::pause_verdict(s.joined(now_ms), s.stream_token, bt_playing) == (
        if bt_playing {
            PauseVerdict::Bluetooth
        } else {
            PauseVerdict::Pause
        }),
{
}

/// A client that last asked with a stale token makes nobody pause when it leaves.
pub proof fn law_stale_client_never_pauses<W>(
    s: BridgeView<W>,
    connection: Connection,
    path: Seq<char>,
    query: Option<Seq<char>>,
    bt_playing: bool,
)
    requires
        crate::http::endpoint_of(path) == Endpoint::Stream,
        crate::http::token_of_query(query) != s.stream_token,
    ensures
        connection.noted(path, query).farewell(s, bt_playing) is None,
{
}

/// Skipping: the player reports the next track, a pause and playback again; the bridge
/// stops the station, then has it play the next track from there under a new token. That
/// the stop is carried out in between makes no difference, nor does a volume that is set.
pub proof fn law_skip<W>(
    s: BridgeView<W>,
    next: TrackInfo,
    paused_ms: u32,
    position_ms: u32,
    task: TransitionTask,
    volume: u16,
    bt_playing: bool,
    t0: u64,
    t1: u64,
    t2: u64,
)
    requires
        s.mid_track(),
        s.stream_token < u64::MAX - 1,
    ensures
        ({
            let changed = PlayerEvent::TrackChanged { track: next };
            let pause = PlayerEvent::Paused { position_ms: paused_ms };
            let play = PlayerEvent::Playing { position_ms };
            let s1 = s.after_event(changed, t0);
            let s2 = s1.after_event(pause, t1).after_command(
                BridgeCommand::Stop,
                bt_playing,
            ).after_command(BridgeCommand::SetVolume(volume), bt_playing);
            let s3 = s2.after_event(play, t2);
            &&& s2 == s1.after_event(pause, t1)
            &&& s.event_outcome(changed, task).command is None
            &&& s1.current_track == s.current_track
            &&& s1.stream_token == s.stream_token
            &&& s1.event_outcome(pause, task).command == Some(BridgeCommand::Stop)
            &&& s1.event_outcome(pause, task).transition == TransitionChange::Cancel
            &&& s2.event_outcome(play, task).command == Some(BridgeCommand::SendRadioPlay)
            &&& s3.current_track == Some(next)
            &&& s3.pending_track is None
            &&& s3.streaming && !s3.paused && !s3.track_ended
            &&& s3.stream_token == s.stream_token + 2
            &&& s3.expected_bytes == crate::state::content_length(
                next.duration_ms as int,
                position_ms as int,
            ) as usize
            &&& s3.mp3_buffer.len() == 0
        }),
{
}

/// A natural change: the next track is reported while one plays, and nothing is sent.
/// When the track ends the bridge waits until the station has it all, and then has it
/// play the next track from its beginning under a new token.
pub proof fn law_natural_transition<W>(
    s: BridgeView<W>,
    next: TrackInfo,
    task: TransitionTask,
    t0: u64,
    t1: u64,
    t2: u64,
)
    requires
        s.mid_track(),
        !s.paused,
        s.stream_token < u64::MAX,
    ensures
        ({
            let changed = PlayerEvent::TrackChanged { track: next };
            let s1 = s.after_event(changed, t0);
            let s2 = s1.after_event(PlayerEvent::EndOfTrack, t1);
            let s3 = s2.transitioned(t2);
            &&& s.event_outcome(changed, task).command is None
            &&& s.event_outcome(changed, task).transition == TransitionChange::Keep
            &&& s1.event_outcome(PlayerEvent::EndOfTrack, task).command is None
            &&& s1.event_outcome(PlayerEvent::EndOfTrack, task).transition
                == TransitionChange::Restart
            &&& s2.stream_token == s.stream_token
            &&& s2.mp3_buffer == s.mp3_buffer
            &&& crate::events::transition_poll(s2, s.expected_bytes, 0) == (if s.bytes_delivered
                >= s.expected_bytes {
                TransitionPoll::Delivered
            } else {
                TransitionPoll::Wait
            })
            &&& s3.current_track == Some(next)
            &&& s3.pending_track is None
            &&& s3.streaming && !s3.paused && !s3.track_ended
            &&& s3.stream_token == s.stream_token + 1
            &&& s3.expected_bytes == crate::state::content_length(
                next.duration_ms as int,
                0,
            ) as usize
        }),
{
}

/// The same with the reports the other way round: the wait begins with the report of
/// the next track, unless it is under way.
pub proof fn law_late_next_track<W>(
    s: BridgeView<W>,
    next: TrackInfo,
    task: TransitionTask,
    t0: u64,
    t1: u64,
)
    requires
        s.pending_track is None,
    ensures
        ({
            let changed = PlayerEvent::TrackChanged { track: next };
            let s1 = s.after_event(PlayerEvent::EndOfTrack, t0);
            let s2 = s1.after_event(changed, t1);
            &&& s.event_outcome(PlayerEvent::EndOfTrack, task).transition == TransitionChange::Keep
            &&& s1.event_outcome(changed, task).transition == (if task == TransitionTask::Running {
                TransitionChange::Keep
            } else {
                TransitionChange::Start
            })
            &&& s2.pending_track == Some(next)
            &&& s2.current_track == s.current_track
            &&& s2.stream_token == s.stream_token
        }),
{
}

/// A transition waits until the station has the whole stream, and no longer than 30
/// seconds; once playback was paused or stopped it never waits.
pub proof fn law_transition_ends<W>(s: BridgeView<W>, expected: usize, elapsed_ms: u64)
    ensures
        crate::events::transition_poll(s, expected, elapsed_ms) == TransitionPoll::Wait <==> {
            &&& s.bytes_delivered < expected
            &&& s.streaming && !s.paused
            &&& elapsed_ms <= 30000
        },
        crate::events::transition_poll(s, expected, elapsed_ms) == TransitionPoll::Delivered
            <==> s.bytes_delivered >= expected,
        crate::events::transition_poll(s, expected, elapsed_ms) == TransitionPoll::TimedOut <==> {
            &&& s.bytes_delivered < expected
            &&& s.streaming && !s.paused
            &&& elapsed_ms > 30000
        },
{
}

/// Pause and resume: the station is stopped, and then plays the rest of the same track
/// under a new token.
pub proof fn law_pause_and_resume<W>(
    s: BridgeView<W>,
    paused_ms: u32,
    position_ms: u32,
    task: TransitionTask,
    t0: u64,
    t1: u64,
)
    requires
        s.pending_track is None,
        s.stream_token < u64::MAX - 1,
    ensures
        ({
            let pause = PlayerEvent::Paused { position_ms: paused_ms };
            let play = PlayerEvent::Playing { position_ms };
            let s1 = s.after_event(pause, t0);
            let s2 = s1.after_event(play, t1);
            &&& s.event_outcome(pause, task).command == Some(BridgeCommand::Stop)
            &&& s1.paused
            &&& s1.mp3_buffer.len() == 0
            &&& s1.event_outcome(play, task).command == Some(BridgeCommand::SendRadioPlay)
            &&& s2.current_track == s.current_track
            &&& s2.streaming == s.streaming
            &&& s2.tracks_played == s.tracks_played
            &&& !s2.paused
            &&& s2.stream_token == s.stream_token + 2
            &&& s2.expected_bytes == s.expected_from(position_ms)
            &&& s2.bytes_produced == 0 && s2.bytes_delivered == 0
        }),
{
}

/// Seeking: a transition under way is given up, and the station plays the same track
/// from there under a new token.
pub proof fn law_seek<W>(s: BridgeView<W>, position_ms: u32, task: TransitionTask, now_ms: u64)
    requires
        !s.internal_seek,
        s.stream_token < u64::MAX,
    ensures
        ({
            let seek = PlayerEvent::Seeked { position_ms };
            let s1 = s.after_event(seek, now_ms);
            &&& s.event_outcome(seek, task).transition == TransitionChange::Cancel
            &&& s.event_outcome(seek, task).command == Some(BridgeCommand::SendRadioPlay)
            &&& s1.current_track == s.current_track
            &&& s1.stream_token == s.stream_token + 1
            &&& s1.mp3_buffer.len() == 0
            &&& s1.expected_bytes == s.expected_from(position_ms)
            &&& !s1.track_ended
        }),
{
}

/// A play command that meets Bluetooth playback is sent once when that ends: the first
/// end lets it go, a second finds nothing.
pub proof fn law_deferred_play_is_sent_once<W>(s: BridgeView<W>)
    ensures
        ({
            let deferred = s.after_command(BridgeCommand::SendRadioPlay, true);
            &&& deferred.bt_deferred
            &&& deferred.stream_token == s.stream_token
            &&& !deferred.released().bt_deferred
            &&& deferred.released().after_command(BridgeCommand::SendRadioPlay, false)
                == deferred.released()
            &&& s.after_command(BridgeCommand::SendRadioPlay, false) == s
        }),
{
}

/// A play command is owed from when it met Bluetooth playback until that ends, whatever the
/// player reports and whichever other commands are carried out meanwhile. Where none is
/// owed, the end of Bluetooth playback changes nothing.
pub proof fn law_owed_play<W>(
    s: BridgeView<W>,
    command: BridgeCommand,
    bt_playing: bool,
    event: PlayerEvent,
    now_ms: u64,
)
    ensures
        s.owes_play() <==> s.bt_deferred,
        s.after_command(command, bt_playing).owes_play() <==> s.owes_play() || command
            == BridgeCommand::SendRadioPlay && bt_playing,
        s.after_event(event, now_ms).owes_play() == s.owes_play(),
        !s.released().owes_play(),
        !s.owes_play() ==> s.released() == s,
        s.released().stream_token == s.stream_token,
        s.released().current_track == s.current_track,
{
}

/// The health report comes with 200 exactly when all three parts work, and with 503
/// otherwise.
pub proof fn law_health<W>(s: BridgeView<W>, config: BridgeConfig, around: Surroundings)
    ensures
        s.answer("/health"@, None, config, around).status == (if s.spirc_alive
            && around.glagol_connected && around.session_id_valid {
            200u16
        } else {
            503u16
        }),
{
    reveal_strlit("/health");
    reveal_strlit("/stream.mp3");
    reveal_strlit("/status");
    reveal_strlit("/debug");
    assert("/health"@[1] == 'h');
    assert("/status"@[1] == 's');
    assert("/debug"@.len() == 6);
}

/// The members of what comes later hide the others, and no more.
proof fn lemma_object_of_later(a: Seq<(Seq<char>, JsonTree)>, b: Seq<(Seq<char>, JsonTree)>)
    ensures
        crate::json::object_of(a + b) == crate::json::object_of(a).union_prefer_right(
            crate::json::object_of(b),
        ),
    decreases b.len(),
{
    if b.len() == 0 {
        assert(a + b =~= a);
        assert(crate::json::object_of(a + b) =~= crate::json::object_of(a).union_prefer_right(
            crate::json::object_of(b),
        ));
    } else {
        lemma_object_of_later(a, b.drop_last());
        assert((a + b).drop_last() =~= a + b.drop_last());
        assert((a + b).last() == b.last());
        assert(crate::json::object_of(a + b) =~= crate::json::object_of(a).union_prefer_right(
            crate::json::object_of(b),
        ));
    }
}

/// The diagnostic report holds everything that the status report holds.
pub proof fn law_debug_holds_status<W>(
    s: BridgeView<W>,
    config: BridgeConfig,
    around: Surroundings,
    key: Seq<char>,
)
    ensures
        ({
            let status = crate::json::object_of(crate::http::status_fields(s, config, around));
            let debug = crate::json::object_of(
                crate::http::debug_fields(s, config, around) + crate::http::status_fields(
                    s,
                    config,
                    around,
                ),
            );
            status.dom().contains(key) ==> debug.dom().contains(key) && debug[key] == status[key]
        }),
{
    lemma_object_of_later(
        crate::http::debug_fields(s, config, around),
        crate::http::status_fields(s, config, around),
    );
}

/// Asking for a report, or for something that is not there, changes nothing.
pub proof fn law_reports_change_nothing<W>(
    s: BridgeView<W>,
    path: Seq<char>,
    query: Option<Seq<char>>,
    now_ms: u64,
)
    requires
        crate::http::endpoint_of(path) != Endpoint::Stream,
        crate::http::endpoint_of(path) != Endpoint::Stop,
    ensures
        s.after_request(path, query, now_ms) == s,
{
}

/// After a forced stop nothing is streamed, whatever the token, and nothing is queued.
pub proof fn law_stop_is_silent<W>(s: BridgeView<W>, token: u64)
    ensures
        !s.halted().admits(token),
        s.halted().stream_view(token).body == BodyView::Static(Some(s.silence)),
        s.halted().mp3_buffer.len() == 0,
        s.after_command(BridgeCommand::ForceStop, false) == s.halted(),
{
}

} // verus!
