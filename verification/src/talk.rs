//! What is said between the bridge and the station, member by member.
use vstd::prelude::*;

use crate::glagol::{
    GlagolClient, Incoming, PingStep, ReadOutcome, SendEvent, SendPhase, StationReport, TokenStep,
};
use crate::json::{JsonNumber, JsonTree};
use crate::state::{BridgeConfig, GlagolState};

verus! {

/// The member at the end of a path of two keys.
pub open spec fn under(message: JsonTree, outer: Seq<char>, inner: Seq<char>) -> Option<JsonTree> {
    match crate::json::tree_member(message, outer) {
        Some(tree) => crate::json::tree_member(tree, inner),
        None => None,
    }
}

/// The member at the end of a path of three keys.
pub open spec fn under_three(
    message: JsonTree,
    outer: Seq<char>,
    middle: Seq<char>,
    inner: Seq<char>,
) -> Option<JsonTree> {
    match under(message, outer, middle) {
        Some(tree) => crate::json::tree_member(tree, inner),
        None => None,
    }
}

/// There is a member, and it is a text.
pub open spec fn is_text(member: Option<JsonTree>) -> bool {
    member matches Some(JsonTree::Text(_))
}

/// The double that a member stands for: that of a number, and zero for anything else.
pub open spec fn double_of(member: Option<JsonTree>) -> u64 {
    match member {
        Some(JsonTree::Number(number)) => crate::json::number_double(number),
        _ => 0,
    }
}

/// The station plays Bluetooth exactly where it says so: its player is of the type
/// `bluetooth` and can be paused. With any other player it does not.
pub proof fn law_bluetooth(
    message: JsonTree,
    before: GlagolState,
    after: GlagolState,
    bt_stopped: bool,
    now_ms: u64,
)
    requires
        crate::glagol::heard(message, before, after, bt_stopped, now_ms),
        under(message, "state"@, "playerState"@) is Some,
    ensures
        after.bt_playing <==> {
            &&& under_three(message, "state"@, "playerState"@, "playerType"@) == Some(
                JsonTree::Text("bluetooth"@),
            )
            &&& under_three(message, "state"@, "playerState"@, "hasPause"@) == Some(
                JsonTree::Bool(true),
            )
        },
        bt_stopped <==> before.bt_playing && !after.bt_playing,
{
    let player = under(message, "state"@, "playerState"@)->0;
    let report = choose|report: StationReport| #[trigger]
        report.tells(message, player) && after.reflects(report, now_ms) && bt_stopped == (
        before.bt_playing && !crate::glagol::plays_bluetooth(report));
    assert(report.tells(message, player));
}

/// Any player type but `bluetooth`, and none at all, means that the station does not play
/// Bluetooth, whatever else it says.
pub proof fn law_other_players(
    message: JsonTree,
    kind: Seq<char>,
    before: GlagolState,
    after: GlagolState,
    bt_stopped: bool,
    now_ms: u64,
)
    requires
        crate::glagol::heard(message, before, after, bt_stopped, now_ms),
        under(message, "state"@, "playerState"@) is Some,
        under_three(message, "state"@, "playerState"@, "playerType"@) == Some(
            JsonTree::Text(kind),
        ) || under_three(message, "state"@, "playerState"@, "playerType"@) is None,
        kind != "bluetooth"@,
    ensures
        !after.bt_playing,
        bt_stopped == before.bt_playing,
{
    law_bluetooth(message, before, after, bt_stopped, now_ms);
}

/// What the station says in a message is what is known of it afterwards: its player's
/// type, where that is a text, its volume, and how far it is in what it plays. The time of
/// the message is taken down.
pub proof fn law_what_is_heard(
    message: JsonTree,
    before: GlagolState,
    after: GlagolState,
    bt_stopped: bool,
    now_ms: u64,
)
    requires
        crate::glagol::heard(message, before, after, bt_stopped, now_ms),
    ensures
        under(message, "state"@, "playerState"@) is None ==> after == before && !bt_stopped,
        under(message, "state"@, "playerState"@) is Some ==> {
            &&& after.player_type is Some <==> is_text(
                under_three(message, "state"@, "playerState"@, "playerType"@),
            )
            &&& after.player_type matches Some(kind) ==> under_three(
                message,
                "state"@,
                "playerState"@,
                "playerType"@,
            ) == Some(JsonTree::Text(kind@))
            &&& after.has_pause <==> under_three(
                message,
                "state"@,
                "playerState"@,
                "hasPause"@,
            ) == Some(JsonTree::Bool(true))
            &&& after.volume_bits == double_of(under(message, "state"@, "volume"@))
            &&& after.progress_bits == double_of(
                under_three(message, "state"@, "playerState"@, "progress"@),
            )
            &&& after.duration_bits == double_of(
                under_three(message, "state"@, "playerState"@, "duration"@),
            )
            &&& after.last_message == Some(now_ms)
            &&& after.progress_updated == Some(now_ms)
        },
{
    if under(message, "state"@, "playerState"@) is Some {
        let player = under(message, "state"@, "playerState"@)->0;
        let report = choose|report: StationReport| #[trigger]
            report.tells(message, player) && after.reflects(report, now_ms) && bt_stopped == (
            before.bt_playing && !crate::glagol::plays_bluetooth(report));
        assert(report.tells(message, player));
    }
}

/// What a report says is what is known afterwards, and whether that is Bluetooth playback.
pub proof fn law_what_is_reported(after: GlagolState, report: StationReport, now_ms: u64)
    requires
        after.reflects(report, now_ms),
    ensures
        after.bt_playing <==> {
            &&& report.player_type matches Some(kind)
            &&& kind@ == "bluetooth"@
            &&& report.has_pause
        },
        after.player_type == report.player_type,
        after.has_pause == report.has_pause,
        after.volume_bits == report.volume_bits,
        after.progress_bits == report.progress_bits,
        after.duration_bits == report.duration_bits,
        after.last_message == Some(now_ms),
        after.progress_updated == Some(now_ms),
{
}

/// Of what comes in, only a text that spells a document is listened to. The connection is
/// over when it is closed or fails, and not otherwise.
pub proof fn law_what_comes_in(
    incoming: Incoming,
    before: GlagolState,
    after: GlagolState,
    r: ReadOutcome,
    now_ms: u64,
)
    requires
        crate::glagol::received(incoming, before, after, r, now_ms),
    ensures
        incoming is Close || incoming is Failed ==> r.ended,
        incoming is Text || incoming is Other ==> !r.ended,
        !(incoming is Text) ==> after == before && !r.bt_stopped,
        incoming matches Incoming::Text(text) ==> match crate::json::json_parsed(text@) {
            Some(message) => crate::glagol::heard(message, before, after, r.bt_stopped, now_ms),
            None => after == before && !r.bt_stopped,
        },
        r.bt_stopped ==> before.bt_playing && !after.bt_playing,
        before.bt_playing && !after.bt_playing ==> r.bt_stopped,
{
    if let Incoming::Text(text) = incoming {
        if let Some(message) = crate::json::json_parsed(text@) {
            if under(message, "state"@, "playerState"@) is Some {
                law_bluetooth(message, before, after, r.bt_stopped, now_ms);
            } else {
                law_what_is_heard(message, before, after, r.bt_stopped, now_ms);
            }
        }
    }
}

proof fn lemma_four_keys(fields: Seq<(Seq<char>, JsonTree)>)
    requires
        fields.len() == 4,
        fields[0].0 != fields[1].0,
        fields[0].0 != fields[2].0,
        fields[0].0 != fields[3].0,
        fields[1].0 != fields[2].0,
        fields[1].0 != fields[3].0,
        fields[2].0 != fields[3].0,
    ensures
        forall|i: int|
            0 <= i < 4 ==> crate::answers::tells(
                JsonTree::Object(crate::json::object_of(fields)),
                (#[trigger] fields[i]).0,
                fields[i].1,
            ),
{
    assert forall|i: int, j: int| 0 <= i < j < fields.len() implies (#[trigger] fields[i]).0 != (
    #[trigger] fields[j]).0 by {
        assert(i == 0 || i == 1 || i == 2 || i == 3);
        assert(j == 0 || j == 1 || j == 2 || j == 3);
    }
    assert forall|i: int| 0 <= i < 4 implies crate::answers::tells(
        JsonTree::Object(crate::json::object_of(fields)),
        (#[trigger] fields[i]).0,
        fields[i].1,
    ) by {
        crate::answers::lemma_field_is_member(fields, i);
    }
}

proof fn lemma_two_keys(fields: Seq<(Seq<char>, JsonTree)>)
    requires
        fields.len() == 2,
        fields[0].0 != fields[1].0,
    ensures
        forall|i: int|
            0 <= i < 2 ==> crate::answers::tells(
                JsonTree::Object(crate::json::object_of(fields)),
                (#[trigger] fields[i]).0,
                fields[i].1,
            ),
{
    assert forall|i: int| 0 <= i < 2 implies crate::answers::tells(
        JsonTree::Object(crate::json::object_of(fields)),
        (#[trigger] fields[i]).0,
        fields[i].1,
    ) by {
        crate::answers::lemma_field_is_member(fields, i);
    }
}

/// The station is told where the stream is, what it is called, and to start its player
/// over.
pub proof fn law_radio_description(url: Seq<char>, title: Seq<char>, subtitle: Seq<char>)
    ensures
        ({
            let tree = crate::glagol::radio_tree(url, title, subtitle);
            &&& crate::answers::tells(tree, "streamUrl"@, JsonTree::Text(url))
            &&& crate::answers::tells(tree, "title"@, JsonTree::Text(title))
            &&& crate::answers::tells(tree, "subtitle"@, JsonTree::Text(subtitle))
            &&& crate::answers::tells(tree, "force_restart_player"@, JsonTree::Bool(true))
        }),
{
    reveal_strlit("streamUrl");
    reveal_strlit("force_restart_player");
    reveal_strlit("title");
    reveal_strlit("subtitle");
    let fields = seq![
        ("streamUrl"@, JsonTree::Text(url)),
        ("force_restart_player"@, JsonTree::Bool(true)),
        ("title"@, JsonTree::Text(title)),
        ("subtitle"@, JsonTree::Text(subtitle)),
    ];
    assert(fields[0].0 == "streamUrl"@ && fields[1].0 == "force_restart_player"@ && fields[2].0
        == "title"@ && fields[3].0 == "subtitle"@);
    assert("streamUrl"@.len() == 9 && "force_restart_player"@.len() == 20 && "title"@.len() == 5
        && "subtitle"@.len() == 8);
    lemma_four_keys(fields);
}

/// The payload that starts a stream is a bypass of the station's own commands: in Base64,
/// a message whose first field is `radio_play` and whose second is the description.
pub proof fn law_radio_play(url: Seq<char>, title: Seq<char>, subtitle: Seq<char>)
    ensures
        ({
            let tree = crate::glagol::radio_play_tree(url, title, subtitle);
            let description = crate::json::json_compact(
                crate::glagol::radio_tree(url, title, subtitle),
            );
            exists|message: Seq<u8>|
                crate::answers::tells(
                    tree,
                    "data"@,
                    JsonTree::Text(#[trigger] crate::base64::base64_text(message)),
                ) && crate::answers::tells(
                    tree,
                    "command"@,
                    JsonTree::Text("externalCommandBypass"@),
                ) && crate::protobuf::read_message(message) == Some(
                    seq![
                        (1u32, vstd::utf8::encode_utf8("radio_play"@)),
                        (2u32, vstd::utf8::encode_utf8(description)),
                    ],
                )
        }),
{
    reveal_strlit("command");
    reveal_strlit("data");
    let told = crate::glagol::radio_fields(url, title, subtitle);
    let message = crate::protobuf::message_bytes(told);
    let fields = seq![
        ("command"@, JsonTree::Text("externalCommandBypass"@)),
        ("data"@, JsonTree::Text(crate::base64::base64_text(message))),
    ];
    assert(fields[0].0 == "command"@ && fields[1].0 == "data"@);
    assert("command"@.len() == 7 && "data"@.len() == 4);
    lemma_two_keys(fields);
    crate::glagol::law_radio_play_reads_back(url, title, subtitle);
    let description = crate::json::json_compact(crate::glagol::radio_tree(url, title, subtitle));
    assert(told =~= seq![
        (1u32, vstd::utf8::encode_utf8("radio_play"@)),
        (2u32, vstd::utf8::encode_utf8(description)),
    ]);
}

/// To stop, the station is told so.
pub proof fn law_stop_message()
    ensures
        crate::answers::tells(crate::glagol::stop_tree(), "command"@, JsonTree::Text("stop"@)),
{
    let fields = seq![("command"@, JsonTree::Text("stop"@))];
    crate::answers::lemma_field_is_member(fields, 0);
}

/// To set its volume, the station is told so, and the volume.
pub proof fn law_volume_message(volume: JsonTree)
    ensures
        ({
            let tree = crate::glagol::volume_tree(volume);
            &&& crate::answers::tells(tree, "command"@, JsonTree::Text("setVolume"@))
            &&& crate::answers::tells(tree, "volume"@, volume)
        }),
{
    reveal_strlit("command");
    reveal_strlit("volume");
    let fields = seq![("command"@, JsonTree::Text("setVolume"@)), ("volume"@, volume)];
    assert(fields[0].0 == "command"@ && fields[1].0 == "volume"@);
    assert("command"@.len() == 7 && "volume"@.len() == 6);
    lemma_two_keys(fields);
}

/// A message, on one line, carries the token, its identifier, the time at which it is sent,
/// and what it is for.
pub proof fn law_message(token: Seq<char>, id: Seq<char>, sent_time: u64, payload: JsonTree)
    ensures
        ({
            let tree = crate::glagol::command_tree(token, id, sent_time, payload);
            &&& crate::answers::tells(tree, "conversationToken"@, JsonTree::Text(token))
            &&& crate::answers::tells(tree, "id"@, JsonTree::Text(id))
            &&& crate::answers::tells(
                tree,
                "sentTime"@,
                JsonTree::Number(JsonNumber::Whole(sent_time)),
            )
            &&& crate::answers::tells(tree, "payload"@, payload)
            &&& crate::glagol::message_text(token, id, sent_time, payload)
                == crate::json::json_compact(tree)
        }),
{
    reveal_strlit("conversationToken");
    reveal_strlit("id");
    reveal_strlit("sentTime");
    reveal_strlit("payload");
    let fields = seq![
        ("conversationToken"@, JsonTree::Text(token)),
        ("id"@, JsonTree::Text(id)),
        ("sentTime"@, crate::json::whole(sent_time as int)),
        ("payload"@, payload),
    ];
    assert(fields[0].0 == "conversationToken"@ && fields[1].0 == "id"@ && fields[2].0
        == "sentTime"@ && fields[3].0 == "payload"@);
    assert("conversationToken"@.len() == 17 && "id"@.len() == 2 && "sentTime"@.len() == 8
        && "payload"@.len() == 7);
    lemma_four_keys(fields);
}

/// The addresses and the cookie, to the letter.
pub proof fn law_addresses(
    device_id: Seq<char>,
    platform: Seq<char>,
    session_id: Seq<char>,
    station_ip: Seq<char>,
)
    ensures
        crate::glagol::token_address(device_id, platform)
            == "https://quasar.yandex.ru/glagol/token?device_id="@ + device_id + "&platform="@
            + platform,
        crate::glagol::cookie_text(session_id) == "Session_id="@ + session_id,
        crate::glagol::station_address(station_ip) == "wss://"@ + station_ip + ":1961"@,
{
}

/// The status of the reply to a token request: 401 means that the session has expired, a
/// success that it has not, and any other status tells nothing of it and is an error.
/// Nothing else is known from the status.
pub proof fn law_token_status(client: GlagolClient, status: u16, text: Seq<char>)
    ensures
        ({
            let error = crate::glagol::status_error(status, text);
            let after = client.with_status(status);
            &&& error is None <==> 200 <= status <= 299
            &&& status == 401 ==> error == Some("session_id expired (401)"@)
            &&& (status < 200 || status > 299) && status != 401 ==> error == Some(
                "token request failed: HTTP "@ + text,
            )
            &&& status == 401 ==> !after.session_id_valid
            &&& 200 <= status <= 299 ==> after.session_id_valid
            &&& (status < 200 || status > 299) && status != 401 ==> after == client
            &&& after.config == client.config
            &&& after.cached_token == client.cached_token
            &&& after.commands_sent == client.commands_sent
        }),
{
}

/// A reply brings a token exactly where it is a document with a text under `token`. That
/// is then used for 25 seconds; any other reply changes nothing.
pub proof fn law_token_reply(
    client: GlagolClient,
    reply: Option<JsonTree>,
    now_ms: u64,
    after: GlagolClient,
    r: Result<String, String>,
)
    requires
        now_ms <= u64::MAX - 25000,
        client.takes_reply(reply, now_ms, after, r),
    ensures
        r is Ok <==> reply is Some && is_text(crate::json::tree_member(reply->0, "token"@)),
        r matches Ok(token) ==> {
            &&& reply matches Some(tree)
            &&& crate::answers::tells(tree, "token"@, JsonTree::Text(token@))
            &&& after.cached_token matches Some((kept, expiry))
            &&& kept == token
            &&& expiry == now_ms + 25000
        },
        r is Err ==> after == client,
        r matches Err(e) ==> e@ == (if reply is Some {
            "no token in response"@
        } else {
            "token parse failed: error decoding response body"@
        }),
        after.config == client.config,
        after.session_id_valid == client.session_id_valid,
        after.commands_sent == client.commands_sent,
{
}

/// A new client has no token, believes its session to be valid and has sent nothing.
/// Without a token it asks for one.
pub proof fn law_new_station(config: BridgeConfig, now_ms: u64, step: TokenStep)
    ensures
        ({
            let client = GlagolClient::initial(config);
            &&& client.config == config
            &&& client.cached_token is None
            &&& client.session_id_valid
            &&& client.commands_sent == 0
            &&& client.wants(now_ms, step) ==> step is Request
        }),
{
}

/// A message is sent over the connection at hand or over a new one, with a token. What
/// goes wrong ends the sending, except that a message that could not be sent is sent once
/// more over a new connection. Only a message that got through counts.
pub proof fn law_sending(
    client: GlagolClient,
    connected: bool,
    phase: SendPhase,
    event: SendEvent,
    next: SendPhase,
)
    requires
        client.commands_sent < u64::MAX,
        crate::glagol::follows(phase, event, next),
    ensures
        crate::glagol::first_phase(connected) is FetchingToken <==> connected,
        crate::glagol::first_phase(connected) == (SendPhase::Connecting { retry: false })
            <==> !connected,
        client.after_send(phase, event).commands_sent == client.commands_sent + (if phase
            is Sending && event is Delivered {
            1int
        } else {
            0int
        }),
        client.after_send(phase, event).config == client.config,
        client.after_send(phase, event).cached_token == client.cached_token,
        client.after_send(phase, event).session_id_valid == client.session_id_valid,
        !crate::glagol::answers(phase, event) ==> next == phase,
        crate::glagol::answers(phase, event) ==> {
            &&& next is Sent <==> event is Delivered
            &&& event matches SendEvent::ConnectFailed(e) ==> next == SendPhase::Failed(e)
            &&& event matches SendEvent::TokenFailed(e) ==> next == SendPhase::Failed(e)
            &&& event matches SendEvent::SendFailed(e) ==> {
                &&& phase == (SendPhase::Sending { retry: false }) ==> next
                    == (SendPhase::Connecting { retry: true })
                &&& phase == (SendPhase::Sending { retry: true }) ==> {
                    &&& next matches SendPhase::Failed(why)
                    &&& why@ == "retry failed: "@ + e@
                }
            }
            &&& event is TokenReady ==> next == (SendPhase::Sending { retry: false })
            &&& event is Connected ==> next == (if phase == (SendPhase::Connecting {
                retry: true,
            }) {
                SendPhase::Sending { retry: true }
            } else {
                SendPhase::FetchingToken
            })
        },
{
}

/// Which events answer which step: the outcome of what the step does, good or bad.
pub proof fn law_which_events_answer(phase: SendPhase, event: SendEvent)
    ensures
        phase is Connecting ==> (crate::glagol::answers(phase, event) <==> event is Connected
            || event is ConnectFailed),
        phase is FetchingToken ==> (crate::glagol::answers(phase, event) <==> event is TokenReady
            || event is TokenFailed),
        phase is Sending ==> (crate::glagol::answers(phase, event) <==> event is Delivered
            || event is SendFailed),
        phase is Sent || phase is Failed ==> !crate::glagol::answers(phase, event),
{
}

/// A connection that is up is pinged every 30 seconds; a ping that does not get out means
/// that it is lost, and one that is already down is left alone.
pub proof fn law_pings(connected: bool, sent: bool)
    ensures
        crate::glagol::ping_due(connected) == PingStep::Send <==> connected,
        crate::glagol::ping_due(connected) == PingStep::End <==> !connected,
        crate::glagol::ping_done(sent) == PingStep::Wait <==> sent,
        crate::glagol::ping_done(sent) == PingStep::Lost <==> !sent,
        crate::glagol::PING_INTERVAL_SECS == 30,
{
}

/// A time stamp is the time itself, as long as that fits in 64 bits, and agrees with it
/// modulo 2^64 after that.
pub proof fn law_time_stamps(millis: u128)
    ensures
        millis <= u64::MAX ==> crate::glagol::time_stamp(millis) == millis,
        (millis - crate::glagol::time_stamp(millis)) % 0x1_0000_0000_0000_0000 == 0,
{
    let stamp = crate::glagol::time_stamp(millis);
    assert(stamp == millis % 0x1_0000_0000_0000_0000);
    vstd::arithmetic::div_mod::lemma_fundamental_div_mod(
        millis as int,
        0x1_0000_0000_0000_0000,
    );
    let turns = millis as int / 0x1_0000_0000_0000_0000;
    vstd::arithmetic::div_mod::lemma_mod_multiples_basic(turns, 0x1_0000_0000_0000_0000);
    assert(millis - stamp == turns * 0x1_0000_0000_0000_0000);
}

/// The messages to the station say nothing else.
pub proof fn law_messages_say_nothing_else(
    url: Seq<char>,
    title: Seq<char>,
    subtitle: Seq<char>,
    volume: JsonTree,
    token: Seq<char>,
    id: Seq<char>,
    sent_time: u64,
    payload: JsonTree,
    key: Seq<char>,
)
    ensures
        crate::json::tree_member(crate::glagol::radio_tree(url, title, subtitle), key) is Some
            ==> key == "streamUrl"@ || key == "force_restart_player"@ || key == "title"@ || key
            == "subtitle"@,
        crate::json::tree_member(crate::glagol::radio_play_tree(url, title, subtitle), key) is Some
            ==> key == "command"@ || key == "data"@,
        crate::json::tree_member(crate::glagol::stop_tree(), key) is Some ==> key == "command"@,
        crate::json::tree_member(crate::glagol::volume_tree(volume), key) is Some ==> key
            == "command"@ || key == "volume"@,
        crate::json::tree_member(
            crate::glagol::command_tree(token, id, sent_time, payload),
            key,
        ) is Some ==> key == "conversationToken"@ || key == "id"@ || key == "sentTime"@ || key
            == "payload"@,
{
    crate::json::law_members(
        seq![
            ("streamUrl"@, JsonTree::Text(url)),
            ("force_restart_player"@, JsonTree::Bool(true)),
            ("title"@, JsonTree::Text(title)),
            ("subtitle"@, JsonTree::Text(subtitle)),
        ],
        key,
        0,
    );
    let message = crate::protobuf::message_bytes(
        crate::glagol::radio_fields(url, title, subtitle),
    );
    crate::json::law_members(
        seq![
            ("command"@, JsonTree::Text("externalCommandBypass"@)),
            ("data"@, JsonTree::Text(crate::base64::base64_text(message))),
        ],
        key,
        0,
    );
    crate::json::law_members(seq![("command"@, JsonTree::Text("stop"@))], key, 0);
    crate::json::law_members(
        seq![("command"@, JsonTree::Text("setVolume"@)), ("volume"@, volume)],
        key,
        0,
    );
    crate::json::law_members(
        seq![
            ("conversationToken"@, JsonTree::Text(token)),
            ("id"@, JsonTree::Text(id)),
            ("sentTime"@, crate::json::whole(sent_time as int)),
            ("payload"@, payload),
        ],
        key,
        0,
    );
}

/// An identifier is 32 hexadecimal digits that spell the time it is made of, so that two
/// made at different times differ.
pub proof fn law_identifiers(nanos: u128, other: u128)
    ensures
        crate::glagol::identifier(nanos as nat).len() == 32,
        forall|i: int|
            0 <= i < 32 ==> '0' <= #[trigger] crate::glagol::identifier(nanos as nat)[i] <= '9'
                || 'a' <= crate::glagol::identifier(nanos as nat)[i] <= 'f',
        crate::text::hex_value(crate::glagol::identifier(nanos as nat)) == nanos,
        crate::glagol::identifier(nanos as nat) == crate::glagol::identifier(other as nat) ==> nanos
            == other,
{
    reveal_with_fuel(crate::text::hex_span, 33);
    assert(crate::text::hex_span(32) == 0x1_0000_0000_0000_0000_0000_0000_0000_0000nat);
    crate::text::law_hex_reads_back(nanos as nat, 32);
    crate::text::law_hex_reads_back(other as nat, 32);
}

/// The token at hand is used exactly until it expires. Then, and where there is none, one
/// is asked for, with the identifier and the platform of the station and the session.
pub proof fn law_token_at_hand(client: GlagolClient, now_ms: u64, step: TokenStep)
    requires
        client.wants(now_ms, step),
    ensures
        match client.cached_token {
            Some((token, expiry)) => {
                &&& now_ms < expiry ==> step == TokenStep::Use(token)
                &&& now_ms < expiry ==> client.usable_token(now_ms) == Some(token)
                &&& now_ms >= expiry ==> step is Request && client.usable_token(now_ms) is None
            },
            None => step is Request && client.usable_token(now_ms) is None,
        },
        step matches TokenStep::Request { url, cookie } ==> {
            &&& url@ == "https://quasar.yandex.ru/glagol/token?device_id="@
                + client.config.device_id@ + "&platform="@ + client.config.platform@
            &&& cookie@ == "Session_id="@ + client.config.session_id@
        },
{
}

} // verus!
