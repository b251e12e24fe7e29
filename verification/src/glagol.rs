//! The Glagol protocol of the station: the token it asks for, the messages it is sent
//! and the state it reports.
use serde_json::Value;
use vstd::prelude::*;
use vstd::string::*;

use crate::base64::base64_encode;
use crate::json::{
    json_as_bool, json_as_double, json_as_text, json_bool, json_get, json_text, json_to_string,
    json_whole, parse_json, JsonFields, JsonTree,
};
use crate::protobuf::protobuf_dumps;
use crate::state::{BridgeConfig, GlagolState};
use crate::text::{push_hex, same_text};

verus! {

/// How long a token is used, in milliseconds.
pub const TOKEN_LIFETIME_MS: u64 = 25000;

/// How often the station is pinged, in seconds.
pub const PING_INTERVAL_SECS: u64 = 30;

/// What is known of the station's side of the conversation.
pub struct GlagolClient {
    pub config: BridgeConfig,
    /// The last token, and when it expires.
    pub cached_token: Option<(String, u64)>,
    pub session_id_valid: bool,
    pub commands_sent: u64,
}

/// Where the token for the station is to be had.
pub open spec fn token_address(device_id: Seq<char>, platform: Seq<char>) -> Seq<char> {
    "https://quasar.yandex.ru/glagol/token?device_id="@ + device_id + "&platform="@ + platform
}

/// The cookie of the token request.
pub open spec fn cookie_text(session_id: Seq<char>) -> Seq<char> {
    "Session_id="@ + session_id
}

/// Where the station is to be reached.
pub open spec fn station_address(station_ip: Seq<char>) -> Seq<char> {
    "wss://"@ + station_ip + ":1961"@
}

/// What is wrong with the status of the reply to a token request, `text` being the status
/// written out; nothing, where it is a success.
pub open spec fn status_error(status: u16, text: Seq<char>) -> Option<Seq<char>> {
    if status == 401 {
        Some("session_id expired (401)"@)
    } else if 200 <= status < 300 {
        None
    } else {
        Some("token request failed: HTTP "@ + text)
    }
}

/// The reply to a token request that carries a token has it under this key.
pub open spec fn token_in(body: JsonTree) -> Option<Seq<char>> {
    match crate::json::tree_member(body, "token"@) {
        Some(token) => crate::json::tree_text(token),
        None => None,
    }
}

/// How a token is to be had.
pub enum TokenStep {
    /// There is one.
    Use(String),
    /// It is to be asked for at this address, with this cookie.
    Request { url: String, cookie: String },
}

impl GlagolClient {
    /// Whether `step` is how this client is to have a token at `now_ms`: the one at hand
    /// as long as it may be used, and else a new one.
    pub open spec fn wants(self, now_ms: u64, step: TokenStep) -> bool {
        match self.usable_token(now_ms) {
            Some(token) => step == TokenStep::Use(token),
            None => {
                &&& step matches TokenStep::Request { url, cookie }
                &&& url@ == token_address(self.config.device_id@, self.config.platform@)
                &&& cookie@ == cookie_text(self.config.session_id@)
            },
        }
    }

    /// A client that has not asked for a token yet.
    pub open spec fn initial(config: BridgeConfig) -> Self {
        GlagolClient { config, cached_token: None, session_id_valid: true, commands_sent: 0 }
    }

    /// The client after the reply to a token request had this status.
    pub open spec fn with_status(self, status: u16) -> Self {
        GlagolClient {
            session_id_valid: if status == 401 {
                false
            } else {
                self.session_id_valid || 200 <= status < 300
            },
            ..self
        }
    }

    /// The client after a token request was answered by this document, if it was one:
    /// `after` and `r` come of it.
    pub open spec fn takes_reply(
        self,
        reply: Option<JsonTree>,
        now_ms: u64,
        after: Self,
        r: Result<String, String>,
    ) -> bool {
        match reply {
            Some(tree) => match token_in(tree) {
                Some(text) => {
                    &&& r matches Ok(token)
                    &&& token@ == text
                    &&& after == self.with_token(token, now_ms)
                },
                None => {
                    &&& r matches Err(e)
                    &&& e@ == "no token in response"@
                    &&& after == self
                },
            },
            None => {
                &&& r matches Err(e)
                &&& e@ == "token parse failed: error decoding response body"@
                &&& after == self
            },
        }
    }

    /// The client after `event` answered the step that `phase` calls for: a message that
    /// got through counts.
    pub open spec fn after_send(self, phase: SendPhase, event: SendEvent) -> Self {
        if phase is Sending && event is Delivered {
            GlagolClient { commands_sent: (self.commands_sent + 1) as u64, ..self }
        } else {
            self
        }
    }

    /// A client that has not asked for a token yet.
    pub fn new(config: BridgeConfig) -> (r: Self)
        ensures
            r == Self::initial(config),
    {
        Self { config, cached_token: None, session_id_valid: true, commands_sent: 0 }
    }

    /// The token that may still be used at `now_ms`.
    pub open spec fn usable_token(self, now_ms: u64) -> Option<String> {
        match self.cached_token {
            Some((token, expiry)) => if now_ms < expiry {
                Some(token)
            } else {
                None
            },
            None => None,
        }
    }

    /// The client after it was given a token at `now_ms`.
    pub open spec fn with_token(self, token: String, now_ms: u64) -> Self {
        GlagolClient {
            cached_token: Some((token, (now_ms + TOKEN_LIFETIME_MS) as u64)),
            ..self
        }
    }

    /// The token at hand, unless it has expired.
    pub fn fresh_token(&self, now_ms: u64) -> (r: Option<String>)
        ensures
            r == self.usable_token(now_ms),
    {
        match &self.cached_token {
            Some((token, expiry)) => if now_ms < *expiry {
                Some(token.clone())
            } else {
                None
            },
            None => None,
        }
    }

    /// The address of the token request.
    pub fn token_url(&self) -> (r: String)
        ensures
            r@ == token_address(self.config.device_id@, self.config.platform@),
    {
        let mut url = String::new();
        url.append("https://quasar.yandex.ru/glagol/token?device_id=");
        url.append(self.config.device_id.as_str());
        url.append("&platform=");
        url.append(self.config.platform.as_str());
        proof {
            assert(url@ =~= token_address(self.config.device_id@, self.config.platform@));
        }
        url
    }

    /// The cookie of the token request.
    pub fn session_cookie(&self) -> (r: String)
        ensures
            r@ == cookie_text(self.config.session_id@),
    {
        let mut cookie = String::new();
        cookie.append("Session_id=");
        cookie.append(self.config.session_id.as_str());
        proof {
            assert(cookie@ =~= cookie_text(self.config.session_id@));
        }
        cookie
    }

    /// Says how a token is to be had.
    pub fn token_step(&self, now_ms: u64) -> (r: TokenStep)
        ensures
            self.wants(now_ms, r),
    {
        match self.fresh_token(now_ms) {
            Some(token) => TokenStep::Use(token),
            None => TokenStep::Request { url: self.token_url(), cookie: self.session_cookie() },
        }
    }

    /// The address of the station.
    pub fn station_url(&self) -> (r: String)
        ensures
            r@ == station_address(self.config.station_ip@),
    {
        let mut url = String::new();
        url.append("wss://");
        url.append(self.config.station_ip.as_str());
        url.append(":1961");
        proof {
            assert(url@ =~= station_address(self.config.station_ip@));
        }
        url
    }

    /// Takes in the status of the reply to a token request; `status_text` is how the
    /// status is written out. A status of 401 means that the session has expired.
    pub fn check_token_status(&mut self, status: u16, status_text: &str) -> (r: Result<(), String>)
        ensures
            r is Ok <==> status_error(status, status_text@) is None,
            r matches Err(e) ==> Some(e@) == status_error(status, status_text@),
            *final(self) == old(self).with_status(status),
    {
        if status == 401 {
            self.session_id_valid = false;
            return Err("session_id expired (401)".to_owned());
        }
        if status < 200 || status >= 300 {
            let mut error = "token request failed: HTTP ".to_owned();
            error.append(status_text);
            return Err(error);
        }
        self.session_id_valid = true;
        Ok(())
    }

    /// Takes in the body of the reply to a token request: the token in it, which is
    /// used for its lifetime from now on.
    pub fn accept_token(&mut self, body: &Value, now_ms: u64) -> (r: Result<String, String>)
        requires
            now_ms <= u64::MAX - TOKEN_LIFETIME_MS,
        ensures
            old(self).takes_reply(
                Some(crate::json::json_tree(*body)),
                now_ms,
                *final(self),
                r,
            ),
    {
        let found = match json_get(body, "token") {
            Some(value) => json_as_text(value),
            None => None,
        };
        match found {
            Some(token) => {
                self.cached_token = Some((token.clone(), now_ms + TOKEN_LIFETIME_MS));
                Ok(token)
            },
            None => Err("no token in response".to_owned()),
        }
    }

    /// Takes in the text of the reply to a token request: the token in it, which is used
    /// for its lifetime from now on.
    pub fn accept_token_reply(&mut self, body: &str, now_ms: u64) -> (r: Result<String, String>)
        requires
            now_ms <= u64::MAX - TOKEN_LIFETIME_MS,
        ensures
            old(self).takes_reply(
                crate::json::json_parsed(body@),
                now_ms,
                *final(self),
                r,
            ),
    {
        match parse_json(body) {
            Some(reply) => self.accept_token(&reply, now_ms),
            None => Err("token parse failed: error decoding response body".to_owned()),
        }
    }
}

/// A token is used for 25 seconds after it was given, without asking; after that a new
/// one is asked for.
pub proof fn law_token_lifetime(
    client: GlagolClient,
    token: String,
    given_ms: u64,
    now_ms: u64,
    step: TokenStep,
)
    requires
        given_ms <= now_ms,
        given_ms <= u64::MAX - TOKEN_LIFETIME_MS,
        client.with_token(token, given_ms).wants(now_ms, step),
    ensures
        now_ms - given_ms < 25000 ==> step == TokenStep::Use(token),
        now_ms - given_ms >= 25000 ==> {
            &&& step matches TokenStep::Request { url, cookie }
            &&& url@ == "https://quasar.yandex.ru/glagol/token?device_id="@
                + client.config.device_id@ + "&platform="@ + client.config.platform@
            &&& cookie@ == "Session_id="@ + client.config.session_id@
        },
{
}

/// What the station is told of a stream.
pub open spec fn radio_tree(url: Seq<char>, title: Seq<char>, subtitle: Seq<char>) -> JsonTree {
    JsonTree::Object(
        crate::json::object_of(
            seq![
                ("streamUrl"@, JsonTree::Text(url)),
                ("force_restart_player"@, JsonTree::Bool(true)),
                ("title"@, JsonTree::Text(title)),
                ("subtitle"@, JsonTree::Text(subtitle)),
            ],
        ),
    )
}

/// The fields of the protobuf message that starts a stream.
pub open spec fn radio_fields(url: Seq<char>, title: Seq<char>, subtitle: Seq<char>) -> Seq<
    (u32, Seq<u8>),
> {
    seq![
        (1u32, vstd::utf8::encode_utf8("radio_play"@)),
        (
            2u32,
            vstd::utf8::encode_utf8(crate::json::json_compact(radio_tree(url, title, subtitle))),
        ),
    ]
}

/// The payload that starts a stream.
pub open spec fn radio_play_tree(
    url: Seq<char>,
    title: Seq<char>,
    subtitle: Seq<char>,
) -> JsonTree {
    JsonTree::Object(
        crate::json::object_of(
            seq![
                ("command"@, JsonTree::Text("externalCommandBypass"@)),
                (
                    "data"@,
                    JsonTree::Text(
                        crate::base64::base64_text(
                            crate::protobuf::message_bytes(radio_fields(url, title, subtitle)),
                        ),
                    ),
                ),
            ],
        ),
    )
}

/// The message that starts a stream reads back as the command and the description.
pub proof fn law_radio_play_reads_back(url: Seq<char>, title: Seq<char>, subtitle: Seq<char>)
    ensures
        crate::protobuf::read_message(
            crate::protobuf::message_bytes(radio_fields(url, title, subtitle)),
        ) == Some(radio_fields(url, title, subtitle)),
{
    crate::protobuf::law_message_reads_back(radio_fields(url, title, subtitle));
}

/// The payload that makes the station play a stream: its description in JSON, wrapped
/// in protobuf and Base64.
pub fn radio_play_payload(stream_url: &str, title: &str, subtitle: &str) -> (r: Value)
    ensures
        crate::json::json_tree(r) == radio_play_tree(stream_url@, title@, subtitle@),
{
    let mut radio = JsonFields::new();
    radio.put("streamUrl", json_text(stream_url));
    radio.put("force_restart_player", json_bool(true));
    radio.put("title", json_text(title));
    radio.put("subtitle", json_text(subtitle));
    proof {
        assert(radio@ =~= seq![
            ("streamUrl"@, JsonTree::Text(stream_url@)),
            ("force_restart_player"@, JsonTree::Bool(true)),
            ("title"@, JsonTree::Text(title@)),
            ("subtitle"@, JsonTree::Text(subtitle@)),
        ]);
    }
    let description = json_to_string(&radio.into_object());
    let entries: [(u32, &str); 2] = [(1, "radio_play"), (2, description.as_str())];
    let proto = protobuf_dumps(&entries);
    proof {
        assert(crate::protobuf::utf8_fields(entries@) =~= radio_fields(
            stream_url@,
            title@,
            subtitle@,
        ));
    }
    let mut payload = JsonFields::new();
    payload.put("command", json_text("externalCommandBypass"));
    payload.put("data", json_text(base64_encode(proto.as_slice()).as_str()));
    proof {
        assert(payload@ =~= seq![
            ("command"@, JsonTree::Text("externalCommandBypass"@)),
            (
                "data"@,
                JsonTree::Text(
                    crate::base64::base64_text(
                        crate::protobuf::message_bytes(
                            radio_fields(stream_url@, title@, subtitle@),
                        ),
                    ),
                ),
            ),
        ]);
    }
    payload.into_object()
}

/// The payload that stops the station.
pub open spec fn stop_tree() -> JsonTree {
    JsonTree::Object(crate::json::object_of(seq![("command"@, JsonTree::Text("stop"@))]))
}

/// The payload that makes the station stop.
pub fn stop_payload() -> (r: Value)
    ensures
        crate::json::json_tree(r) == stop_tree(),
{
    let mut payload = JsonFields::new();
    payload.put("command", json_text("stop"));
    proof {
        assert(payload@ =~= seq![
            ("command"@, JsonTree::Text("stop"@)),
        ]);
    }
    payload.into_object()
}

/// The payload that sets the station's volume.
pub open spec fn volume_tree(volume: JsonTree) -> JsonTree {
    JsonTree::Object(
        crate::json::object_of(
            seq![("command"@, JsonTree::Text("setVolume"@)), ("volume"@, volume)],
        ),
    )
}

/// The payload that sets the station's volume; `volume` is a number from 0 to 1.
pub fn set_volume_payload(volume: Value) -> (r: Value)
    ensures
        crate::json::json_tree(r) == volume_tree(crate::json::json_tree(volume)),
{
    let ghost content = crate::json::json_tree(volume);
    let mut payload = JsonFields::new();
    payload.put("command", json_text("setVolume"));
    payload.put("volume", volume);
    proof {
        assert(payload@ =~= seq![
            ("command"@, JsonTree::Text("setVolume"@)),
            ("volume"@, content),
        ]);
    }
    payload.into_object()
}

/// A message to the station.
pub open spec fn command_tree(
    token: Seq<char>,
    id: Seq<char>,
    sent_time: u64,
    payload: JsonTree,
) -> JsonTree {
    JsonTree::Object(
        crate::json::object_of(
            seq![
                ("conversationToken"@, JsonTree::Text(token)),
                ("id"@, JsonTree::Text(id)),
                ("sentTime"@, crate::json::whole(sent_time as int)),
                ("payload"@, payload),
            ],
        ),
    )
}

/// The text of a message to the station.
pub open spec fn message_text(
    token: Seq<char>,
    id: Seq<char>,
    sent_time: u64,
    payload: JsonTree,
) -> Seq<char> {
    crate::json::json_compact(command_tree(token, id, sent_time, payload))
}

/// The text of a message to the station.
pub fn command_text(token: &str, id: &str, sent_time: u64, payload: Value) -> (r: String)
    ensures
        r@ == message_text(token@, id@, sent_time, crate::json::json_tree(payload)),
{
    let ghost content = crate::json::json_tree(payload);
    let mut message = JsonFields::new();
    message.put("conversationToken", json_text(token));
    message.put("id", json_text(id));
    message.put("sentTime", json_whole(sent_time));
    message.put("payload", payload);
    proof {
        assert(message@ =~= seq![
            ("conversationToken"@, JsonTree::Text(token@)),
            ("id"@, JsonTree::Text(id@)),
            ("sentTime"@, crate::json::whole(sent_time as int)),
            ("payload"@, content),
        ]);
    }
    json_to_string(&message.into_object())
}

/// The identifier made of the nanoseconds since the epoch.
pub open spec fn identifier(nanos: nat) -> Seq<char> {
    crate::text::hex(nanos, 32)
}

/// An identifier made of the nanoseconds since the epoch: 32 hexadecimal digits.
pub fn uuid_simple(nanos: u128) -> (r: String)
    ensures
        r@ == identifier(nanos as nat),
{
    let mut id = String::new();
    push_hex(&mut id, nanos, 32);
    proof {
        assert(id@ =~= identifier(nanos as nat));
    }
    id
}

/// The time stamp of a message that is sent so many milliseconds after the epoch.
pub open spec fn time_stamp(millis: u128) -> u64 {
    (millis % 0x1_0000_0000_0000_0000) as u64
}

/// The milliseconds since the epoch, modulo 2^64.
pub fn epoch_ms(millis: u128) -> (r: u64)
    ensures
        r == time_stamp(millis),
{
    proof {
        assert(millis as u64 == millis % 0x1_0000_0000_0000_0000) by (bit_vector);
    }
    #[verifier::truncate]
    (millis as u64)
}

/// How far the sending of one command has come. `retry` marks the second attempt.
pub enum SendPhase {
    Connecting { retry: bool },
    FetchingToken,
    Sending { retry: bool },
    Sent,
    Failed(String),
}

/// What came of the step that a phase calls for.
pub enum SendEvent {
    Connected,
    ConnectFailed(String),
    TokenReady,
    TokenFailed(String),
    Delivered,
    SendFailed(String),
}

/// The phase in which the sending of a command begins.
pub open spec fn first_phase(connected: bool) -> SendPhase {
    if connected {
        SendPhase::FetchingToken
    } else {
        SendPhase::Connecting { retry: false }
    }
}

/// Begins the sending of a command.
pub fn begin_send(connected: bool) -> (r: SendPhase)
    ensures
        r == first_phase(connected),
{
    if connected {
        SendPhase::FetchingToken
    } else {
        SendPhase::Connecting { retry: false }
    }
}

/// Whether an event answers the step that a phase calls for.
pub open spec fn answers(phase: SendPhase, event: SendEvent) -> bool {
    match phase {
        SendPhase::Connecting { retry } => event is Connected || event is ConnectFailed,
        SendPhase::FetchingToken => event is TokenReady || event is TokenFailed,
        SendPhase::Sending { retry } => event is Delivered || event is SendFailed,
        _ => false,
    }
}

/// Whether `next` is the phase after `phase` and `event`: a message that could not be
/// sent is sent once more over a new connection.
pub open spec fn follows(phase: SendPhase, event: SendEvent, next: SendPhase) -> bool {
    match (phase, event) {
        (SendPhase::Connecting { retry }, SendEvent::Connected) => next == (if retry {
            SendPhase::Sending { retry: true }
        } else {
            SendPhase::FetchingToken
        }),
        (SendPhase::Connecting { retry }, SendEvent::ConnectFailed(e)) => next
            == SendPhase::Failed(e),
        (SendPhase::FetchingToken, SendEvent::TokenReady) => next == SendPhase::Sending {
            retry: false,
        },
        (SendPhase::FetchingToken, SendEvent::TokenFailed(e)) => next == SendPhase::Failed(e),
        (SendPhase::Sending { retry }, SendEvent::Delivered) => next == SendPhase::Sent,
        (SendPhase::Sending { retry }, SendEvent::SendFailed(e)) => if retry {
            next matches SendPhase::Failed(why) && why@ == "retry failed: "@ + e@
        } else {
            next == SendPhase::Connecting { retry: true }
        },
        _ => next == phase,
    }
}

/// How many steps the sending of a command can take at most from a phase on.
pub open spec fn steps_left(phase: SendPhase) -> nat {
    match phase {
        SendPhase::Connecting { retry } => if retry {
            2
        } else {
            5
        },
        SendPhase::FetchingToken => 4,
        SendPhase::Sending { retry } => if retry {
            1
        } else {
            3
        },
        SendPhase::Sent => 0,
        SendPhase::Failed(e) => 0,
    }
}

impl GlagolClient {
    /// The next phase of the sending of a command. A message that got through counts.
    pub fn advance_send(&mut self, phase: SendPhase, event: SendEvent) -> (next: SendPhase)
        requires
            old(self).commands_sent < u64::MAX,
        ensures
            follows(phase, event, next),
            *final(self) == old(self).after_send(phase, event),
    {
        match (phase, event) {
            (SendPhase::Connecting { retry }, SendEvent::Connected) => if retry {
                SendPhase::Sending { retry: true }
            } else {
                SendPhase::FetchingToken
            },
            (SendPhase::Connecting { .. }, SendEvent::ConnectFailed(e)) => SendPhase::Failed(e),
            (SendPhase::FetchingToken, SendEvent::TokenReady) => SendPhase::Sending {
                retry: false,
            },
            (SendPhase::FetchingToken, SendEvent::TokenFailed(e)) => SendPhase::Failed(e),
            (SendPhase::Sending { .. }, SendEvent::Delivered) => {
                self.commands_sent = self.commands_sent + 1;
                SendPhase::Sent
            },
            (SendPhase::Sending { retry }, SendEvent::SendFailed(e)) => {
                if retry {
                    let mut why = "retry failed: ".to_owned();
                    why.append(e.as_str());
                    SendPhase::Failed(why)
                } else {
                    SendPhase::Connecting { retry: true }
                }
            },
            (phase, _) => phase,
        }
    }
}

/// The sending of a command comes to an end: every answered step brings it closer.
pub proof fn law_send_ends(phase: SendPhase, event: SendEvent, next: SendPhase)
    requires
        follows(phase, event, next),
        answers(phase, event),
    ensures
        steps_left(next) < steps_left(phase),
        steps_left(next) == 0 <==> next is Sent || next is Failed,
{
}

/// What the station says of itself in one message.
pub struct StationReport {
    pub player_type: Option<String>,
    pub has_pause: bool,
    pub volume_bits: u64,
    pub progress_bits: u64,
    pub duration_bits: u64,
}

/// The player's part of a message of the station.
pub open spec fn player_state(message: JsonTree) -> Option<JsonTree> {
    match crate::json::tree_member(message, "state"@) {
        Some(state) => crate::json::tree_member(state, "playerState"@),
        None => None,
    }
}

/// The double under a key, or zero.
pub open spec fn double_under(tree: JsonTree, key: Seq<char>) -> u64 {
    match crate::json::tree_member(tree, key) {
        Some(JsonTree::Number(number)) => crate::json::number_double(number),
        _ => 0,
    }
}

impl StationReport {
    /// Whether this is what a message says whose player state is `player`.
    pub open spec fn tells(self, message: JsonTree, player: JsonTree) -> bool {
        let state = crate::json::tree_member(message, "state"@);
        let kind = match crate::json::tree_member(player, "playerType"@) {
            Some(t) => crate::json::tree_text(t),
            None => None,
        };
        &&& self.player_type is Some <==> kind is Some
        &&& self.player_type matches Some(t) ==> Some(t@) == kind
        &&& self.has_pause == (crate::json::tree_member(player, "hasPause"@) == Some(
            JsonTree::Bool(true),
        ))
        &&& self.volume_bits == (match state {
            Some(s) => double_under(s, "volume"@),
            None => 0,
        })
        &&& self.progress_bits == double_under(player, "progress"@)
        &&& self.duration_bits == double_under(player, "duration"@)
    }
}

fn double_or_zero(value: &Value, key: &str) -> (r: u64)
    ensures
        r == double_under(crate::json::json_tree(*value), key@),
{
    match json_get(value, key) {
        Some(member) => match json_as_double(member) {
            Some(bits) => bits,
            None => 0,
        },
        None => 0,
    }
}

/// Reads what a message says of the station; nothing, where it holds no player state.
pub fn station_report(message: &Value) -> (r: Option<StationReport>)
    ensures
        r is Some <==> player_state(crate::json::json_tree(*message)) is Some,
        r matches Some(report) ==> report.tells(
            crate::json::json_tree(*message),
            player_state(crate::json::json_tree(*message))->0,
        ),
{
    let state = match json_get(message, "state") {
        Some(state) => state,
        None => return None,
    };
    let player = match json_get(state, "playerState") {
        Some(player) => player,
        None => return None,
    };
    let player_type = match json_get(player, "playerType") {
        Some(value) => json_as_text(value),
        None => None,
    };
    let has_pause = match json_get(player, "hasPause") {
        Some(value) => match json_as_bool(value) {
            Some(b) => b,
            None => false,
        },
        None => false,
    };
    Some(
        StationReport {
            player_type,
            has_pause,
            volume_bits: double_or_zero(state, "volume"),
            progress_bits: double_or_zero(player, "progress"),
            duration_bits: double_or_zero(player, "duration"),
        },
    )
}

/// Whether a report means that the station plays over Bluetooth.
pub open spec fn plays_bluetooth(report: StationReport) -> bool {
    report.player_type matches Some(t) && t@ == "bluetooth"@ && report.has_pause
}

impl GlagolState {
    /// This state is what a report says, heard at `now_ms`.
    pub open spec fn reflects(self, report: StationReport, now_ms: u64) -> bool {
        &&& self.player_type == report.player_type
        &&& self.has_pause == report.has_pause
        &&& self.bt_playing == plays_bluetooth(report)
        &&& self.volume_bits == report.volume_bits
        &&& self.last_message == Some(now_ms)
        &&& self.progress_bits == report.progress_bits
        &&& self.duration_bits == report.duration_bits
        &&& self.progress_updated == Some(now_ms)
    }

    /// Takes in a report, and says whether Bluetooth playback has just ended.
    pub fn update(&mut self, report: StationReport, now_ms: u64) -> (bt_stopped: bool)
        ensures
            final(self).reflects(report, now_ms),
            bt_stopped == (old(self).bt_playing && !plays_bluetooth(report)),
    {
        let new_bt = match &report.player_type {
            Some(t) => same_text(t.as_str(), "bluetooth") && report.has_pause,
            None => false,
        };
        let was_bt = self.bt_playing;
        self.player_type = report.player_type;
        self.has_pause = report.has_pause;
        self.bt_playing = new_bt;
        self.volume_bits = report.volume_bits;
        self.last_message = Some(now_ms);
        self.progress_bits = report.progress_bits;
        self.duration_bits = report.duration_bits;
        self.progress_updated = Some(now_ms);
        was_bt && !new_bt
    }
}

/// What a message of the station does to what is known of the station: `after` and
/// `bt_stopped` come of it.
pub open spec fn heard(
    message: JsonTree,
    before: GlagolState,
    after: GlagolState,
    bt_stopped: bool,
    now_ms: u64,
) -> bool {
    match player_state(message) {
        Some(player) => exists|report: StationReport| #[trigger]
            report.tells(message, player) && after.reflects(report, now_ms) && bt_stopped == (
            before.bt_playing && !plays_bluetooth(report)),
        None => after == before && !bt_stopped,
    }
}

/// Takes in a message of the station, and says whether Bluetooth playback has just
/// ended. A message without a player state says nothing.
pub fn parse_station_state(message: &Value, state: &mut GlagolState, now_ms: u64) -> (bt_stopped:
    bool)
    ensures
        heard(crate::json::json_tree(*message), *old(state), *final(state), bt_stopped, now_ms),
{
    match station_report(message) {
        Some(report) => {
            let ghost told = report;
            let bt_stopped = state.update(report, now_ms);
            proof {
                assert(told.tells(
                    crate::json::json_tree(*message),
                    player_state(crate::json::json_tree(*message))->0,
                ));
            }
            bt_stopped
        },
        None => false,
    }
}

/// A message that came in over the connection.
pub enum Incoming {
    Text(String),
    Close,
    /// A ping, a pong or binary data.
    Other,
    Failed,
}

/// What a message that came in asks for.
pub struct ReadOutcome {
    /// Tell whoever waits for Bluetooth playback to end.
    pub bt_stopped: bool,
    /// The connection is over.
    pub ended: bool,
}

/// What a message that came in does to what is known of the station: `after` and `r` come
/// of it.
pub open spec fn received(
    incoming: Incoming,
    before: GlagolState,
    after: GlagolState,
    r: ReadOutcome,
    now_ms: u64,
) -> bool {
    &&& r.ended == (incoming is Close || incoming is Failed)
    &&& match incoming {
        Incoming::Text(text) => match crate::json::json_parsed(text@) {
            Some(message) => heard(message, before, after, r.bt_stopped, now_ms),
            None => after == before && !r.bt_stopped,
        },
        _ => after == before && !r.bt_stopped,
    }
}

/// Takes in a message that came in over the connection. Text that is no JSON document
/// is passed over.
pub fn read_message(incoming: Incoming, state: &mut GlagolState, now_ms: u64) -> (r: ReadOutcome)
    ensures
        received(incoming, *old(state), *final(state), r, now_ms),
{
    match incoming {
        Incoming::Text(text) => {
            let bt_stopped = match parse_json(text.as_str()) {
                Some(message) => parse_station_state(&message, state, now_ms),
                None => false,
            };
            ReadOutcome { bt_stopped, ended: false }
        },
        Incoming::Close | Incoming::Failed => ReadOutcome { bt_stopped: false, ended: true },
        Incoming::Other => ReadOutcome { bt_stopped: false, ended: false },
    }
}

/// What the task that keeps the connection alive does next.
#[derive(Debug, Clone, Copy, PartialEq, Eq, Structural)]
pub enum PingStep {
    /// Send a ping.
    Send,
    /// Wait for the next interval.
    Wait,
    /// Take down that the connection is lost, and end.
    Lost,
    /// End: somebody else has found the connection lost.
    End,
}

/// What is to be done at the end of an interval.
pub open spec fn ping_due(connected: bool) -> PingStep {
    if connected {
        PingStep::Send
    } else {
        PingStep::End
    }
}

/// What is to be done after a ping that did or did not get out.
pub open spec fn ping_done(sent: bool) -> PingStep {
    if sent {
        PingStep::Wait
    } else {
        PingStep::Lost
    }
}

/// Says what is to be done at the end of an interval.
pub fn ping_tick(connected: bool) -> (r: PingStep)
    ensures
        r == ping_due(connected),
{
    if connected {
        PingStep::Send
    } else {
        PingStep::End
    }
}

/// Says what is to be done after a ping that did or did not get out.
pub fn after_ping(sent: bool) -> (r: PingStep)
    ensures
        r == ping_done(sent),
{
    if sent {
        PingStep::Wait
    } else {
        PingStep::Lost
    }
}

} // verus!
