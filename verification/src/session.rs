//! The Spotify session: how it is opened, watched over, closed and opened again.
use librespot_core::authentication::Credentials;
use vstd::prelude::*;

use crate::state::{BridgeShared, BridgeView};

verus! {

/// What a session is opened with. `C` is what an earlier session has left behind.
pub enum CredentialSource<C> {
    Cached(C),
    AccessToken(String),
    Password { username: String, password: String },
    /// Nothing to open a session with.
    Missing,
}

/// What a session is opened with: what an earlier session has left behind before
/// anything given by hand, and a token before a name and a password.
pub open spec fn credential_source<C>(
    cached: Option<C>,
    access_token: Option<String>,
    username: Option<String>,
    password: Option<String>,
) -> CredentialSource<C> {
    match (cached, access_token, username, password) {
        (Some(c), _, _, _) => CredentialSource::Cached(c),
        (None, Some(token), _, _) => CredentialSource::AccessToken(token),
        (None, None, Some(username), Some(password)) => CredentialSource::Password {
            username,
            password,
        },
        _ => CredentialSource::Missing,
    }
}

/// Picks what a session is opened with.
pub fn load_credentials<C>(
    cached: Option<C>,
    access_token: Option<String>,
    username: Option<String>,
    password: Option<String>,
) -> (r: CredentialSource<C>)
    ensures
        r == credential_source(cached, access_token, username, password),
{
    if let Some(c) = cached {
        return CredentialSource::Cached(c);
    }
    if let Some(token) = access_token {
        return CredentialSource::AccessToken(token);
    }
    match (username, password) {
        (Some(username), Some(password)) => CredentialSource::Password { username, password },
        _ => CredentialSource::Missing,
    }
}

/// What librespot opens a session with, opaque: `credentials_content` names what it
/// holds.
#[verifier::external_type_specification]
#[verifier::external_body]
pub struct ExCredentials(librespot_core::authentication::Credentials);

/// The mathematical content of librespot's `Credentials`. The authentication type is the
/// number that Spotify's protocol gives it.
pub struct CredentialContent {
    pub username: Option<Seq<char>>,
    pub auth_type: i32,
    pub auth_data: Seq<u8>,
}

/// The authentication type of a name and a password.
pub const AUTH_USER_PASS: i32 = 0;

/// The authentication type of an access token.
pub const AUTH_SPOTIFY_TOKEN: i32 = 3;

/// What a `Credentials` holds.
pub uninterp spec fn credentials_content(
    credentials: librespot_core::authentication::Credentials,
) -> CredentialContent;

/// What `serde_json::from_str` makes of a text for a `Credentials`: `None` where it
/// reports an error.
pub uninterp spec fn credentials_parsed(text: Seq<char>) -> Option<CredentialContent>;

/// The content of the credentials that an access token makes.
pub open spec fn token_content(token: Seq<char>) -> CredentialContent {
    CredentialContent {
        username: None,
        auth_type: AUTH_SPOTIFY_TOKEN,
        auth_data: vstd::utf8::encode_utf8(token),
    }
}

/// The content of the credentials that a name and a password make.
pub open spec fn password_content(
    username: Seq<char>,
    password: Seq<char>,
) -> CredentialContent {
    CredentialContent {
        username: Some(username),
        auth_type: AUTH_USER_PASS,
        auth_data: vstd::utf8::encode_utf8(password),
    }
}

/// Calls `serde_json::from_str` for librespot's `Credentials`: the credentials that the
/// text spells, `None` where it spells none.
#[verifier::external_body]
fn parse_credentials(text: &str) -> (r: Option<Credentials>)
    ensures
        r is Some <==> credentials_parsed(text@) is Some,
        r matches Some(credentials) ==> Some(credentials_content(credentials))
            == credentials_parsed(text@),
{
    serde_json::from_str::<Credentials>(text).ok()
}

/// Calls `Credentials::with_access_token`: no name, and the UTF-8 form of the token.
#[verifier::external_body]
fn token_credentials(token: String) -> (r: Credentials)
    ensures
        credentials_content(r) == token_content(token@),
{
    Credentials::with_access_token(token)
}

/// Calls `Credentials::with_password`: the name, and the UTF-8 form of the password.
#[verifier::external_body]
fn password_credentials(username: String, password: String) -> (r: Credentials)
    ensures
        credentials_content(r) == password_content(username@, password@),
{
    Credentials::with_password(username, password)
}

/// What the text of a credentials file holds: nothing without a file.
pub open spec fn cached_content(file: Option<&str>) -> Option<CredentialContent> {
    match file {
        Some(text) => credentials_parsed(text@),
        None => None,
    }
}

/// The content of the credentials that a session is opened with, where the credentials
/// file has the text `file`; nothing, where there is nothing to open one with.
pub open spec fn picked_content(
    file: Option<&str>,
    access_token: Option<String>,
    username: Option<String>,
    password: Option<String>,
) -> Option<CredentialContent> {
    match credential_source(cached_content(file), access_token, username, password) {
        CredentialSource::Cached(content) => Some(content),
        CredentialSource::AccessToken(token) => Some(token_content(token@)),
        CredentialSource::Password { username, password } => Some(
            password_content(username@, password@),
        ),
        CredentialSource::Missing => None,
    }
}

/// The credentials that a session is opened with. `file` is the text that an earlier
/// session has left behind; where it spells no credentials, it is passed over.
pub fn pick_credentials(
    file: Option<&str>,
    access_token: Option<String>,
    username: Option<String>,
    password: Option<String>,
) -> (r: Option<Credentials>)
    ensures
        r is Some <==> picked_content(file, access_token, username, password) is Some,
        r matches Some(credentials) ==> Some(credentials_content(credentials)) == picked_content(
            file,
            access_token,
            username,
            password,
        ),
{
    let cached = match file {
        Some(text) => parse_credentials(text),
        None => None,
    };
    match load_credentials(cached, access_token, username, password) {
        CredentialSource::Cached(credentials) => Some(credentials),
        CredentialSource::AccessToken(token) => Some(token_credentials(token)),
        CredentialSource::Password { username, password } => Some(
            password_credentials(username, password),
        ),
        CredentialSource::Missing => None,
    }
}

/// What a session is opened with: whatever an earlier session has left behind, and nothing
/// given by hand makes a difference to that. Without it, the token; without either, the
/// name and the password, where both are given; and else nothing.
pub proof fn law_which_credentials<C>(
    cached: Option<C>,
    access_token: Option<String>,
    username: Option<String>,
    password: Option<String>,
)
    ensures
        ({
            let source = credential_source(cached, access_token, username, password);
            &&& cached matches Some(c) ==> source == CredentialSource::Cached(c)
            &&& cached is None ==> (access_token matches Some(token) ==> source
                == CredentialSource::<C>::AccessToken(token))
            &&& cached is None && access_token is None ==> {
                &&& source is Password <==> username is Some && password is Some
                &&& source matches CredentialSource::Password { username: u, password: p } ==> {
                    &&& username == Some(u)
                    &&& password == Some(p)
                }
                &&& source is Missing <==> username is None || password is None
            }
        }),
{
}

/// Which kind of credentials is picked, and when.
pub proof fn law_kinds_of_credentials<C>(
    cached: Option<C>,
    access_token: Option<String>,
    username: Option<String>,
    password: Option<String>,
)
    ensures
        ({
            let source = credential_source(cached, access_token, username, password);
            let both = username is Some && password is Some;
            &&& source is Cached <==> cached is Some
            &&& source is AccessToken <==> cached is None && access_token is Some
            &&& source is Password <==> cached is None && access_token is None && both
            &&& source is Missing <==> cached is None && access_token is None && !both
        }),
{
}

/// With credentials left behind, whatever is given by hand is passed over.
pub proof fn law_cache_is_enough<C>(
    cached: C,
    tokens: (Option<String>, Option<String>),
    usernames: (Option<String>, Option<String>),
    passwords: (Option<String>, Option<String>),
)
    ensures
        credential_source(Some(cached), tokens.0, usernames.0, passwords.0) == credential_source(
            Some(cached),
            tokens.1,
            usernames.1,
            passwords.1,
        ),
{
}

/// What the credentials that a session is opened with hold: what the file spells, where it
/// spells any; else the token, without a name; else the name and the password.
pub proof fn law_content_of_credentials(
    file: Option<&str>,
    access_token: Option<String>,
    username: Option<String>,
    password: Option<String>,
)
    ensures
        ({
            let left = match file {
                Some(text) => credentials_parsed(text@),
                None => None,
            };
            let picked = picked_content(file, access_token, username, password);
            &&& left is Some ==> picked == left
            &&& left is None ==> (access_token matches Some(token) ==> {
                &&& picked matches Some(content)
                &&& content.username is None
                &&& content.auth_type == 3
                &&& content.auth_data == vstd::utf8::encode_utf8(token@)
            })
            &&& left is None && access_token is None ==> {
                &&& picked is Some <==> username is Some && password is Some
                &&& picked matches Some(content) ==> {
                    &&& content.username == Some(username->0@)
                    &&& content.auth_type == 0
                    &&& content.auth_data == vstd::utf8::encode_utf8(password->0@)
                }
            }
        }),
{
}

/// The bit rates that Spotify offers, in kilobits per second.
#[derive(Debug, Clone, Copy, PartialEq, Eq, Structural)]
pub enum PlayerBitrate {
    Bitrate96,
    Bitrate160,
    Bitrate320,
}

/// The bit rate for a wish in kilobits per second: 160 for what is not offered.
pub open spec fn offered_bitrate(kbps: u32) -> PlayerBitrate {
    if kbps == 96 {
        PlayerBitrate::Bitrate96
    } else if kbps == 320 {
        PlayerBitrate::Bitrate320
    } else {
        PlayerBitrate::Bitrate160
    }
}

/// Picks the bit rate for a wish in kilobits per second.
pub fn player_bitrate(kbps: u32) -> (r: PlayerBitrate)
    ensures
        r == offered_bitrate(kbps),
{
    match kbps {
        96 => PlayerBitrate::Bitrate96,
        320 => PlayerBitrate::Bitrate320,
        _ => PlayerBitrate::Bitrate160,
    }
}

/// How long the first wait before a new session is, in seconds.
pub const FIRST_BACKOFF_SECS: u64 = 2;

/// How long a wait before a new session is at most, in seconds.
pub const LONGEST_BACKOFF_SECS: u64 = 60;

/// A session that lasted longer than this was a healthy one, in nanoseconds.
pub const HEALTHY_SESSION_NANOS: u128 = 30_000_000_000;

/// The plan for opening sessions again.
#[derive(Debug, Clone, Copy, PartialEq, Eq, Structural)]
pub struct Reconnect {
    /// The next wait, in seconds.
    pub backoff_secs: u64,
    /// How many sessions have ended.
    pub count: u64,
}

/// The wait after a wait.
pub open spec fn next_backoff(secs: u64) -> u64 {
    if secs * 2 < LONGEST_BACKOFF_SECS {
        (secs * 2) as u64
    } else {
        LONGEST_BACKOFF_SECS
    }
}

impl Reconnect {
    /// No wait is shorter than the first or longer than the longest.
    pub open spec fn wf(self) -> bool {
        FIRST_BACKOFF_SECS <= self.backoff_secs <= LONGEST_BACKOFF_SECS
    }

    /// The plan after a session could not be opened.
    pub open spec fn after_failure(self) -> Self {
        Reconnect { backoff_secs: next_backoff(self.backoff_secs), ..self }
    }

    /// How long to wait after a session could not be opened.
    pub open spec fn wait_after_failure(self) -> u64 {
        self.backoff_secs
    }

    /// How long to wait after a session that lasted so long.
    pub open spec fn wait_after(self, lasted_nanos: u128) -> u64 {
        if lasted_nanos > HEALTHY_SESSION_NANOS {
            FIRST_BACKOFF_SECS
        } else {
            self.backoff_secs
        }
    }

    /// The plan after a session that lasted so long.
    pub open spec fn after_session(self, lasted_nanos: u128) -> Self {
        Reconnect {
            backoff_secs: next_backoff(self.wait_after(lasted_nanos)),
            count: (self.count + 1) as u64,
        }
    }

    /// Before the first session.
    pub open spec fn initial() -> Self {
        Reconnect { backoff_secs: FIRST_BACKOFF_SECS, count: 0 }
    }

    /// Before the first session.
    pub fn new() -> (r: Self)
        ensures
            r == Self::initial(),
            r.wf(),
    {
        Self { backoff_secs: FIRST_BACKOFF_SECS, count: 0 }
    }

    fn doubled(&mut self)
        requires
            old(self).wf(),
        ensures
            *final(self) == old(self).after_failure(),
            final(self).wf(),
    {
        let twice: u64 = self.backoff_secs * 2;
        self.backoff_secs = if twice < LONGEST_BACKOFF_SECS {
            twice
        } else {
            LONGEST_BACKOFF_SECS
        };
    }

    /// A session could not be opened: how many seconds to wait.
    pub fn open_failed(&mut self) -> (wait_secs: u64)
        requires
            old(self).wf(),
        ensures
            wait_secs == old(self).wait_after_failure(),
            *final(self) == old(self).after_failure(),
            final(self).wf(),
    {
        let wait_secs: u64 = self.backoff_secs;
        self.doubled();
        wait_secs
    }

    /// A session has ended: how many seconds to wait.
    pub fn session_ended(&mut self, lasted_nanos: u128) -> (wait_secs: u64)
        requires
            old(self).wf(),
            old(self).count < u64::MAX,
        ensures
            wait_secs == old(self).wait_after(lasted_nanos),
            *final(self) == old(self).after_session(lasted_nanos),
            final(self).wf(),
    {
        if lasted_nanos > HEALTHY_SESSION_NANOS {
            self.backoff_secs = FIRST_BACKOFF_SECS;
        }
        self.count = self.count + 1;
        let wait_secs: u64 = self.backoff_secs;
        self.doubled();
        wait_secs
    }
}

/// What a look at the session shows.
#[derive(Debug, Clone, Copy, PartialEq, Eq, Structural)]
pub enum Probe {
    /// The session says itself that it is over.
    Invalid,
    /// A request got its reply.
    Answered,
    /// A request got an error, or no reply in time.
    Unanswered,
}

/// How often a session is looked at, in seconds.
pub const PROBE_INTERVAL_SECS: u64 = 30;

/// How long a request is given, in seconds.
pub const PROBE_TIMEOUT_SECS: u64 = 10;

/// How many unanswered requests in a row mean that a session is dead.
pub const PROBE_FAILURES: u32 = 3;

/// The watch over a session.
#[derive(Debug, Clone, Copy, PartialEq, Eq, Structural)]
pub struct Supervisor {
    /// Unanswered requests in a row.
    pub fails: u32,
}

impl Supervisor {
    /// The count after another look.
    pub open spec fn fails_after(self, probe: Probe) -> int {
        match probe {
            Probe::Invalid => self.fails as int,
            Probe::Answered => 0,
            Probe::Unanswered => self.fails + 1,
        }
    }

    /// Whether a look shows that the session is dead.
    pub open spec fn dead(self, probe: Probe) -> bool {
        probe == Probe::Invalid || probe == Probe::Unanswered && self.fails + 1 >= PROBE_FAILURES
    }

    /// Nothing seen yet.
    pub open spec fn initial() -> Self {
        Supervisor { fails: 0 }
    }

    /// Nothing seen yet.
    pub fn new() -> (r: Self)
        ensures
            r == Self::initial(),
    {
        Self { fails: 0 }
    }

    /// Takes in another look at the session, and says whether the session is dead.
    pub fn observe(&mut self, probe: Probe) -> (dead: bool)
        requires
            old(self).fails < PROBE_FAILURES,
        ensures
            dead == old(self).dead(probe),
            final(self).fails == old(self).fails_after(probe),
            !dead ==> final(self).fails < PROBE_FAILURES,
    {
        match probe {
            Probe::Invalid => true,
            Probe::Answered => {
                self.fails = 0;
                false
            },
            Probe::Unanswered => {
                self.fails = self.fails + 1;
                self.fails >= PROBE_FAILURES
            },
        }
    }
}

impl<W> BridgeView<W> {
    /// After it was taken down whether there is a session.
    pub open spec fn with_session(self, alive: bool) -> Self {
        BridgeView { spirc_alive: alive, ..self }
    }

    /// Whose wait the end of a session ends.
    pub open spec fn woken_by_clearing(self) -> Option<W> {
        self.stream_waker
    }

    /// After a session was closed: nothing is played, and nothing is to follow.
    pub open spec fn cleared(self) -> Self {
        BridgeView { pending_track: None, ..self.idled() }
    }
}

/// Takes down whether there is a session.
pub fn set_spirc_alive<W>(shared: &mut BridgeShared<W>, alive: bool)
    ensures
        final(shared)@ == old(shared)@.with_session(alive),
        old(shared)@.wf() ==> final(shared)@.wf(),
{
    shared.spirc_alive = alive;
}

/// Clears what a closed session was playing, and hands out the waker of a client that
/// waits.
#[must_use]
pub fn clear_session<W>(shared: &mut BridgeShared<W>) -> (wake: Option<W>)
    ensures
        final(shared)@ == old(shared)@.cleared(),
        wake == old(shared)@.woken_by_clearing(),
        old(shared)@.wf() ==> final(shared)@.wf(),
{
    let wake = shared.idle();
    shared.pending_track = None;
    proof {
        assert(shared@ =~= old(shared)@.cleared());
    }
    wake
}

/// The wait after so many failures in a row.
pub open spec fn backoff_after(failures: nat) -> u64
    decreases failures,
{
    if failures == 0 {
        FIRST_BACKOFF_SECS
    } else {
        next_backoff(backoff_after((failures - 1) as nat))
    }
}

/// The waits double from 2 seconds on, up to 60 seconds, and stay there.
pub proof fn law_backoff_doubles(failures: nat)
    ensures
        backoff_after(failures) == (if failures < 5 {
            vstd::arithmetic::power2::pow2(failures + 1) as int
        } else {
            60
        }),
    decreases failures,
{
    vstd::arithmetic::power2::lemma2_to64();
    if failures > 0 {
        law_backoff_doubles((failures - 1) as nat);
    }
}

/// A failure to open a session takes the plan to the next of these waits.
pub proof fn law_failures_back_off(plan: Reconnect, failures: nat)
    requires
        plan.backoff_secs == backoff_after(failures),
    ensures
        plan.after_failure().backoff_secs == backoff_after(failures + 1),
        plan.after_failure().count == plan.count,
{
}

/// After a session of more than 30 seconds the waits begin anew.
pub proof fn law_healthy_session_resets(plan: Reconnect, lasted_nanos: u128)
    requires
        lasted_nanos > 30_000_000_000,
    ensures
        plan.wait_after(lasted_nanos) == backoff_after(0),
        plan.after_session(lasted_nanos).backoff_secs == backoff_after(1),
{
    reveal_with_fuel(backoff_after, 2);
}

/// Every wait is twice the one before it, but a minute at most, unless a session of more
/// than 30 seconds came in between; the sessions that ended are counted.
pub proof fn law_waits(plan: Reconnect, lasted_nanos: u128)
    requires
        plan.wf(),
        plan.count < u64::MAX,
    ensures
        ({
            let short = lasted_nanos <= 30_000_000_000;
            let wait = plan.wait_after(lasted_nanos);
            let next = plan.after_session(lasted_nanos);
            &&& wait == (if short {
                plan.backoff_secs
            } else {
                2
            })
            &&& next.backoff_secs == (if wait < 30 {
                wait * 2
            } else {
                60
            })
            &&& next.count == plan.count + 1
            &&& 2 <= wait <= 60
        }),
        plan.after_failure().backoff_secs == (if plan.backoff_secs < 30 {
            plan.backoff_secs * 2
        } else {
            60
        }),
        plan.after_failure().count == plan.count,
        plan.wait_after_failure() == plan.backoff_secs,
        plan.after_failure().wait_after_failure() >= plan.wait_after_failure(),
        Reconnect::initial().backoff_secs == 2,
        Reconnect::initial().count == 0,
{
}

/// A session that says of itself that it is over is dead at once; an answer starts the
/// count of unanswered requests over, and never means that a session is dead. A session is
/// looked at every 30 seconds, and a request is given 10 seconds.
pub proof fn law_probes(watch: Supervisor)
    ensures
        watch.dead(Probe::Invalid),
        !watch.dead(Probe::Answered),
        watch.fails_after(Probe::Answered) == 0,
        watch.fails_after(Probe::Unanswered) == watch.fails + 1,
        watch.fails_after(Probe::Invalid) == watch.fails,
        Supervisor::initial().fails == 0,
        PROBE_INTERVAL_SECS == 30,
        PROBE_TIMEOUT_SECS == 10,
{
}

/// A bit rate that is offered is had, and 160 in place of any other.
pub proof fn law_bitrates(kbps: u32)
    ensures
        offered_bitrate(kbps) == PlayerBitrate::Bitrate96 <==> kbps == 96,
        offered_bitrate(kbps) == PlayerBitrate::Bitrate320 <==> kbps == 320,
        offered_bitrate(kbps) == PlayerBitrate::Bitrate160 <==> kbps != 96 && kbps != 320,
{
}

/// The watch after it has seen these probes.
pub open spec fn fails_after_all(probes: Seq<Probe>) -> int
    decreases probes.len(),
{
    if probes.len() == 0 {
        0
    } else {
        match probes.last() {
            Probe::Invalid => fails_after_all(probes.drop_last()),
            Probe::Answered => 0,
            Probe::Unanswered => fails_after_all(probes.drop_last()) + 1,
        }
    }
}

/// While no session says of itself that it is over, the watch finds it dead exactly at
/// the third unanswered request in a row.
pub proof fn law_three_failures(watch: Supervisor, seen: Seq<Probe>, probe: Probe)
    requires
        watch.fails == fails_after_all(seen),
        watch.fails < PROBE_FAILURES,
        forall|i: int| 0 <= i < seen.len() ==> seen[i] != Probe::Invalid,
        probe != Probe::Invalid,
    ensures
        watch.fails_after(probe) == fails_after_all(seen.push(probe)),
        watch.dead(probe) <==> {
            &&& probe == Probe::Unanswered
            &&& seen.len() >= 2
            &&& seen[seen.len() - 1] == Probe::Unanswered
            &&& seen[seen.len() - 2] == Probe::Unanswered
        },
{
    assert(seen.push(probe).drop_last() =~= seen);
    reveal_with_fuel(fails_after_all, 4);
    lemma_fails_not_negative(seen);
    if seen.len() >= 1 {
        lemma_fails_not_negative(seen.drop_last());
        if seen.len() >= 2 {
            lemma_fails_not_negative(seen.drop_last().drop_last());
        }
    }
}

proof fn lemma_fails_not_negative(probes: Seq<Probe>)
    ensures
        fails_after_all(probes) >= 0,
    decreases probes.len(),
{
    if probes.len() > 0 {
        lemma_fails_not_negative(probes.drop_last());
    }
}

/// After a session was closed nothing is streamed: every client is answered with
/// silence, and no station that leaves makes Spotify pause.
pub proof fn law_closed_session_is_silent<W>(shared: BridgeView<W>, token: u64, bt_playing: bool)
    ensures
        !shared.cleared().admits(token),
        shared.cleared().stream_view(token).body == crate::http::BodyView::Static(
            Some(shared.silence),
        ),
        crate::events::pause_verdict(shared.cleared(), token, bt_playing)
            == crate::events::PauseVerdict::Cancelled,
{
}

/// Whoever waits when a session is closed is woken, and then nobody waits.
pub proof fn law_nobody_waits_for_a_closed_session<W>(shared: BridgeView<W>)
    ensures
        shared.woken_by_clearing() == shared.stream_waker,
        shared.cleared().stream_waker is None,
{
}

} // verus!
