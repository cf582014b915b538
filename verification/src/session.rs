//! The client's session state and the decisions taken on it: whether a
//! voice session may start, what is sent to the server when one starts
//! and ends, when the audio streams are restarted after a device change,
//! and when the microphone test stops.
//!
//! Each command and each periodic check of the client is an event; `step`
//! takes the state and an event to the next state and the action the
//! caller performs (binding a socket, sending a message, restarting or
//! stopping streams).
use vstd::prelude::*;

verus! {

/// A message of the client's UDP protocol.
pub enum ClientMessage {
    /// Announces the user at the start of a session.
    Username(String),
    /// Keeps the session alive; sent about once a second.
    Heartbeat,
    /// Ends the session.
    Disconnect,
}

/// The text of a protocol message.
pub open spec fn spec_message_text(m: MessageModel) -> Seq<char> {
    match m {
        MessageModel::Username(name) => "username:"@ + name,
        MessageModel::Heartbeat => "hb"@,
        MessageModel::Disconnect => "disconnect"@,
    }
}

/// A protocol message with its payload as a character sequence.
pub enum MessageModel {
    Username(Seq<char>),
    Heartbeat,
    Disconnect,
}

impl View for ClientMessage {
    type V = MessageModel;

    open spec fn view(&self) -> MessageModel {
        match self {
            ClientMessage::Username(name) => MessageModel::Username(name@),
            ClientMessage::Heartbeat => MessageModel::Heartbeat,
            ClientMessage::Disconnect => MessageModel::Disconnect,
        }
    }
}

impl ClientMessage {
    /// The text sent on the wire for this message.
    pub fn text(&self) -> (t: String)
        ensures
            t@ == spec_message_text(self@),
    {
        match self {
            ClientMessage::Username(name) => {
                let mut t = "username:".to_owned();
                t.append(name.as_str());
                t
            },
            ClientMessage::Heartbeat => "hb".to_owned(),
            ClientMessage::Disconnect => "disconnect".to_owned(),
        }
    }
}

/// The client's session state.
pub struct DiscordDriver {
    /// Whether the client counts itself connected; a session end clears it.
    pub is_connected: bool,
    /// Whether a voice session is running (set when one starts, cleared
    /// when the user disconnects).
    pub can_send_audio: bool,
    /// The `host:port` of the voice server.
    pub server_ip: String,
    /// The name announced to the server.
    pub user_name: String,
    /// Whether the microphone test is running; while it runs no audio is
    /// sent, so a voice session cannot be started.
    pub is_audio_debug: bool,
    /// Whether the audio devices changed since the streams were started.
    pub audio_settings_changed: bool,
}

/// The session state with its strings as character sequences.
pub struct DriverModel {
    pub is_connected: bool,
    pub can_send_audio: bool,
    pub server_ip: Seq<char>,
    pub user_name: Seq<char>,
    pub is_audio_debug: bool,
    pub audio_settings_changed: bool,
}

impl View for DiscordDriver {
    type V = DriverModel;

    open spec fn view(&self) -> DriverModel {
        DriverModel {
            is_connected: self.is_connected,
            can_send_audio: self.can_send_audio,
            server_ip: self.server_ip@,
            user_name: self.user_name@,
            is_audio_debug: self.is_audio_debug,
            audio_settings_changed: self.audio_settings_changed,
        }
    }
}

/// What happened to the client.
pub enum DriverEvent {
    /// The user asked to join the voice server.
    ConnectRequested,
    /// The UDP socket of a new session is bound.
    SocketBound,
    /// The user asked to leave the voice server.
    DisconnectRequested,
    /// The user set the server address.
    ServerIpSet(String),
    /// The user set the name announced to the server.
    UsernameSet(String),
    /// The user picked other audio devices.
    AudioSettingsChanged,
    /// The user started the microphone test.
    AudioTestStarted,
    /// The user stopped the microphone test.
    AudioTestStopped,
    /// The periodic check of a running session.
    SessionCheck,
    /// The periodic check for changed audio devices.
    SettingsCheck,
    /// The periodic check of a running microphone test.
    AudioTestCheck,
}

/// An event with its strings as character sequences.
pub enum EventModel {
    ConnectRequested,
    SocketBound,
    DisconnectRequested,
    ServerIpSet(Seq<char>),
    UsernameSet(Seq<char>),
    AudioSettingsChanged,
    AudioTestStarted,
    AudioTestStopped,
    SessionCheck,
    SettingsCheck,
    AudioTestCheck,
}

impl View for DriverEvent {
    type V = EventModel;

    open spec fn view(&self) -> EventModel {
        match self {
            DriverEvent::ConnectRequested => EventModel::ConnectRequested,
            DriverEvent::SocketBound => EventModel::SocketBound,
            DriverEvent::DisconnectRequested => EventModel::DisconnectRequested,
            DriverEvent::ServerIpSet(ip) => EventModel::ServerIpSet(ip@),
            DriverEvent::UsernameSet(name) => EventModel::UsernameSet(name@),
            DriverEvent::AudioSettingsChanged => EventModel::AudioSettingsChanged,
            DriverEvent::AudioTestStarted => EventModel::AudioTestStarted,
            DriverEvent::AudioTestStopped => EventModel::AudioTestStopped,
            DriverEvent::SessionCheck => EventModel::SessionCheck,
            DriverEvent::SettingsCheck => EventModel::SettingsCheck,
            DriverEvent::AudioTestCheck => EventModel::AudioTestCheck,
        }
    }
}

/// What the caller does after an event.
pub enum DriverAction {
    /// Nothing to do.
    Nothing,
    /// A session is already running; the request is refused.
    RefuseAlreadySending,
    /// The microphone test is running, during which no audio is sent; the
    /// request is refused.
    RefuseAudioTestRunning,
    /// Bind a UDP socket for a new session.
    BindSocket,
    /// Send `message` to `server_ip`, then start the audio streams and the
    /// session's periodic tasks.
    StartSession { message: ClientMessage, server_ip: String },
    /// Stop the audio streams and send `message` to the server the
    /// session was started with.
    EndSession { message: ClientMessage },
    /// Stop and start the audio streams again on the chosen devices.
    RestartStreams,
    /// Stop the microphone test's streams.
    StopAudioTest,
}

/// An action with its strings as character sequences.
pub enum ActionModel {
    Nothing,
    RefuseAlreadySending,
    RefuseAudioTestRunning,
    BindSocket,
    StartSession { message: MessageModel, server_ip: Seq<char> },
    EndSession { message: MessageModel },
    RestartStreams,
    StopAudioTest,
}

impl View for DriverAction {
    type V = ActionModel;

    open spec fn view(&self) -> ActionModel {
        match self {
            DriverAction::Nothing => ActionModel::Nothing,
            DriverAction::RefuseAlreadySending => ActionModel::RefuseAlreadySending,
            DriverAction::RefuseAudioTestRunning => ActionModel::RefuseAudioTestRunning,
            DriverAction::BindSocket => ActionModel::BindSocket,
            DriverAction::StartSession { message, server_ip } => ActionModel::StartSession {
                message: message@,
                server_ip: server_ip@,
            },
            DriverAction::EndSession { message } => ActionModel::EndSession { message: message@ },
            DriverAction::RestartStreams => ActionModel::RestartStreams,
            DriverAction::StopAudioTest => ActionModel::StopAudioTest,
        }
    }
}

/// The next state and the action for an event.
pub open spec fn spec_step(s: DriverModel, e: EventModel) -> (DriverModel, ActionModel) {
    match e {
        EventModel::ConnectRequested => if s.can_send_audio {
            (s, ActionModel::RefuseAlreadySending)
        } else if s.is_audio_debug {
            (s, ActionModel::RefuseAudioTestRunning)
        } else {
            (s, ActionModel::BindSocket)
        },
        EventModel::SocketBound => (
            DriverModel { can_send_audio: true, ..s },
            ActionModel::StartSession {
                message: MessageModel::Username(s.user_name),
                server_ip: s.server_ip,
            },
        ),
        EventModel::DisconnectRequested => (
            DriverModel { can_send_audio: false, ..s },
            ActionModel::Nothing,
        ),
        EventModel::ServerIpSet(ip) => (DriverModel { server_ip: ip, ..s }, ActionModel::Nothing),
        EventModel::UsernameSet(name) => (
            DriverModel { user_name: name, ..s },
            ActionModel::Nothing,
        ),
        EventModel::AudioSettingsChanged => (
            DriverModel { audio_settings_changed: true, ..s },
            ActionModel::Nothing,
        ),
        EventModel::AudioTestStarted => (
            DriverModel { is_audio_debug: true, ..s },
            ActionModel::Nothing,
        ),
        EventModel::AudioTestStopped => (
            DriverModel { is_audio_debug: false, ..s },
            ActionModel::Nothing,
        ),
        EventModel::SessionCheck => if !s.can_send_audio {
            (
                DriverModel { is_connected: false, ..s },
                ActionModel::EndSession { message: MessageModel::Disconnect },
            )
        } else {
            (s, ActionModel::Nothing)
        },
        EventModel::SettingsCheck => if s.audio_settings_changed {
            (DriverModel { audio_settings_changed: false, ..s }, ActionModel::RestartStreams)
        } else {
            (s, ActionModel::Nothing)
        },
        EventModel::AudioTestCheck => if !s.is_audio_debug {
            (s, ActionModel::StopAudioTest)
        } else {
            (s, ActionModel::Nothing)
        },
    }
}

/// The state the client starts in.
pub open spec fn spec_initial_driver() -> DriverModel {
    DriverModel {
        is_connected: false,
        can_send_audio: false,
        server_ip: "127.0.0.1:3000"@,
        user_name: "Username Not Set"@,
        is_audio_debug: false,
        audio_settings_changed: false,
    }
}

impl DiscordDriver {
    /// The state the client starts in: no session, no test, the local
    /// voice server and a placeholder name.
    pub fn new() -> (d: Self)
        ensures
            d@ == spec_initial_driver(),
    {
        DiscordDriver {
            is_connected: false,
            can_send_audio: false,
            server_ip: "127.0.0.1:3000".to_owned(),
            user_name: "Username Not Set".to_owned(),
            is_audio_debug: false,
            audio_settings_changed: false,
        }
    }

    /// Takes the state to the next one for `event` and returns the action
    /// the caller performs.
    pub fn step(&mut self, event: DriverEvent) -> (action: DriverAction)
        ensures
            (final(self)@, action@) == spec_step(old(self)@, event@),
            old(self).is_audio_debug && event is ConnectRequested ==> {
                &&& !(action is BindSocket)
                &&& final(self)@ == old(self)@
            },
    {
        match event {
            DriverEvent::ConnectRequested => {
                if self.can_send_audio {
                    DriverAction::RefuseAlreadySending
                } else if self.is_audio_debug {
                    DriverAction::RefuseAudioTestRunning
                } else {
                    DriverAction::BindSocket
                }
            },
            DriverEvent::SocketBound => {
                self.can_send_audio = true;
                DriverAction::StartSession {
                    message: ClientMessage::Username(self.user_name.clone()),
                    server_ip: self.server_ip.clone(),
                }
            },
            DriverEvent::DisconnectRequested => {
                self.can_send_audio = false;
                DriverAction::Nothing
            },
            DriverEvent::ServerIpSet(ip) => {
                self.server_ip = ip;
                DriverAction::Nothing
            },
            DriverEvent::UsernameSet(name) => {
                self.user_name = name;
                DriverAction::Nothing
            },
            DriverEvent::AudioSettingsChanged => {
                self.audio_settings_changed = true;
                DriverAction::Nothing
            },
            DriverEvent::AudioTestStarted => {
                self.is_audio_debug = true;
                DriverAction::Nothing
            },
            DriverEvent::AudioTestStopped => {
                self.is_audio_debug = false;
                DriverAction::Nothing
            },
            DriverEvent::SessionCheck => {
                if !self.can_send_audio {
                    self.is_connected = false;
                    DriverAction::EndSession { message: ClientMessage::Disconnect }
                } else {
                    DriverAction::Nothing
                }
            },
            DriverEvent::SettingsCheck => {
                if self.audio_settings_changed {
                    self.audio_settings_changed = false;
                    DriverAction::RestartStreams
                } else {
                    DriverAction::Nothing
                }
            },
            DriverEvent::AudioTestCheck => {
                if !self.is_audio_debug {
                    DriverAction::StopAudioTest
                } else {
                    DriverAction::Nothing
                }
            },
        }
    }
}

impl Default for DiscordDriver {
    /// No session, no test, and empty server address and name.
    fn default() -> (d: Self)
        ensures
            d@ == (DriverModel {
                is_connected: false,
                can_send_audio: false,
                server_ip: Seq::<char>::empty(),
                user_name: Seq::<char>::empty(),
                is_audio_debug: false,
                audio_settings_changed: false,
            }),
    {
        DiscordDriver {
            is_connected: false,
            can_send_audio: false,
            server_ip: String::new(),
            user_name: String::new(),
            is_audio_debug: false,
            audio_settings_changed: false,
        }
    }
}

/// A session cannot be started while one is running: the request is
/// refused and the state stays as it was.
pub proof fn lemma_connect_refused_while_sending(s: DriverModel)
    requires
        s.can_send_audio,
    ensures
        spec_step(s, EventModel::ConnectRequested) == (s, ActionModel::RefuseAlreadySending),
{
}

/// No audio is sent while the microphone test runs: a request to connect
/// is refused and leaves the state as it was, so no socket is bound and no
/// session (with its audio streams) is started.
pub proof fn lemma_no_session_during_audio_test(s: DriverModel)
    requires
        s.is_audio_debug,
    ensures
        spec_step(s, EventModel::ConnectRequested).0 == s,
        spec_step(s, EventModel::ConnectRequested).1 != ActionModel::BindSocket,
        !s.can_send_audio ==> spec_step(s, EventModel::ConnectRequested).1
            == ActionModel::RefuseAudioTestRunning,
{
}

/// The wire texts: `username:` followed by the name, `hb`, and
/// `disconnect`, character by character.
pub proof fn lemma_message_texts(name: Seq<char>)
    ensures
        spec_message_text(MessageModel::Username(name)) == seq!['u', 's', 'e', 'r', 'n', 'a', 'm', 'e', ':'] + name,
        spec_message_text(MessageModel::Heartbeat) == seq!['h', 'b'],
        spec_message_text(MessageModel::Disconnect) == seq!['d', 'i', 's', 'c', 'o', 'n', 'n', 'e', 'c', 't'],
{
    reveal_strlit("username:");
    reveal_strlit("hb");
    reveal_strlit("disconnect");
    assert(seq!['u', 's', 'e', 'r', 'n', 'a', 'm', 'e', ':'] =~= "username:"@);
    assert(seq!['h', 'b'] =~= "hb"@);
    assert(seq!['d', 'i', 's', 'c', 'o', 'n', 'n', 'e', 'c', 't'] =~= "disconnect"@);
}

/// With no session and no microphone test running, a request to connect
/// binds a socket and leaves the state as it was, whatever the pending
/// device change, connection flag, server address and name are.
pub proof fn lemma_connect_binds_when_idle(s: DriverModel)
    requires
        !s.can_send_audio,
        !s.is_audio_debug,
    ensures
        spec_step(s, EventModel::ConnectRequested).0 == s,
        spec_step(s, EventModel::ConnectRequested).1 == ActionModel::BindSocket,
{
}

/// What each user command does to the state, field by field: it sets its
/// own field and leaves every other field as it was, and asks for nothing.
pub proof fn lemma_commands_touch_only_their_field(s: DriverModel, ip: Seq<char>, name: Seq<char>)
    ensures
        ({
            let (t, a) = spec_step(s, EventModel::DisconnectRequested);
            &&& a == ActionModel::Nothing
            &&& !t.can_send_audio
            &&& t.is_connected == s.is_connected && t.server_ip == s.server_ip
            &&& t.user_name == s.user_name && t.is_audio_debug == s.is_audio_debug
            &&& t.audio_settings_changed == s.audio_settings_changed
        }),
        ({
            let (t, a) = spec_step(s, EventModel::AudioSettingsChanged);
            &&& a == ActionModel::Nothing
            &&& t.audio_settings_changed
            &&& t.is_connected == s.is_connected && t.can_send_audio == s.can_send_audio
            &&& t.server_ip == s.server_ip && t.user_name == s.user_name
            &&& t.is_audio_debug == s.is_audio_debug
        }),
        ({
            let (t, a) = spec_step(s, EventModel::AudioTestStarted);
            &&& a == ActionModel::Nothing
            &&& t.is_audio_debug
            &&& t.is_connected == s.is_connected && t.can_send_audio == s.can_send_audio
            &&& t.server_ip == s.server_ip && t.user_name == s.user_name
            &&& t.audio_settings_changed == s.audio_settings_changed
        }),
        ({
            let (t, a) = spec_step(s, EventModel::AudioTestStopped);
            &&& a == ActionModel::Nothing
            &&& !t.is_audio_debug
            &&& t.is_connected == s.is_connected && t.can_send_audio == s.can_send_audio
            &&& t.server_ip == s.server_ip && t.user_name == s.user_name
            &&& t.audio_settings_changed == s.audio_settings_changed
        }),
        ({
            let (t, a) = spec_step(s, EventModel::ServerIpSet(ip));
            &&& a == ActionModel::Nothing
            &&& t.server_ip == ip
            &&& t.is_connected == s.is_connected && t.can_send_audio == s.can_send_audio
            &&& t.user_name == s.user_name && t.is_audio_debug == s.is_audio_debug
            &&& t.audio_settings_changed == s.audio_settings_changed
        }),
        ({
            let (t, a) = spec_step(s, EventModel::UsernameSet(name));
            &&& a == ActionModel::Nothing
            &&& t.user_name == name
            &&& t.is_connected == s.is_connected && t.can_send_audio == s.can_send_audio
            &&& t.server_ip == s.server_ip && t.is_audio_debug == s.is_audio_debug
            &&& t.audio_settings_changed == s.audio_settings_changed
        }),
{
}

/// Starting a session sets only the session flag; ending one clears only
/// the connection flag; the periodic checks change nothing when they
/// have nothing to do.
pub proof fn lemma_session_transitions(s: DriverModel)
    ensures
        ({
            let t = spec_step(s, EventModel::SocketBound).0;
            &&& t.can_send_audio
            &&& t.is_connected == s.is_connected && t.server_ip == s.server_ip
            &&& t.user_name == s.user_name && t.is_audio_debug == s.is_audio_debug
            &&& t.audio_settings_changed == s.audio_settings_changed
        }),
        !s.can_send_audio ==> ({
            let t = spec_step(s, EventModel::SessionCheck).0;
            &&& !t.is_connected && !t.can_send_audio
            &&& t.server_ip == s.server_ip && t.user_name == s.user_name
            &&& t.is_audio_debug == s.is_audio_debug
            &&& t.audio_settings_changed == s.audio_settings_changed
        }),
        !s.audio_settings_changed ==> spec_step(s, EventModel::SettingsCheck) == (
            s,
            ActionModel::Nothing,
        ),
        s.audio_settings_changed ==> ({
            let (t, a) = spec_step(s, EventModel::SettingsCheck);
            &&& a == ActionModel::RestartStreams
            &&& !t.audio_settings_changed
            &&& t.is_connected == s.is_connected && t.can_send_audio == s.can_send_audio
            &&& t.server_ip == s.server_ip && t.user_name == s.user_name
            &&& t.is_audio_debug == s.is_audio_debug
        }),
        spec_step(s, EventModel::AudioTestCheck).0 == s,
{
}

/// A session that has started announces the user to the configured server,
/// and from then on a further request to connect is refused.
pub proof fn lemma_started_session_is_exclusive(s: DriverModel)
    ensures
        spec_step(s, EventModel::SocketBound).1 == (ActionModel::StartSession {
            message: MessageModel::Username(s.user_name),
            server_ip: s.server_ip,
        }),
        spec_step(spec_step(s, EventModel::SocketBound).0, EventModel::ConnectRequested).1
            == ActionModel::RefuseAlreadySending,
{
}

/// While a session runs, its periodic check changes nothing; after the
/// user disconnects, the next check ends it (the client counts itself
/// disconnected, stops its streams and sends `disconnect`), and a new
/// session may be started unless the microphone test is running.
pub proof fn lemma_disconnect_ends_session(s: DriverModel)
    ensures
        s.can_send_audio ==> spec_step(s, EventModel::SessionCheck) == (s, ActionModel::Nothing),
        ({
            let stopped = spec_step(s, EventModel::DisconnectRequested).0;
            let (ended, action) = spec_step(stopped, EventModel::SessionCheck);
            &&& !ended.is_connected
            &&& action == (ActionModel::EndSession { message: MessageModel::Disconnect })
            &&& !s.is_audio_debug ==> spec_step(ended, EventModel::ConnectRequested).1
                == ActionModel::BindSocket
        }),
{
}

/// A change of audio devices restarts the streams at the next check, and
/// only once.
pub proof fn lemma_device_change_applied_once(s: DriverModel)
    ensures
        ({
            let changed = spec_step(s, EventModel::AudioSettingsChanged).0;
            let (applied, action) = spec_step(changed, EventModel::SettingsCheck);
            &&& action == ActionModel::RestartStreams
            &&& spec_step(applied, EventModel::SettingsCheck) == (applied, ActionModel::Nothing)
        }),
{
}

/// The microphone test keeps running while it is on and is stopped at the
/// first check after the user stops it.
pub proof fn lemma_audio_test_stops_when_asked(s: DriverModel)
    ensures
        spec_step(spec_step(s, EventModel::AudioTestStarted).0, EventModel::AudioTestCheck).1
            == ActionModel::Nothing,
        spec_step(spec_step(s, EventModel::AudioTestStopped).0, EventModel::AudioTestCheck).1
            == ActionModel::StopAudioTest,
{
}

/// Setting the server address or the user name changes that and nothing
/// else, and the next session uses the new value.
pub proof fn lemma_settings_take_effect(s: DriverModel, ip: Seq<char>, name: Seq<char>)
    ensures
        spec_step(s, EventModel::ServerIpSet(ip)) == (DriverModel { server_ip: ip, ..s }, ActionModel::Nothing),
        spec_step(s, EventModel::UsernameSet(name)) == (DriverModel { user_name: name, ..s }, ActionModel::Nothing),
        spec_step(
            spec_step(spec_step(s, EventModel::ServerIpSet(ip)).0, EventModel::UsernameSet(name)).0,
            EventModel::SocketBound,
        ).1 == (ActionModel::StartSession {
            message: MessageModel::Username(name),
            server_ip: ip,
        }),
{
}

} // verus!
