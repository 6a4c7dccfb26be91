//! What the bot is told at startup: the settings of the GUI, and how to connect.

use crate::bot;
use crate::command;
use crate::command_laws;
use crate::number;
use crate::schedule::Sound;
use crate::text;
use crate::ts3::WhisperScope;
use vstd::prelude::*;
use vstd::string::*;

verus! {

/// How to reach the server, and where sound goes.
#[derive(Debug, Clone)]
pub struct Args {
    pub server: String,
    pub name: String,
    pub channel: Option<String>,
    pub channel_id: Option<u64>,
    pub server_password: Option<String>,
    pub channel_password: Option<String>,
    pub whisper_server_group_id: Option<u64>,
    /// Whisper zeal announcements to this server group instead of the jungle target.
    pub zeal_server_group_id: Option<u64>,
    pub whisper_scope: WhisperScope,
}

/// Settings entered in the GUI.
///
/// Numeric ids are stored as text because they back text fields verbatim; they are read when
/// the connection starts.
#[derive(Debug, Clone)]
pub struct Config {
    pub server: String,
    pub name: String,
    pub server_password: String,
    /// Selects whether `channel_name` or `channel_id` is used.
    pub use_channel_id: bool,
    pub channel_name: String,
    pub channel_id: String,
    pub channel_password: String,
    pub whisper_enabled: bool,
    pub whisper_group_id: String,
    /// Optional separate whisper group for zeal; empty = same as the jungle one.
    pub zeal_group_id: String,
    pub whisper_scope: WhisperScope,
    /// Paths overriding the built-in announcement clips; empty = built-in.
    pub clip_60: String,
    pub clip_40: String,
    pub clip_20: String,
    pub zeal_clip: String,
    /// Start-delay field of the timer panel, as MM:SS.
    pub start_delay: String,
    pub dark_mode: bool,
}

/// Why the settings do not lead to a connection.
#[derive(Debug, Clone, Copy, PartialEq, Eq, Structural)]
pub enum ConnectError {
    ServerRequired,
    ChannelIdNotANumber,
    WhisperGroupRequired,
    WhisperGroupNotANumber,
    ZealGroupNotANumber,
}

/// What [`Args`] say, with text as characters.
#[verifier::ext_equal]
pub struct ArgsView {
    pub server: Seq<char>,
    pub name: Seq<char>,
    pub channel: Option<Seq<char>>,
    pub channel_id: Option<u64>,
    pub server_password: Option<Seq<char>>,
    pub channel_password: Option<Seq<char>>,
    pub whisper_server_group_id: Option<u64>,
    pub zeal_server_group_id: Option<u64>,
    pub whisper_scope: WhisperScope,
}

/// The characters of a text, if there is one.
pub open spec fn chars_in(text: Option<String>) -> Option<Seq<char>> {
    match text {
        Some(text) => Some(text@),
        None => None,
    }
}

impl ArgsView {
    /// What is wrong with the arguments, if anything is.
    pub open spec fn checked(self) -> Result<(), Seq<char>> {
        if self.channel is Some && self.channel_id is Some {
            Err("use either --channel or --channel-id, not both"@)
        } else {
            Ok(())
        }
    }
}

impl View for Args {
    type V = ArgsView;

    open spec fn view(&self) -> ArgsView {
        ArgsView {
            server: self.server@,
            name: self.name@,
            channel: chars_in(self.channel),
            channel_id: self.channel_id,
            server_password: chars_in(self.server_password),
            channel_password: chars_in(self.channel_password),
            whisper_server_group_id: self.whisper_server_group_id,
            zeal_server_group_id: self.zeal_server_group_id,
            whisper_scope: self.whisper_scope,
        }
    }
}

/// The text, or nothing if it is empty.
pub open spec fn filled(text: Seq<char>) -> Option<Seq<char>> {
    if text.len() == 0 {
        None
    } else {
        Some(text)
    }
}

/// The number in a field that may stay empty; `error` if it holds something else.
pub open spec fn id_field(text: Seq<char>, error: ConnectError) -> Result<
    Option<u64>,
    ConnectError,
> {
    match filled(text::trimmed(text)) {
        None => Ok(None),
        Some(field) => match number::number_in(field) {
            Some(id) => Ok(Some(id as u64)),
            None => Err(error),
        },
    }
}

impl Config {
    /// The server group that is whispered to: none unless whispering is switched on, and then
    /// one has to be given.
    pub open spec fn whisper_group(self) -> Result<Option<u64>, ConnectError> {
        if !self.whisper_enabled {
            Ok(None)
        } else {
            match id_field(self.whisper_group_id@, ConnectError::WhisperGroupNotANumber) {
                Ok(None) => Err(ConnectError::WhisperGroupRequired),
                other => other,
            }
        }
    }

    /// The server group of zeal: none unless whispering is switched on and one is given.
    pub open spec fn zeal_group(self) -> Result<Option<u64>, ConnectError> {
        if !self.whisper_enabled {
            Ok(None)
        } else {
            id_field(self.zeal_group_id@, ConnectError::ZealGroupNotANumber)
        }
    }

    /// The id of the channel to join, if it is chosen by id.
    pub open spec fn joined_id(self) -> Result<Option<u64>, ConnectError> {
        if !self.use_channel_id {
            Ok(None)
        } else {
            id_field(self.channel_id@, ConnectError::ChannelIdNotANumber)
        }
    }

    /// How these settings connect. The first thing that is wrong decides the error: server,
    /// channel, whisper group, zeal group.
    pub open spec fn connects(self) -> Result<ArgsView, ConnectError> {
        if text::trimmed(self.server@).len() == 0 {
            Err(ConnectError::ServerRequired)
        } else {
            match (self.joined_id(), self.whisper_group(), self.zeal_group()) {
                (Ok(channel_id), Ok(group), Ok(zeal)) => Ok(
                    ArgsView {
                        server: text::trimmed(self.server@),
                        name: match filled(text::trimmed(self.name@)) {
                            Some(name) => name,
                            None => "rust-mp3-bot"@,
                        },
                        channel: if self.use_channel_id {
                            None
                        } else {
                            filled(text::trimmed(self.channel_name@))
                        },
                        channel_id,
                        server_password: filled(self.server_password@),
                        channel_password: filled(self.channel_password@),
                        whisper_server_group_id: group,
                        zeal_server_group_id: zeal,
                        whisper_scope: self.whisper_scope,
                    },
                ),
                (Err(error), _, _) => Err(error),
                (_, Err(error), _) => Err(error),
                (_, _, Err(error)) => Err(error),
            }
        }
    }

    /// Where the clip of each sound is found.
    pub open spec fn clips_found(self) -> Seq<(Sound, Seq<char>)> {
        seq![
            (Sound::Jungle(60), Config::clip_path(self.clip_60@, "assets/Jungle 60 sec.wav"@)),
            (Sound::Jungle(40), Config::clip_path(self.clip_40@, "assets/Jungle 40 sec.wav"@)),
            (Sound::Jungle(20), Config::clip_path(self.clip_20@, "assets/Jungle 20 sec.wav"@)),
            (Sound::Zeal, Config::clip_path(self.zeal_clip@, "assets/Zeal.wav"@)),
        ]
    }

    /// The form as it is before anything was entered.
    pub open spec fn is_untouched(self) -> bool {
        &&& self.server@.len() == 0
        &&& self.name@ == "rust-mp3-bot"@
        &&& self.server_password@.len() == 0
        &&& !self.use_channel_id
        &&& self.channel_name@.len() == 0
        &&& self.channel_id@.len() == 0
        &&& self.channel_password@.len() == 0
        &&& !self.whisper_enabled
        &&& self.whisper_group_id@.len() == 0
        &&& self.zeal_group_id@.len() == 0
        &&& self.whisper_scope is AllChannels
        &&& self.clip_60@.len() == 0
        &&& self.clip_40@.len() == 0
        &&& self.clip_20@.len() == 0
        &&& self.zeal_clip@.len() == 0
        &&& self.start_delay@ == "0:30"@
        &&& !self.dark_mode
    }

    /// The path of a clip: the one that is set, or the built-in one.
    pub open spec fn clip_path(set: Seq<char>, built_in: Seq<char>) -> Seq<char> {
        match filled(text::trimmed(set)) {
            Some(path) => path,
            None => built_in,
        }
    }
}

impl ConnectError {
    /// What is wrong, in words.
    pub open spec fn text(self) -> Seq<char> {
        match self {
            ConnectError::ServerRequired => "server address is required"@,
            ConnectError::ChannelIdNotANumber => "channel id must be a number"@,
            ConnectError::WhisperGroupRequired =>
                "whisper group id is required when whisper is enabled"@,
            ConnectError::WhisperGroupNotANumber => "whisper group id must be a number"@,
            ConnectError::ZealGroupNotANumber => "zeal group id must be a number"@,
        }
    }

    /// What is wrong, in words.
    pub fn message(&self) -> (r: String)
        ensures
            r@ == self.text(),
    {
        match *self {
            ConnectError::ServerRequired => "server address is required".to_string(),
            ConnectError::ChannelIdNotANumber => "channel id must be a number".to_string(),
            ConnectError::WhisperGroupRequired =>
                "whisper group id is required when whisper is enabled".to_string(),
            ConnectError::WhisperGroupNotANumber => "whisper group id must be a number".to_string(),
            ConnectError::ZealGroupNotANumber => "zeal group id must be a number".to_string(),
        }
    }
}

/// The text, or nothing if it is empty.
fn non_empty(text: &str) -> (r: Option<String>)
    ensures
        chars_in(r) == filled(text@),
{
    if text.is_empty() {
        None
    } else {
        Some(text.to_string())
    }
}

/// Reads the number in a field that may stay empty.
fn read_id(text: &str, error: ConnectError) -> (r: Result<Option<u64>, ConnectError>)
    ensures
        r == id_field(text@, error),
{
    let field: &str = text::trim(text);
    if field.is_empty() {
        Ok(None)
    } else {
        match number::parse_number(field) {
            Some(id) => Ok(Some(id)),
            None => Err(error),
        }
    }
}

/// The path that is set, or the built-in one.
fn path_or(set: &str, built_in: &str) -> (r: String)
    ensures
        r@ == Config::clip_path(set@, built_in@),
{
    let path: &str = text::trim(set);
    if path.is_empty() {
        built_in.to_string()
    } else {
        path.to_string()
    }
}

impl Default for Config {
    /// An empty form.
    fn default() -> (r: Config)
        ensures
            r.server@ == Seq::<char>::empty(),
            r.name@ == "rust-mp3-bot"@,
            r.server_password@ == Seq::<char>::empty(),
            !r.use_channel_id,
            r.channel_name@ == Seq::<char>::empty(),
            r.channel_id@ == Seq::<char>::empty(),
            r.channel_password@ == Seq::<char>::empty(),
            !r.whisper_enabled,
            r.whisper_group_id@ == Seq::<char>::empty(),
            r.zeal_group_id@ == Seq::<char>::empty(),
            r.whisper_scope is AllChannels,
            r.clip_60@ == Seq::<char>::empty(),
            r.clip_40@ == Seq::<char>::empty(),
            r.clip_20@ == Seq::<char>::empty(),
            r.zeal_clip@ == Seq::<char>::empty(),
            r.start_delay@ == "0:30"@,
            !r.dark_mode,
            r.is_untouched(),
    {
        Config {
            server: String::new(),
            name: "rust-mp3-bot".to_string(),
            server_password: String::new(),
            use_channel_id: false,
            channel_name: String::new(),
            channel_id: String::new(),
            channel_password: String::new(),
            whisper_enabled: false,
            whisper_group_id: String::new(),
            zeal_group_id: String::new(),
            whisper_scope: WhisperScope::AllChannels,
            clip_60: String::new(),
            clip_40: String::new(),
            clip_20: String::new(),
            zeal_clip: String::new(),
            start_delay: "0:30".to_string(),
            dark_mode: false,
        }
    }
}

impl Config {
    /// How these settings connect, or what is wrong with them.
    pub fn connection(&self) -> (r: Result<Args, ConnectError>)
        ensures
            match r {
                Ok(args) => self.connects() == Ok::<ArgsView, ConnectError>(args@),
                Err(error) => self.connects() == Err::<ArgsView, ConnectError>(error),
            },
    {
        let server: &str = text::trim(self.server.as_str());
        if server.is_empty() {
            return Err(ConnectError::ServerRequired);
        }
        let name: Option<String> = non_empty(text::trim(self.name.as_str()));
        let name: String = match name {
            Some(name) => name,
            None => "rust-mp3-bot".to_string(),
        };
        let channel_id: Option<u64> = if self.use_channel_id {
            match read_id(self.channel_id.as_str(), ConnectError::ChannelIdNotANumber) {
                Ok(id) => id,
                Err(error) => return Err(error),
            }
        } else {
            None
        };
        let channel: Option<String> = if self.use_channel_id {
            None
        } else {
            non_empty(text::trim(self.channel_name.as_str()))
        };
        let mut group: Option<u64> = None;
        let mut zeal: Option<u64> = None;
        if self.whisper_enabled {
            group =
            match read_id(
                self.whisper_group_id.as_str(),
                ConnectError::WhisperGroupNotANumber,
            ) {
                Ok(Some(id)) => Some(id),
                Ok(None) => return Err(ConnectError::WhisperGroupRequired),
                Err(error) => return Err(error),
            };
            zeal =
            match read_id(self.zeal_group_id.as_str(), ConnectError::ZealGroupNotANumber) {
                Ok(id) => id,
                Err(error) => return Err(error),
            };
        }
        Ok(
            Args {
                server: server.to_string(),
                name,
                channel,
                channel_id,
                server_password: non_empty(self.server_password.as_str()),
                channel_password: non_empty(self.channel_password.as_str()),
                whisper_server_group_id: group,
                zeal_server_group_id: zeal,
                whisper_scope: self.whisper_scope,
            },
        )
    }

    /// Where the clip of each sound is found: the path that is set, or the built-in one.
    pub fn clip_paths(&self) -> (r: Vec<(Sound, String)>)
        ensures
            r@.len() == 4,
            r@[0].0 == Sound::Jungle(60),
            r@[0].1@ == Config::clip_path(self.clip_60@, "assets/Jungle 60 sec.wav"@),
            r@[1].0 == Sound::Jungle(40),
            r@[1].1@ == Config::clip_path(self.clip_40@, "assets/Jungle 40 sec.wav"@),
            r@[2].0 == Sound::Jungle(20),
            r@[2].1@ == Config::clip_path(self.clip_20@, "assets/Jungle 20 sec.wav"@),
            r@[3].0 == Sound::Zeal,
            r@[3].1@ == Config::clip_path(self.zeal_clip@, "assets/Zeal.wav"@),
            r@.map_values(|clip: (Sound, String)| (clip.0, clip.1@)) == self.clips_found(),
    {
        let paths: Vec<(Sound, String)> = bot::for_each_sound(
            path_or(self.clip_60.as_str(), "assets/Jungle 60 sec.wav"),
            path_or(self.clip_40.as_str(), "assets/Jungle 40 sec.wav"),
            path_or(self.clip_20.as_str(), "assets/Jungle 20 sec.wav"),
            path_or(self.zeal_clip.as_str(), "assets/Zeal.wav"),
        );
        assert(paths@.map_values(|clip: (Sound, String)| (clip.0, clip.1@)) =~= self.clips_found());
        paths
    }
}

impl Args {
    /// A channel may be given by its name or by its id, not by both.
    pub fn check(&self) -> (r: Result<(), String>)
        ensures
            r is Ok <==> !(self@.channel is Some && self@.channel_id is Some),
            r matches Err(reply) ==> reply@ == "use either --channel or --channel-id, not both"@,
            command::said(r) == self@.checked(),
    {
        if self.channel.is_some() && self.channel_id.is_some() {
            Err("use either --channel or --channel-id, not both".to_string())
        } else {
            Ok(())
        }
    }
}

/// Settings that connect never name the channel in two ways, and always name a server and the
/// bot.
pub proof fn law_settings_name_one_channel(config: Config)
    ensures
        config.connects() matches Ok(args) ==> {
            &&& !(args.channel is Some && args.channel_id is Some)
            &&& args.server.len() > 0
            &&& args.name.len() > 0
        },
{
    reveal_strlit("rust-mp3-bot");
}

/// Without whispering, the settings never hand over a server group; with it, always one for the
/// jungle warnings.
pub proof fn law_whisper_switch_decides(config: Config)
    ensures
        config.connects() matches Ok(args) ==> {
            &&& args.whisper_server_group_id is Some <==> config.whisper_enabled
            &&& args.zeal_server_group_id is Some ==> config.whisper_enabled
        },
{
}

/// Settings that connect hand over every field that is filled in, and nothing for one that is
/// not. Passwords are taken as they were typed, whichever way the channel is chosen; all other
/// fields without the white space around them. Of the two channel fields, the chosen one counts.
pub proof fn law_connection_hands_over_every_field(config: Config)
    ensures
        config.connects() matches Ok(args) ==> {
            let name = text::trimmed(config.name@);
            let channel = text::trimmed(config.channel_name@);
            let channel_id = text::trimmed(config.channel_id@);
            &&& args.server == text::trimmed(config.server@)
            &&& name.len() > 0 ==> args.name == name
            &&& name.len() == 0 ==> args.name == "rust-mp3-bot"@
            &&& config.server_password@.len() > 0 ==> args.server_password == Some(
                config.server_password@,
            )
            &&& config.server_password@.len() == 0 ==> args.server_password is None
            &&& config.channel_password@.len() > 0 ==> args.channel_password == Some(
                config.channel_password@,
            )
            &&& config.channel_password@.len() == 0 ==> args.channel_password is None
            &&& !config.use_channel_id && channel.len() > 0 ==> args.channel == Some(channel)
            &&& config.use_channel_id || channel.len() == 0 ==> args.channel is None
            &&& config.use_channel_id && channel_id.len() > 0 ==> (args.channel_id matches Some(id)
                && number::number_in(channel_id) == Some(id as nat))
            &&& !config.use_channel_id || channel_id.len() == 0 ==> args.channel_id is None
            &&& args.whisper_scope == config.whisper_scope
        },
{
}

/// Settings that connect hand over the groups of the whisper section just if whispering is
/// switched on: always that of the jungle warnings, and that of zeal if its field is filled in.
pub proof fn law_connection_hands_over_groups(config: Config)
    ensures
        config.connects() matches Ok(args) ==> {
            let group = text::trimmed(config.whisper_group_id@);
            let zeal = text::trimmed(config.zeal_group_id@);
            &&& config.whisper_enabled ==> (args.whisper_server_group_id matches Some(id)
                && number::number_in(group) == Some(id as nat))
            &&& config.whisper_enabled && zeal.len() > 0 ==> (
            args.zeal_server_group_id matches Some(id) && number::number_in(zeal) == Some(
                id as nat,
            ))
            &&& !config.whisper_enabled ==> args.whisper_server_group_id is None
            &&& !config.whisper_enabled || zeal.len() == 0 ==> args.zeal_server_group_id is None
        },
{
}

/// The field holds something that is no number.
pub open spec fn no_number(field: Seq<char>) -> bool {
    text::trimmed(field).len() > 0 && number::number_in(text::trimmed(field)) is None
}

/// Settings connect unless the server is missing, the id of the channel is no number though the
/// channel is chosen by it, or, with whispering switched on, the group is missing or one of the
/// groups is no number. The first of these, in this order, is the error.
pub proof fn law_connection_fails_for_a_reason(config: Config)
    ensures
        ({
            let no_server = text::trimmed(config.server@).len() == 0;
            let bad_channel = config.use_channel_id && no_number(config.channel_id@);
            let no_group = config.whisper_enabled && text::trimmed(config.whisper_group_id@).len()
                == 0;
            let bad_group = config.whisper_enabled && no_number(config.whisper_group_id@);
            let bad_zeal = config.whisper_enabled && no_number(config.zeal_group_id@);
            &&& config.connects() is Ok <==> !no_server && !bad_channel && !no_group && !bad_group
                && !bad_zeal
            &&& config.connects() matches Err(error) ==> error == (if no_server {
                ConnectError::ServerRequired
            } else if bad_channel {
                ConnectError::ChannelIdNotANumber
            } else if no_group {
                ConnectError::WhisperGroupRequired
            } else if bad_group {
                ConnectError::WhisperGroupNotANumber
            } else {
                ConnectError::ZealGroupNotANumber
            })
        }),
{
}

/// Each sound has its clip where its own field says, without the white space around it, and at
/// its own built-in place if the field is blank.
pub proof fn law_blank_path_means_built_in(config: Config)
    ensures
        ({
            let found = config.clips_found();
            let c60 = text::trimmed(config.clip_60@);
            let c40 = text::trimmed(config.clip_40@);
            let c20 = text::trimmed(config.clip_20@);
            let zeal = text::trimmed(config.zeal_clip@);
            &&& found.len() == 4
            &&& found[0].0 == Sound::Jungle(60) && found[1].0 == Sound::Jungle(40) && found[2].0
                == Sound::Jungle(20) && found[3].0 == Sound::Zeal
            &&& c60.len() > 0 ==> found[0].1 == c60
            &&& c60.len() == 0 ==> found[0].1 == "assets/Jungle 60 sec.wav"@
            &&& c40.len() > 0 ==> found[1].1 == c40
            &&& c40.len() == 0 ==> found[1].1 == "assets/Jungle 40 sec.wav"@
            &&& c20.len() > 0 ==> found[2].1 == c20
            &&& c20.len() == 0 ==> found[2].1 == "assets/Jungle 20 sec.wav"@
            &&& zeal.len() > 0 ==> found[3].1 == zeal
            &&& zeal.len() == 0 ==> found[3].1 == "assets/Zeal.wav"@
        }),
{
}

/// A form in which nothing but the server was entered connects, if that is not blank: under the
/// default name, to the default channel, without passwords and without whispering.
pub proof fn law_server_is_all_that_is_needed(untouched: Config, server: String)
    requires
        untouched.is_untouched(),
    ensures
        ({
            let form = Config { server, ..untouched };
            &&& untouched.connects() is Err
            &&& text::trimmed(server@).len() > 0 ==> form.connects() == Ok::<
                ArgsView,
                ConnectError,
            >(
                ArgsView {
                    server: text::trimmed(server@),
                    name: "rust-mp3-bot"@,
                    channel: None,
                    channel_id: None,
                    server_password: None,
                    channel_password: None,
                    whisper_server_group_id: None,
                    zeal_server_group_id: None,
                    whisper_scope: WhisperScope::AllChannels,
                },
            )
            &&& command::span_in(form.start_delay@) matches Ok(delay) && delay.nanos
                == 30_000_000_000
        }),
{
    let none = Seq::<char>::empty();
    let name = "rust-mp3-bot"@;
    reveal_strlit("rust-mp3-bot");
    text::law_trimming_leaves_the_text(none, none, none);
    assert(none + none + none =~= none);
    assert(untouched.server@ =~= none);
    assert(untouched.channel_name@ =~= none);
    text::law_trimming_leaves_the_text(none, name, none);
    assert(none + name + none =~= name);
    reveal_strlit("0:30");
    assert("0:30"@ =~= seq!['0'] + seq![':'] + seq!['3', '0']);
    number::lemma_decimal_reads_back(0);
    number::lemma_two_digits_read_back(30);
    assert(number::decimal(0) =~= seq!['0']);
    assert(number::two_digits(30) =~= seq!['3', '0']);
    command_laws::law_span_is_minutes_and_seconds(seq!['0'], seq!['3', '0']);
}

/// What is shown of the arguments is what they hold, field by field.
pub proof fn law_args_show_what_they_hold(args: Args)
    ensures
        args@.server == args.server@,
        args@.name == args.name@,
        args.channel matches Some(text) ==> args@.channel == Some(text@),
        args@.channel is None <==> args.channel is None,
        args@.channel_id == args.channel_id,
        args.server_password matches Some(text) ==> args@.server_password == Some(text@),
        args@.server_password is None <==> args.server_password is None,
        args.channel_password matches Some(text) ==> args@.channel_password == Some(text@),
        args@.channel_password is None <==> args.channel_password is None,
        args@.whisper_server_group_id == args.whisper_server_group_id,
        args@.zeal_server_group_id == args.zeal_server_group_id,
        args@.whisper_scope == args.whisper_scope,
{
}

/// Arguments are fine just if they do not name the channel in two ways; those that the settings
/// of a form give always are.
pub proof fn law_channel_is_named_once(args: ArgsView, config: Config)
    ensures
        args.checked() is Ok <==> args.channel is None || args.channel_id is None,
        args.checked() matches Err(reply) ==> reply
            == "use either --channel or --channel-id, not both"@,
        config.connects() matches Ok(given) ==> given.checked() is Ok,
{
}

} // verus!
