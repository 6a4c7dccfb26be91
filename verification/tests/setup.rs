use wwmts3gw::audio::{
    after_decode, after_read, resampled_len, split_frames, DecodeStep, Decoding, PacketRead,
    ReadStep, SAMPLES_PER_FRAME, SAMPLE_RATE,
};
use wwmts3gw::bot::BotEvent;
use wwmts3gw::clock::{Duration, Moment};
use wwmts3gw::command::{Command, TimerCommand};
use wwmts3gw::config::{Config, ConnectError};
use wwmts3gw::gui::{parse_start, BotStatus};
use wwmts3gw::identity::{explain_identity, parse_identity, stored_or_new};
use wwmts3gw::schedule::Sound;
use wwmts3gw::timer::TimerState;
use wwmts3gw::ts3::WhisperScope;

const PRIVATE_KEY: &str =
    "MG8DAgeAAgEgAiEA6rtKxDn/o/Bo50rNtAE5Ph3h2RKLHQ0gbFkvm2yA79kCIQCrfzAZts/\
     vHP+3MOetKLjNnpZXt4c6U3UB4gWLKR4H9AIgYTyJofmztcTBjq3KZcDdxu+G4RPVwE5vg8VaN2jbQao=";
const UID: &str = "test/9PZ9vww/Bpf5vJxtJhpz80=";

fn config() -> Config {
    Config { server: " ts.example.com ".to_string(), ..Config::default() }
}

#[test]
fn the_default_form_is_empty() {
    let config = Config::default();
    assert_eq!(config.name, "rust-mp3-bot");
    assert_eq!(config.start_delay, "0:30");
    assert_eq!(config.whisper_scope, WhisperScope::AllChannels);
    assert_eq!(config.server, "");
    assert_eq!(config.connection().unwrap_err(), ConnectError::ServerRequired);
}

#[test]
fn settings_become_a_connection() {
    let args = config().connection().unwrap();
    assert_eq!(args.server, "ts.example.com");
    assert_eq!(args.name, "rust-mp3-bot");
    assert_eq!(args.channel, None);
    assert_eq!(args.channel_id, None);
    assert_eq!(args.server_password, None);
    assert_eq!(args.whisper_server_group_id, None);

    let args = Config {
        name: " JungleBot ".to_string(),
        channel_name: " Lobby ".to_string(),
        channel_id: "nonsense".to_string(),
        server_password: " a ".to_string(),
        channel_password: "b".to_string(),
        whisper_enabled: true,
        whisper_group_id: " 12 ".to_string(),
        zeal_group_id: "13".to_string(),
        whisper_scope: WhisperScope::CurrentChannel,
        ..config()
    }
    .connection()
    .unwrap();
    assert_eq!(args.name, "JungleBot");
    assert_eq!(args.channel.as_deref(), Some("Lobby"));
    assert_eq!(args.channel_id, None);
    assert_eq!(args.server_password.as_deref(), Some(" a "));
    assert_eq!(args.channel_password.as_deref(), Some("b"));
    assert_eq!(args.whisper_server_group_id, Some(12));
    assert_eq!(args.zeal_server_group_id, Some(13));
    assert_eq!(args.whisper_scope, WhisperScope::CurrentChannel);
    assert!(args.check().is_ok());
}

#[test]
fn an_empty_name_gets_the_default() {
    let args = Config { name: "  ".to_string(), ..config() }.connection().unwrap();
    assert_eq!(args.name, "rust-mp3-bot");
}

#[test]
fn a_channel_is_chosen_by_name_or_by_id() {
    let by_id = Config {
        use_channel_id: true,
        channel_name: "Lobby".to_string(),
        channel_id: " 5 ".to_string(),
        ..config()
    };
    let args = by_id.connection().unwrap();
    assert_eq!((args.channel, args.channel_id), (None, Some(5)));
    let nowhere = Config { channel_id: " ".to_string(), ..by_id };
    assert_eq!(nowhere.connection().unwrap().channel_id, None);

    let mut args = config().connection().unwrap();
    args.channel = Some("Lobby".to_string());
    args.channel_id = Some(5);
    assert_eq!(
        args.check(),
        Err("use either --channel or --channel-id, not both".to_string())
    );
}

#[test]
fn bad_settings_are_refused() {
    let channel = Config {
        use_channel_id: true,
        channel_id: "x".to_string(),
        ..config()
    };
    let error = channel.connection().unwrap_err();
    assert_eq!(error, ConnectError::ChannelIdNotANumber);
    assert_eq!(error.message(), "channel id must be a number");

    let whisper = Config { whisper_enabled: true, ..config() };
    let error = whisper.connection().unwrap_err();
    assert_eq!(error, ConnectError::WhisperGroupRequired);
    assert_eq!(error.message(), "whisper group id is required when whisper is enabled");

    let whisper = Config { whisper_group_id: "-1".to_string(), ..whisper };
    let error = whisper.connection().unwrap_err();
    assert_eq!(error, ConnectError::WhisperGroupNotANumber);
    assert_eq!(error.message(), "whisper group id must be a number");

    let zeal = Config {
        whisper_group_id: "1".to_string(),
        zeal_group_id: "18446744073709551616".to_string(),
        ..whisper
    };
    let error = zeal.connection().unwrap_err();
    assert_eq!(error, ConnectError::ZealGroupNotANumber);
    assert_eq!(error.message(), "zeal group id must be a number");
    assert_eq!(ConnectError::ServerRequired.message(), "server address is required");

    let off = Config { whisper_enabled: false, ..zeal };
    let args = off.connection().unwrap();
    assert_eq!((args.whisper_server_group_id, args.zeal_server_group_id), (None, None));
}

#[test]
fn clips_are_overridden_one_by_one() {
    let config = Config { clip_40: " /tmp/forty.wav ".to_string(), ..config() };
    assert_eq!(
        config.clip_paths(),
        vec![
            (Sound::Jungle(60), "assets/Jungle 60 sec.wav".to_string()),
            (Sound::Jungle(40), "/tmp/forty.wav".to_string()),
            (Sound::Jungle(20), "assets/Jungle 20 sec.wav".to_string()),
            (Sound::Zeal, "assets/Zeal.wav".to_string()),
        ]
    );
}

#[test]
fn fields_make_a_start_command() {
    let start = |elapsed: u64, delay: u64| {
        Ok(Command::Timer(TimerCommand::Start {
            elapsed: Duration::from_secs(elapsed),
            delay: Duration::from_secs(delay),
        }))
    };
    assert_eq!(parse_start("30:00", "0:30"), start(0, 30));
    assert_eq!(parse_start(" 25:00 ", "  "), start(300, 0));
    assert_eq!(parse_start("", ""), start(0, 0));
    assert_eq!(
        parse_start("x", "y"),
        Err("'x' is not a valid time; expected MM:SS".to_string())
    );
    assert_eq!(
        parse_start("", "y"),
        Err("'y' is not a valid time; expected MM:SS".to_string())
    );
    assert_eq!(parse_start("31:00", ""), Err("game time cannot exceed 30:00".to_string()));
}

#[test]
fn events_reach_the_gui() {
    let mut status = BotStatus::starting(true);
    assert!(!status.connected);
    assert!(!status.is_ticking());
    assert_eq!(status.connection_label(" host "), "● connecting …");
    let running = TimerState::Running { game_zero: Moment::at(5, 0) };
    let ended = status.drain_events(vec![
        BotEvent::Connected,
        BotEvent::Timer(TimerState::Stopped),
        BotEvent::Whispering(false),
        BotEvent::Timer(running),
    ]);
    assert_eq!(ended, None);
    assert_eq!(status, BotStatus { connected: true, timer: running, whispering: false });
    assert!(status.is_ticking());
    assert_eq!(status.connection_label(" host "), "● connected to host");
    assert_eq!(status.choose_output(false), None);
    assert_eq!(status.choose_output(true), Some(Command::Group));
    status.drain_events(vec![BotEvent::Whispering(true)]);
    assert_eq!(status.choose_output(false), Some(Command::Channel));

    let ended = status.drain_events(vec![
        BotEvent::Stopped(Some("gone".to_string())),
        BotEvent::Whispering(false),
    ]);
    assert_eq!(ended, Some(Some("gone".to_string())));
    assert!(!status.whispering);
    assert_eq!(status.drain_events(vec![BotEvent::Stopped(None)]), Some(None));
}

#[test]
fn samples_are_cut_into_20ms_frames() {
    assert_eq!(SAMPLES_PER_FRAME, SAMPLE_RATE / 50);
    // Half a second of silence at 48 kHz = exactly 25 frames of 960 samples.
    let frames = split_frames(&vec![0.0f32; 24_000], 0.0);
    assert_eq!(frames.len(), 25);
    assert!(frames.iter().all(|f| f.len() == 960));

    let samples: Vec<f32> = (0..1000).map(|i| i as f32 + 1.0).collect();
    let frames = split_frames(&samples, 0.0);
    assert_eq!(frames.len(), 2);
    assert_eq!(frames[0][..], samples[..960]);
    assert_eq!(frames[1][..40], samples[960..]);
    assert!(frames[1][40..].iter().all(|s| *s == 0.0));
    assert!(split_frames::<f32>(&[], 0.0).is_empty());
}

#[test]
fn resampling_keeps_the_duration() {
    // 0.5 s at 44.1 kHz resamples to exactly 24_000 samples at 48 kHz.
    assert_eq!(resampled_len(22_050, 44_100, 48_000), 24_000);
    assert_eq!(resampled_len(2, 1, 2), 4);
    assert_eq!(resampled_len(3, 2, 1), 1);
    assert_eq!(resampled_len(0, 1, 48_000), 0);
}

#[test]
fn decoding_skips_what_can_be_skipped() {
    assert_eq!(after_read(PacketRead::Packet { track_id: 3 }, 3), ReadStep::Decode);
    assert_eq!(after_read(PacketRead::Packet { track_id: 4 }, 3), ReadStep::Skip);
    assert_eq!(after_read(PacketRead::EndOfFile, 3), ReadStep::Finish);
    assert_eq!(after_read(PacketRead::Failed, 3), ReadStep::Fail);
    assert_eq!(after_decode(Decoding::Decoded), DecodeStep::Take);
    assert_eq!(after_decode(Decoding::Malformed), DecodeStep::Skip);
    assert_eq!(after_decode(Decoding::Failed), DecodeStep::Fail);
}

#[test]
fn identities_are_read() {
    let identity = parse_identity(&format!("\n  {PRIVATE_KEY}  \n")).unwrap();
    assert_eq!(identity.key().to_pub().get_uid(), UID);
    let identity = parse_identity(&format!("2792354V{PRIVATE_KEY}")).unwrap();
    assert_eq!(identity.key().to_pub().get_uid(), UID);
    assert_eq!(identity.counter(), 2792354);
    assert_eq!(
        parse_identity("not a key").unwrap_err(),
        "failed to parse identity from --identity-file: IdentityCrypto(KeyDecodeError)"
    );
    assert_eq!(
        explain_identity(Err("why".to_string())).unwrap_err(),
        "failed to parse identity from --identity-file: why"
    );
}

#[test]
fn a_stored_identity_is_kept() {
    let stored = parse_identity(PRIVATE_KEY).unwrap();
    let kept = stored_or_new(Some(stored));
    assert_eq!(kept.key().to_pub().get_uid(), UID);
    let new = stored_or_new(None);
    assert!(new.level() >= 8);
    assert_ne!(new.key().to_pub().get_uid(), UID);
}
