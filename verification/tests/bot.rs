use tsproto_packets::packets::{AudioData, CodecType, OutAudio};
use wwmts3gw::bot::{
    can_apply, clips_cover_schedule, for_each_sound, Bot, BotEvent, Due, Effect, GuiCommand, GuiEffect, HELP,
};
use wwmts3gw::clock::{Duration, Moment};
use wwmts3gw::command::{Command, TimerCommand};
use wwmts3gw::config::Args;
use wwmts3gw::schedule::Sound;
use wwmts3gw::timer::TimerState;
use wwmts3gw::ts3::{escape_emoticons, make_packet, PlaybackTarget, WhisperScope};

const JUNGLE: PlaybackTarget =
    PlaybackTarget::ServerGroup { group_id: 12, scope: WhisperScope::AllChannels };
const ZEAL: PlaybackTarget =
    PlaybackTarget::ServerGroup { group_id: 13, scope: WhisperScope::AllChannels };

fn at(n: u64) -> Moment {
    Moment::at(n, 0)
}

fn args(group: Option<u64>, zeal: Option<u64>) -> Args {
    Args {
        server: "localhost".to_string(),
        name: "bot".to_string(),
        channel: None,
        channel_id: None,
        server_password: None,
        channel_password: None,
        whisper_server_group_id: group,
        zeal_server_group_id: zeal,
        whisper_scope: WhisperScope::AllChannels,
    }
}

fn clips() -> Vec<(Sound, Vec<Vec<u8>>)> {
    for_each_sound(
        vec![vec![60, 1], vec![60, 2]],
        vec![vec![40, 1]],
        vec![vec![20, 1]],
        vec![vec![9, 1], vec![9, 2], vec![9, 3]],
    )
}

fn start(bot: &mut Bot, elapsed: u64, now: Moment) {
    let command = TimerCommand::Start {
        elapsed: Duration::from_secs(elapsed),
        delay: Duration::from_secs(0),
    };
    bot.apply_command(Command::Timer(command), now);
}

fn sent(effect: Effect) -> Vec<u8> {
    match effect {
        Effect::Send(packet) => packet,
        other => panic!("{other:?}"),
    }
}

#[test]
fn packets_are_what_the_protocol_asks_for() {
    let mut voice = vec![0; 13];
    voice.extend([0, 0, 4, 7, 8]);
    assert_eq!(make_packet(&PlaybackTarget::CurrentChannel, &[7, 8]), voice);

    let mut whisper = vec![0; 12];
    whisper.extend([0x21, 0, 0, 4, 0, 1, 1, 2, 3, 4, 5, 6, 7, 8, 7, 8]);
    let target = PlaybackTarget::ServerGroup {
        group_id: 0x0102_0304_0506_0708,
        scope: WhisperScope::CurrentChannel,
    };
    assert_eq!(make_packet(&target, &[7, 8]), whisper);

    let codec = CodecType::OpusVoice;
    let expected = OutAudio::new(&AudioData::C2SWhisperNew {
        id: 0,
        codec,
        whisper_type: 0,
        target: 0,
        target_id: 12,
        data: &[],
    });
    assert_eq!(make_packet(&JUNGLE, &[]), expected.into_vec());
    assert_eq!(WhisperScope::AllChannels.wire_value(), 0);
    assert_eq!(WhisperScope::CurrentChannel.wire_value(), 1);
}

#[test]
fn breaks_up_emoticons() {
    assert_eq!(escape_emoticons("30:00"), "30:\u{200B}00");
    assert_eq!(escape_emoticons("::"), ":\u{200B}:\u{200B}");
    assert_eq!(escape_emoticons("none"), "none");
    assert_eq!(escape_emoticons(""), "");
}

#[test]
fn streams_a_clip_frame_by_frame() {
    let mut bot = Bot::new(&args(Some(12), None), clips());
    start(&mut bot, 0, at(100));
    let wait = bot.prepare(at(100));
    let (play_at, due) = wait.pending.unwrap();
    assert_eq!(play_at, at(115));
    assert_eq!(due, Due::Announce { play_at: at(115), game_zero: at(100) });
    assert!(matches!(bot.fire(due), Effect::SoundsQueued));

    let mut now = at(115);
    for frame in [&[9u8, 1][..], &[9, 2], &[9, 3], &[]] {
        let wait = bot.prepare(now);
        assert_eq!(wait.pending, Some((now, Due::Frame)));
        assert!(bot.is_playing());
        assert_eq!(sent(bot.fire(Due::Frame)), make_packet(&JUNGLE, frame));
        now = now.plus(Duration { nanos: 20_000_000 });
    }
    assert!(!bot.is_playing());
    let wait = bot.prepare(now);
    assert_eq!(wait.pending.unwrap().0, at(300));
}

#[test]
fn zeal_whispers_to_its_own_group() {
    let mut bot = Bot::new(&args(Some(12), Some(13)), clips());
    bot.fire(Due::Announce { play_at: at(15), game_zero: at(0) });
    bot.prepare(at(15));
    assert_eq!(sent(bot.fire(Due::Frame)), make_packet(&ZEAL, &[9, 1]));

    let mut bot = Bot::new(&args(None, Some(13)), clips());
    bot.fire(Due::Announce { play_at: at(240), game_zero: at(0) });
    bot.prepare(at(240));
    assert_eq!(sent(bot.fire(Due::Frame)), make_packet(&PlaybackTarget::CurrentChannel, &[60, 1]));
}

#[test]
fn warnings_play_before_zeal() {
    let mut bot = Bot::new(&args(None, None), clips());
    // Zeal waits longer than both warnings.
    for second in [15, 260, 240] {
        bot.fire(Due::Announce { play_at: at(second), game_zero: at(0) });
    }
    let mut heard = Vec::new();
    for _ in 0..9 {
        bot.prepare(at(300));
        heard.push(sent(bot.fire(Due::Frame))[16..].to_vec());
    }
    let expected: Vec<Vec<u8>> = vec![
        vec![40, 1], vec![], vec![60, 1], vec![60, 2], vec![], vec![9, 1], vec![9, 2], vec![9, 3],
        vec![],
    ];
    assert_eq!(heard, expected);
    assert_eq!(bot.prepare(at(300)).pending, None);
}

#[test]
fn stopping_silences_the_bot() {
    let mut bot = Bot::new(&args(Some(12), None), clips());
    start(&mut bot, 0, at(0));
    for second in [15, 240] {
        bot.fire(Due::Announce { play_at: at(second), game_zero: at(0) });
    }
    bot.prepare(at(240));
    bot.fire(Due::Frame);
    let reply = bot.on_message(1, 2, "!jungle stop", at(241)).unwrap();
    assert_eq!(reply.packet, Some(make_packet(&JUNGLE, &[])));
    assert_eq!(reply.text, "timer stopped");
    assert!(reply.accepted);
    assert!(!bot.is_playing());
    assert_eq!(bot.state(), TimerState::Stopped);
    assert_eq!(bot.prepare(at(242)).pending, None);
    let reply = bot.on_message(1, 2, "!jungle stop", at(243)).unwrap();
    assert_eq!(reply.packet, None);
    assert_eq!(reply.text, "timer is already stopped");
}

#[test]
fn a_countdown_becomes_a_game() {
    let mut bot = Bot::new(&args(None, None), clips());
    let reply = bot.on_message(1, 2, "!jungle start 3:00 at 25:00", at(10)).unwrap();
    assert_eq!(
        reply.text,
        "countdown started:\u{200B} game begins in 3:\u{200B}00 at 25:\u{200B}00"
    );
    let (starts_at, due) = bot.prepare(at(10)).pending.unwrap();
    assert_eq!(starts_at, at(190));
    assert!(matches!(bot.fire(due), Effect::TimerChanged));
    match bot.state() {
        TimerState::Running { game_zero } => {
            assert_eq!(starts_at.duration_since(game_zero), Duration::from_secs(300));
        }
        other => panic!("{other:?}"),
    }
}

#[test]
fn the_timer_stops_behind_the_last_announcement() {
    let mut bot = Bot::new(&args(None, None), clips());
    start(&mut bot, 1479, at(1479));
    let wait = bot.prepare(at(1479));
    assert!(!wait.finished);
    assert_eq!(wait.pending.unwrap().0, at(1480));
    bot.fire(wait.pending.unwrap().1);
    let wait = bot.prepare(at(1480));
    assert!(wait.finished);
    assert_eq!(bot.state(), TimerState::Stopped);
    // The warning itself is still played.
    assert_eq!(wait.pending, Some((at(1480), Due::Frame)));
    assert!(!bot.prepare(at(1480)).finished);
}

/// A game that began at 0:00, in which a clip starts at `now`.
fn playing(now: Moment) -> Bot {
    let mut bot = Bot::new(&args(None, None), clips());
    bot.fire(Due::Announce { play_at: at(240), game_zero: at(0) });
    start(&mut bot, 0, at(0));
    assert_eq!(bot.prepare(now).pending, Some((now, Due::Frame)));
    bot
}

/// Fires whatever the bot waits for, up to `until`, and tells which clips begin.
fn run_until(bot: &mut Bot, until: Moment) -> Vec<u8> {
    let mut heard = Vec::new();
    let mut now = at(0);
    while let Some((deadline, due)) = bot.prepare(now).pending {
        if deadline.nanos > until.nanos {
            break;
        }
        if deadline.nanos > now.nanos {
            now = deadline;
        }
        if let Effect::Send(packet) = bot.fire(due) {
            if packet.len() > 16 && packet[17] == 1 {
                heard.push(packet[16]);
            }
        }
    }
    heard
}

#[test]
fn a_frame_at_the_same_time_only_delays_an_announcement() {
    let mut bot = playing(at(15));
    let zeal = Due::Announce { play_at: at(15), game_zero: at(0) };
    assert_eq!(sent(bot.fire(Due::Frame))[16..], [60, 1]);
    assert_eq!(bot.prepare(at(15)).pending, Some((at(15), zeal)));
    assert!(matches!(bot.fire(zeal), Effect::SoundsQueued));
    // Zeal waits for the rest of the warning.
    for frame in [&[60u8, 2][..], &[], &[9, 1]] {
        assert_eq!(bot.prepare(at(16)).pending.unwrap().1, Due::Frame);
        assert_eq!(sent(bot.fire(Due::Frame))[16..], *frame);
    }
    let mut bot = playing(at(15));
    assert_eq!(run_until(&mut bot, at(16)), [60, 9]);
}

#[test]
fn a_message_at_the_same_time_only_delays_an_announcement() {
    let mut bot = Bot::new(&args(None, None), clips());
    start(&mut bot, 0, at(0));
    assert_eq!(bot.prepare(at(14)).pending.unwrap().0, at(15));
    bot.on_message(1, 2, "!jungle status", at(15)).unwrap();
    let zeal = Due::Announce { play_at: at(15), game_zero: at(0) };
    assert_eq!(bot.prepare(at(15)).pending, Some((at(15), zeal)));
    bot.on_gui(Some(GuiCommand::Command(Command::Channel)), at(17));
    assert_eq!(bot.prepare(at(17)).pending, Some((at(15), zeal)));
    bot.fire(zeal);
    bot.prepare(at(17));
    assert_eq!(sent(bot.fire(Due::Frame))[16..], [9, 1]);
    let next = Due::Announce { play_at: at(200), game_zero: at(0) };
    assert!(run_until(&mut bot, at(100)).is_empty());
    assert_eq!(bot.prepare(at(100)).pending, Some((at(200), next)));
}

#[test]
fn the_last_warning_is_not_passed_over() {
    let mut bot = Bot::new(&args(None, None), clips());
    start(&mut bot, 1450, at(1450));
    let last = Due::Announce { play_at: at(1480), game_zero: at(0) };
    assert_eq!(bot.prepare(at(1451)).pending.unwrap().0, at(1460));
    let due = bot.prepare(at(1460)).pending.unwrap().1;
    bot.fire(due);
    while bot.prepare(at(1470)).pending.unwrap().1 == Due::Frame {
        bot.fire(Due::Frame);
    }
    bot.on_message(1, 2, "!jungle help", at(1480)).unwrap();
    let wait = bot.prepare(at(1481));
    assert!(!wait.finished);
    assert_eq!(wait.pending, Some((at(1480), last)));
    bot.fire(last);
    assert!(bot.prepare(at(1481)).finished);
    assert_eq!(sent(bot.fire(Due::Frame))[16..], [20, 1]);
}

#[test]
fn a_game_plays_every_sound_once() {
    let mut bot = Bot::new(&args(None, None), clips());
    start(&mut bot, 0, at(0));
    let expected = [
        9, 9, 60, 40, 20, 9, 60, 40, 9, 20, 9, 60, 40, 20, 9, 9, 60, 40, 20, 9, 60, 40, 20,
    ];
    let mut seconds: Vec<(u64, u8)> = Vec::new();
    for second in [15, 200, 385, 570, 755, 940, 1125, 1310] {
        seconds.push((second, 9));
    }
    for spawn in [300, 600, 900, 1200, 1500] {
        seconds.extend([(spawn - 60, 60), (spawn - 40, 40), (spawn - 20, 20)]);
    }
    seconds.sort();
    let due: Vec<u8> = seconds.iter().map(|(_, sound)| *sound).collect();
    assert_eq!(due, expected);
    assert_eq!(run_until(&mut bot, at(1800)), due);
    assert_eq!(bot.state(), TimerState::Stopped);
}

#[test]
fn a_late_start_of_the_game_owes_what_came_meanwhile() {
    let mut bot = Bot::new(&args(None, None), clips());
    bot.on_message(1, 2, "!jungle start 0:10 at 29:46", at(0)).unwrap();
    let (starts_at, due) = bot.prepare(at(0)).pending.unwrap();
    assert_eq!(starts_at, at(10));
    bot.prepare(at(12));
    bot.fire(due);
    assert_eq!(bot.prepare(at(12)).pending.unwrap().0, at(11));
}

#[test]
fn a_start_resets_what_is_owed() {
    let mut bot = Bot::new(&args(None, None), clips());
    start(&mut bot, 0, at(0));
    start(&mut bot, 100, at(50));
    assert_eq!(bot.prepare(at(50)).pending.unwrap().0, at(150));
    start(&mut bot, 0, at(60));
    assert_eq!(bot.prepare(at(60)).pending.unwrap().0, at(75));
}

#[test]
fn answers_only_what_is_meant_for_it() {
    let mut bot = Bot::new(&args(None, None), clips());
    assert!(bot.on_message(7, 7, "!jungle start", at(0)).is_none());
    assert!(bot.on_message(7, 8, "hello", at(0)).is_none());
    assert_eq!(bot.state(), TimerState::Stopped);
    let reply = bot.on_message(7, 8, "!jungle set 31:00", at(0)).unwrap();
    assert_eq!(reply.text, "game time cannot exceed 30:\u{200B}00");
    assert!(!reply.accepted);
    assert_eq!(reply.packet, None);
    assert_eq!(bot.state(), TimerState::Stopped);
    let reply = bot.on_message(7, 8, "!jungle help", at(0)).unwrap();
    assert_eq!(reply.text, escape_emoticons(HELP));
    assert_eq!(HELP.lines().count(), 11);
}

#[test]
fn switches_between_channel_and_group() {
    let mut bot = Bot::new(&args(Some(12), None), clips());
    assert!(bot.whispering());
    assert_eq!(bot.apply_command(Command::Channel, at(0)).1, "switched to channel playback");
    assert!(!bot.whispering());
    assert_eq!(
        bot.apply_command(Command::Group, at(0)).1,
        "switched to server group whisper (group 12)"
    );
    assert!(bot.whispering());

    let mut bot = Bot::new(&args(None, Some(13)), clips());
    assert_eq!(
        bot.apply_command(Command::Group, at(0)).1,
        "no server group configured (use --whisper-server-group-id at startup)"
    );
    assert!(!bot.whispering());
}

#[test]
fn obeys_the_gui() {
    let mut bot = Bot::new(&args(Some(12), None), clips());
    let effect = bot.on_gui(Some(GuiCommand::Command(Command::Channel)), at(0));
    assert!(matches!(effect, GuiEffect::Applied(None)));
    match bot.status_events().as_slice() {
        [BotEvent::Timer(TimerState::Stopped), BotEvent::Whispering(false)] => {}
        other => panic!("{other:?}"),
    }
    assert!(matches!(bot.on_gui(Some(GuiCommand::Disconnect), at(0)), GuiEffect::Disconnect));
    assert!(matches!(bot.on_gui(None, at(0)), GuiEffect::Disconnect));
}

#[test]
fn every_sound_needs_a_clip() {
    let all = clips();
    assert!(clips_cover_schedule(&all));
    for missing in 0..4 {
        let mut some = clips();
        some.remove(missing);
        assert!(!clips_cover_schedule(&some));
    }
    assert!(!clips_cover_schedule(&Vec::new()));
    assert_eq!(all[3].0, Sound::Zeal);
}

#[test]
fn a_start_must_fit_the_clock() {
    let delayed = |nanos: u128| {
        Command::Timer(TimerCommand::Start {
            elapsed: Duration::from_secs(0),
            delay: Duration { nanos },
        })
    };
    assert!(can_apply(&delayed(86_459_000_000_000), at(u64::MAX)));
    assert!(!can_apply(&delayed(i128::MAX as u128), at(0)));
    assert!(!can_apply(&delayed(u128::MAX), at(0)));
    assert!(can_apply(&Command::Help, at(u64::MAX)));
}
