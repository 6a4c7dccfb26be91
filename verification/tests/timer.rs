use wwmts3gw::clock::{Clock, Duration, Moment};
use wwmts3gw::command::{parse_gametime, parse_mmss, parse_timer_command, Command, TimerCommand};
use wwmts3gw::schedule::{due_sounds, next_after, Sound, GAME_LENGTH_SECS};
use wwmts3gw::timer::{
    format_duration, format_remaining, handle_command, handle_command_at, next_announcement,
    next_announcement_at, status_message, status_message_at, TimerState,
};

fn secs(n: u64) -> Duration {
    Duration::from_secs(n)
}

fn at(n: u64) -> Moment {
    Moment::at(n, 0)
}

fn start(elapsed: u64, delay: u64) -> TimerCommand {
    TimerCommand::Start { elapsed: secs(elapsed), delay: secs(delay) }
}

#[test]
fn parses_start_variants() {
    // (message, expected elapsed seconds, expected delay seconds)
    let cases = [
        ("!jungle start", 0, 0),
        ("!jungle start 3:00", 0, 180),
        ("!jungle start at 25:00", 300, 0),
        ("!jungle start 3:00 AT 25:00", 300, 180),
        ("!jungle set 25:00", 300, 0),
    ];
    for (msg, elapsed, delay) in cases {
        match parse_timer_command(msg).unwrap().unwrap() {
            Command::Timer(TimerCommand::Start { elapsed: e, delay: d }) => {
                assert_eq!(e.as_secs(), elapsed, "{msg}");
                assert_eq!(d.as_secs(), delay, "{msg}");
            }
            other => panic!("{msg} parsed as {other:?}"),
        }
    }
}

#[test]
fn schedules_zeal_spawns() {
    let zeals: Vec<u64> = (0..GAME_LENGTH_SECS)
        .filter(|&at| due_sounds(at).contains(&Sound::Zeal))
        .collect();
    // Every 3:05 from 0:15 elapsed (29:45 on the clock): 29:45, 26:40,
    // 23:35, 20:30, 17:25, 14:20, 11:15, 08:10; 05:05 is suppressed.
    assert_eq!(zeals, vec![15, 200, 385, 570, 755, 940, 1125, 1310]);
}

#[test]
fn schedules_jungle_warnings() {
    for (offset, first) in [(60, 240), (40, 260), (20, 280)] {
        let warnings: Vec<u64> = (0..GAME_LENGTH_SECS)
            .filter(|&at| due_sounds(at).contains(&Sound::Jungle(offset)))
            .collect();
        // Each offset fires 5 times, once per spawn mark; none before
        // the 30:00 start or after the 0:00 end.
        assert_eq!(
            warnings,
            (0..5).map(|i| first + i * 300).collect::<Vec<_>>(),
            "{offset}s warning"
        );
    }
}

#[test]
fn zeal_and_jungle_currently_never_collide() {
    for at in 0..GAME_LENGTH_SECS {
        let sounds = due_sounds(at);
        let jungle = sounds.iter().any(|s| matches!(s, Sound::Jungle(_)));
        let zeal = sounds.contains(&Sound::Zeal);
        assert!(!(jungle && zeal), "collision at {at}");
    }
}

#[test]
fn rejects_oversized_numbers() {
    // Values this large would overflow the moment at which the game begins.
    for msg in [
        "!jungle start 99999999999999999:00",
        "!jungle start at 99999999999999999:00",
        "!jungle set 99999999999999999:00",
    ] {
        let err = parse_timer_command(msg).unwrap().unwrap_err();
        assert!(err.contains("too large"), "{msg}: {err}");
    }
}

#[test]
fn rejects_malformed_input() {
    for msg in [
        "!jungle start 3:99",
        "!jungle start banana",
        "!jungle start 3:00 at 25:00 extra",
        "!jungle set 31:00",
        "!jungle set",
    ] {
        assert!(parse_timer_command(msg).unwrap().is_err(), "{msg}");
    }
    assert!(parse_timer_command("hello").is_none());
    assert!(parse_timer_command("!other start").is_none());
}

#[test]
fn reads_every_action() {
    let cases = [
        ("!jungle", Command::Help),
        ("!jungle help", Command::Help),
        ("  !JUNGLE\tHelp ", Command::Help),
        ("! jungle help", Command::Help),
        ("!jungle channel", Command::Channel),
        ("!jungle group", Command::Group),
        ("!jungle stop", Command::Timer(TimerCommand::Stop)),
        ("!jungle stop now please", Command::Timer(TimerCommand::Stop)),
        ("!jungle status", Command::Timer(TimerCommand::Status)),
        ("!jungle\u{3000}start\u{a0}1:05", Command::Timer(start(0, 65))),
    ];
    for (msg, expected) in cases {
        assert_eq!(parse_timer_command(msg).unwrap().unwrap(), expected, "{msg}");
    }
    for msg in ["", "!", "   ", "jungle start", "!jungles start", "x !jungle"] {
        assert!(parse_timer_command(msg).is_none(), "{msg}");
    }
}

#[test]
fn tells_what_is_wrong() {
    let cases = [
        ("!jungle Dance", "unknown command 'dance'. Try '!jungle help'."),
        ("!jungle start 3:99", "'3:99' is not a valid time; expected MM:SS"),
        ("!jungle start banana", "'banana' is not a valid time; expected MM:SS"),
        ("!jungle start 1441:00", "'1441:00': number too large (max 1440 minutes)"),
        ("!jungle start 99999999999999999999:00",
            "'99999999999999999999:00' is not a valid time; expected MM:SS"),
        ("!jungle start 9999:99", "'9999:99' is not a valid time; expected MM:SS"),
        ("!jungle start 3:00 in 25:00", "usage: '!jungle start [MM:SS] [at MM:SS]'"),
        ("!jungle set", "expected game time as MM:SS, e.g. '!jungle set 25:00'"),
        ("!jungle set 30:01", "game time cannot exceed 30:00"),
        // The game time is looked at before the delay.
        ("!jungle start x at y", "'y' is not a valid time; expected MM:SS"),
    ];
    for (msg, expected) in cases {
        assert_eq!(parse_timer_command(msg).unwrap().unwrap_err(), expected, "{msg}");
    }
}

#[test]
fn reads_times() {
    assert_eq!(parse_mmss("0:00"), Ok(secs(0)));
    assert_eq!(parse_mmss("1440:59"), Ok(secs(86_459)));
    assert_eq!(parse_mmss("+3:+07"), Ok(secs(187)));
    assert_eq!(parse_mmss("003:7"), Ok(secs(187)));
    for text in ["", ":", "3", "3:", ":30", "-1:00", "3:0:0", "3 :00", "+:00", "\u{661}:00"] {
        assert!(parse_mmss(text).is_err(), "{text}");
    }
    assert_eq!(parse_gametime("30:00"), Ok(secs(0)));
    assert_eq!(parse_gametime("0:00"), Ok(secs(1800)));
    assert_eq!(parse_gametime("30:01"), Err("game time cannot exceed 30:00".to_string()));
}

#[test]
fn writes_times() {
    assert_eq!(format_remaining(secs(0)), "30:00");
    assert_eq!(format_remaining(secs(15)), "29:45");
    assert_eq!(format_remaining(secs(1800)), "0:00");
    assert_eq!(format_remaining(secs(5000)), "0:00");
    // What has begun of a second is not shown any more.
    assert_eq!(format_remaining(Duration::new(0, 1)), "29:59");
    assert_eq!(format_duration(secs(0)), "0s");
    assert_eq!(format_duration(secs(59)), "59s");
    assert_eq!(format_duration(secs(60)), "1:00");
    assert_eq!(format_duration(secs(7384)), "123:04");
}

#[test]
fn shown_times_read_back() {
    for elapsed in 0..=GAME_LENGTH_SECS {
        assert_eq!(parse_gametime(&format_remaining(secs(elapsed))), Ok(secs(elapsed)));
    }
}

#[test]
fn finds_the_next_sound() {
    assert_eq!(next_after(0), Some((15, Sound::Zeal)));
    assert_eq!(next_after(15), Some((200, Sound::Zeal)));
    assert_eq!(next_after(239), Some((240, Sound::Jungle(60))));
    assert_eq!(next_after(1479), Some((1480, Sound::Jungle(20))));
    assert_eq!(next_after(1480), None);
    assert_eq!(next_after(u64::MAX), None);
    assert!(due_sounds(u64::MAX).is_empty());
    assert!(due_sounds(0).is_empty());
}

#[test]
fn meets_every_announcement_once() {
    let mut now = at(100);
    let game_zero = at(100);
    let mut heard = Vec::new();
    while let Some((play_at, sound)) = next_announcement_at(game_zero, now) {
        assert!(play_at.nanos > now.nanos);
        heard.push((play_at.duration_since(game_zero).as_secs(), sound));
        now = play_at;
    }
    let scheduled: Vec<(u64, Sound)> = (0..GAME_LENGTH_SECS)
        .flat_map(|t| due_sounds(t).into_iter().map(move |s| (t, s)))
        .collect();
    assert_eq!(heard, scheduled);
    assert_eq!(heard.len(), 23);
}

#[test]
fn starts_now() {
    let (state, reply) = handle_command_at(start(0, 0), &TimerState::Stopped, at(1000));
    assert_eq!(state, TimerState::Running { game_zero: at(1000) });
    assert_eq!(reply, "started at 30:00; next zeal at 29:45");
    let (state, reply) = handle_command_at(start(300, 0), &state, at(1500));
    assert_eq!(state, TimerState::Running { game_zero: at(1200) });
    assert_eq!(reply, "started at 25:00; next zeal at 23:35");
    let (_, reply) = handle_command_at(start(210, 0), &state, at(1500));
    assert_eq!(reply, "started at 26:30; next announcement at 26:00 (60s warning)");
}

#[test]
fn starts_before_the_clock_did() {
    let (state, _) = handle_command_at(start(300, 0), &TimerState::Stopped, at(0));
    assert_eq!(state, TimerState::Running { game_zero: Moment { nanos: -300_000_000_000 } });
}

#[test]
fn starts_after_a_countdown() {
    let (state, reply) = handle_command_at(start(300, 180), &TimerState::Stopped, at(10));
    assert_eq!(state, TimerState::Countdown { starts_at: at(190), elapsed: secs(300) });
    assert_eq!(reply, "countdown started: game begins in 3:00 at 25:00");
    assert_eq!(status_message_at(&state, at(150)), "countdown: game begins in 40s");
}

#[test]
fn does_not_start_a_game_that_is_over() {
    let running = TimerState::Running { game_zero: at(0) };
    let (state, reply) = handle_command_at(start(1801, 0), &running, at(10));
    assert_eq!(state, TimerState::Stopped);
    assert_eq!(reply, "cannot start: game is already over");
    let (state, reply) = handle_command_at(start(1480, 0), &running, at(10));
    assert_eq!(state, TimerState::Stopped);
    assert_eq!(reply, "started at 5:20: no remaining announcements");
}

#[test]
fn stops_and_reports() {
    let running = TimerState::Running { game_zero: at(100) };
    let (state, reply) = handle_command_at(TimerCommand::Status, &running, at(320));
    assert_eq!(state, running);
    assert_eq!(reply, "running at 26:20; next announcement at 26:00 (60s warning)");
    assert_eq!(status_message_at(&running, at(1590)), "running at 5:10: no remaining announcements");
    let (state, reply) = handle_command_at(TimerCommand::Stop, &running, at(320));
    assert_eq!((state, reply.as_str()), (TimerState::Stopped, "timer stopped"));
    let (state, reply) = handle_command_at(TimerCommand::Stop, &state, at(321));
    assert_eq!((state, reply.as_str()), (TimerState::Stopped, "timer is already stopped"));
    assert_eq!(status_message_at(&state, at(322)), "timer is stopped");
}

#[test]
fn uses_the_real_clock() {
    let clock = Clock::new();
    let first = clock.now();
    let begun = std::time::Instant::now();
    while begun.elapsed().as_millis() < 30 {}
    let second = clock.now();
    assert!(second.duration_since(first).nanos >= 30_000_000);
    assert_eq!(second.duration_since(first).as_secs(), 0);

    let (state, reply) = handle_command(start(0, 0), &TimerState::Stopped, &clock);
    assert_eq!(reply, "started at 30:00; next zeal at 29:45");
    match state {
        TimerState::Running { game_zero } => {
            assert!(game_zero.nanos >= second.nanos);
            let (play_at, sound) = next_announcement(game_zero, &clock).unwrap();
            assert_eq!(sound, Sound::Zeal);
            assert_eq!(play_at.duration_since(game_zero), secs(15));
        }
        other => panic!("{other:?}"),
    }
    let status = status_message(&state, &clock);
    assert!(status.ends_with("; next zeal at 29:45"), "{status}");
}

#[test]
fn counts_time() {
    assert_eq!(Duration::new(2, 999_999_999).as_secs(), 2);
    assert_eq!(secs(5).checked_sub(secs(7)), None);
    assert_eq!(secs(7).checked_sub(secs(5)), Some(secs(2)));
    assert_eq!(secs(5).saturating_sub(secs(7)), secs(0));
    assert_eq!(Duration { nanos: u128::MAX }.as_secs(), u64::MAX);
    assert_eq!(at(3).plus(secs(4)), at(7));
    assert_eq!(at(3).duration_since(at(7)), secs(0));
    let early = at(0).checked_sub(secs(9)).unwrap();
    assert_eq!(at(1).duration_since(early), secs(10));
    assert_eq!(Moment { nanos: i128::MIN }.checked_sub(secs(1)), None);
}
