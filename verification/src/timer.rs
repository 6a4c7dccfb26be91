//! The game timer: its state, the commands that change it, and what it tells about itself.

use crate::clock;
use crate::clock::{Clock, Duration, Moment, LATEST_READING};
use crate::command;
use crate::command::{Command, TimerCommand, MAX_MINUTES};
use crate::number;
use crate::schedule;
use crate::schedule::{Sound, GAME_LENGTH_SECS};
use crate::text;
use vstd::prelude::*;
use vstd::string::*;

verus! {

/// The latest moment at which a game may have started: one game length before the last moment
/// there is.
pub const LATEST_START: i128 = i128::MAX - 1_800_000_000_000;

/// What the timer is doing.
#[derive(Debug, Clone, Copy, PartialEq, Eq, Structural)]
pub enum TimerState {
    Stopped,
    /// The game begins at `starts_at`, with `elapsed` of it already over.
    Countdown { starts_at: Moment, elapsed: Duration },
    /// The game clock showed 30:00 at `game_zero`.
    Running { game_zero: Moment },
}

impl TimerState {
    /// All moments of the game can be represented.
    pub open spec fn in_range(self) -> bool {
        match self {
            TimerState::Stopped => true,
            TimerState::Countdown { starts_at, .. } => starts_at.nanos <= LATEST_START,
            TimerState::Running { game_zero } => game_zero.nanos <= LATEST_START,
        }
    }
}

/// The game begins no later than `LATEST_START` if the command is given at `now`.
pub open spec fn fits(command: TimerCommand, now: Moment) -> bool {
    command matches TimerCommand::Start { delay, .. } ==> now.nanos + delay.nanos <= LATEST_START
}

/// The length of a game.
pub open spec fn game_length() -> Duration {
    clock::whole_secs(GAME_LENGTH_SECS as nat)
}

/// `secs` as minutes, a colon, and two digits for the seconds.
pub open spec fn clock_text(secs: nat) -> Seq<char> {
    number::decimal(secs / 60).push(':') + number::two_digits(secs % 60)
}

/// What the game clock shows when `elapsed` of the game is over.
pub open spec fn remaining_text(elapsed: Duration) -> Seq<char> {
    clock_text(game_length().minus(elapsed).secs())
}

/// A span as minutes and seconds, or as seconds alone if it is below one minute.
pub open spec fn duration_text(d: Duration) -> Seq<char> {
    if d.secs() >= 60 {
        clock_text(d.secs())
    } else {
        number::decimal(d.secs()) + "s"@
    }
}

/// The next announcement of a game that started at `game_zero`, asked for at `now`.
pub open spec fn announcement_after(game_zero: Moment, now: Moment) -> Option<(Moment, Sound)> {
    match schedule::next_due(now.since(game_zero).secs() as int) {
        Some((at, sound)) => Some((game_zero.later(clock::whole_secs(at as nat)), sound)),
        None => None,
    }
}

/// Names the announcement that plays when `elapsed` of the game is over.
pub open spec fn next_text(prefix: Seq<char>, elapsed: Duration, sound: Sound) -> Seq<char> {
    match sound {
        Sound::Jungle(offset) => prefix + "; next announcement at "@ + remaining_text(elapsed)
            + " ("@ + number::decimal(offset as nat) + "s warning)"@,
        Sound::Zeal => prefix + "; next zeal at "@ + remaining_text(elapsed),
    }
}

/// `prefix`, and the next announcement of the game, if there is one.
pub open spec fn outlook(prefix: Seq<char>, game_zero: Moment, now: Moment) -> Seq<char> {
    match announcement_after(game_zero, now) {
        Some((play_at, sound)) => next_text(prefix, play_at.since(game_zero), sound),
        None => prefix + ": no remaining announcements"@,
    }
}

/// What the timer tells about itself at `now`.
pub open spec fn status_text(state: TimerState, now: Moment) -> Seq<char> {
    match state {
        TimerState::Stopped => "timer is stopped"@,
        TimerState::Countdown { starts_at, .. } => "countdown: game begins in "@ + duration_text(
            starts_at.since(now),
        ),
        TimerState::Running { game_zero } => outlook(
            "running at "@ + remaining_text(now.since(game_zero)),
            game_zero,
            now,
        ),
    }
}

/// When the game clock showed 30:00, if at `start` the time `elapsed` was over.
pub open spec fn zero_of(start: Moment, elapsed: Duration) -> Moment {
    match start.earlier(elapsed) {
        Some(zero) => zero,
        None => start,
    }
}

/// The state after a start, and the reply to it.
pub open spec fn started(elapsed: Duration, delay: Duration, now: Moment) -> (
    TimerState,
    Seq<char>,
) {
    if elapsed.nanos > game_length().nanos {
        (TimerState::Stopped, "cannot start: game is already over"@)
    } else if delay.nanos > 0 {
        (
            TimerState::Countdown { starts_at: now.later(delay), elapsed },
            "countdown started: game begins in "@ + duration_text(delay) + " at "@
                + remaining_text(elapsed),
        )
    } else {
        let game_zero = zero_of(now, elapsed);
        (
            if announcement_after(game_zero, now) is Some {
                TimerState::Running { game_zero }
            } else {
                TimerState::Stopped
            },
            outlook("started at "@ + remaining_text(elapsed), game_zero, now),
        )
    }
}

/// The state after a command given at `now`, and the reply to it.
pub open spec fn handled(command: TimerCommand, state: TimerState, now: Moment) -> (
    TimerState,
    Seq<char>,
) {
    match command {
        TimerCommand::Start { elapsed, delay } => started(elapsed, delay, now),
        TimerCommand::Stop => (
            TimerState::Stopped,
            if state is Stopped {
                "timer is already stopped"@
            } else {
                "timer stopped"@
            },
        ),
        TimerCommand::Status => (state, status_text(state, now)),
    }
}

/// Appends `secs` as minutes, a colon, and two digits for the seconds.
fn push_clock(out: &mut String, secs: u64)
    ensures
        final(out)@ == old(out)@ + clock_text(secs as nat),
{
    number::push_decimal(out, secs / 60);
    out.push(':');
    number::push_two_digits(out, secs % 60);
    assert(out@ == old(out)@ + clock_text(secs as nat));
}

/// What the game clock shows when `elapsed` of the game is over.
pub fn format_remaining(elapsed: Duration) -> (r: String)
    ensures
        r@ == remaining_text(elapsed),
{
    let remaining: u64 = Duration::from_secs(GAME_LENGTH_SECS).saturating_sub(elapsed).as_secs();
    let mut out: String = String::new();
    push_clock(&mut out, remaining);
    assert(out@ == clock_text(remaining as nat));
    out
}

/// A span as minutes and seconds, or as seconds alone if it is below one minute.
pub fn format_duration(duration: Duration) -> (r: String)
    ensures
        r@ == duration_text(duration),
{
    let seconds: u64 = duration.as_secs();
    let mut out: String = String::new();
    if seconds >= 60 {
        push_clock(&mut out, seconds);
        assert(out@ == clock_text(seconds as nat));
    } else {
        number::push_decimal(&mut out, seconds);
        assert(out@ == number::decimal(seconds as nat));
        out.append("s");
    }
    out
}

/// The next announcement of a game that started at `game_zero`, asked for at `now`.
pub fn next_announcement_at(game_zero: Moment, now: Moment) -> (r: Option<(Moment, Sound)>)
    requires
        game_zero.nanos <= LATEST_START,
    ensures
        r == announcement_after(game_zero, now),
{
    match schedule::next_after(now.duration_since(game_zero).as_secs()) {
        Some((at, sound)) => Some((game_zero.plus(Duration::from_secs(at)), sound)),
        None => None,
    }
}

/// The next sound to play, whichever comes first. Overlapping events on the same second are
/// reported one per call (jungle first); the caller drains the rest via
/// [`due_sounds`](crate::schedule::due_sounds).
pub fn next_announcement(game_zero: Moment, clock: &Clock) -> (r: Option<(Moment, Sound)>)
    requires
        game_zero.nanos <= LATEST_START,
    ensures
        exists|now: Moment| #[trigger]
            clock.reads(now) && now.is_reading() && r == announcement_after(game_zero, now),
{
    let now: Moment = clock.now();
    next_announcement_at(game_zero, now)
}

/// "...; next announcement at 24:00 (60s warning)" / "...; next zeal at 29:45".
pub fn next_message(prefix: &str, play_at: Moment, game_zero: Moment, sound: Sound) -> (r: String)
    ensures
        r@ == next_text(prefix@, play_at.since(game_zero), sound),
{
    let at: String = format_remaining(play_at.duration_since(game_zero));
    let mut out: String = prefix.to_string();
    match sound {
        Sound::Jungle(offset) => {
            out.append("; next announcement at ");
            out.append(at.as_str());
            out.append(" (");
            number::push_decimal(&mut out, offset);
            out.append("s warning)");
        },
        Sound::Zeal => {
            out.append("; next zeal at ");
            out.append(at.as_str());
        },
    }
    out
}

/// `prefix`, and the next announcement of the game, if there is one.
fn outlook_message(prefix: &str, game_zero: Moment, now: Moment) -> (r: (
    Option<(Moment, Sound)>,
    String,
))
    requires
        game_zero.nanos <= LATEST_START,
    ensures
        r.0 == announcement_after(game_zero, now),
        r.1@ == outlook(prefix@, game_zero, now),
{
    let next: Option<(Moment, Sound)> = next_announcement_at(game_zero, now);
    let message: String = match next {
        Some((play_at, sound)) => next_message(prefix, play_at, game_zero, sound),
        None => {
            let mut out: String = prefix.to_string();
            out.append(": no remaining announcements");
            out
        },
    };
    (next, message)
}

/// What the timer tells about itself at `now`.
pub fn status_message_at(state: &TimerState, now: Moment) -> (r: String)
    requires
        state.in_range(),
    ensures
        r@ == status_text(*state, now),
{
    match *state {
        TimerState::Stopped => "timer is stopped".to_string(),
        TimerState::Countdown { starts_at, .. } => {
            let mut out: String = "countdown: game begins in ".to_string();
            out.append(format_duration(starts_at.duration_since(now)).as_str());
            out
        },
        TimerState::Running { game_zero } => {
            let mut prefix: String = "running at ".to_string();
            prefix.append(format_remaining(now.duration_since(game_zero)).as_str());
            let (_, message) = outlook_message(prefix.as_str(), game_zero, now);
            message
        },
    }
}

/// What the timer tells about itself.
pub fn status_message(state: &TimerState, clock: &Clock) -> (r: String)
    requires
        state.in_range(),
    ensures
        exists|now: Moment| #[trigger]
            clock.reads(now) && now.is_reading() && r@ == status_text(*state, now),
{
    let now: Moment = clock.now();
    status_message_at(state, now)
}

/// When the game clock showed 30:00, if at `start` the time `elapsed` was over.
pub fn game_zero_at(start: Moment, elapsed: Duration) -> (r: Moment)
    ensures
        r == zero_of(start, elapsed),
{
    match start.checked_sub(elapsed) {
        Some(zero) => zero,
        None => start,
    }
}

/// Starts the timer at `now`, with `elapsed` of the game over, after `delay`.
pub fn start_timer(elapsed: Duration, delay: Duration, now: Moment) -> (r: (TimerState, String))
    requires
        now.nanos + delay.nanos <= LATEST_START,
    ensures
        r.0 == started(elapsed, delay, now).0,
        r.1@ == started(elapsed, delay, now).1,
        r.0.in_range(),
{
    if elapsed.nanos > Duration::from_secs(GAME_LENGTH_SECS).nanos {
        return (TimerState::Stopped, "cannot start: game is already over".to_string());
    }
    if delay.nanos > 0 {
        let mut reply: String = "countdown started: game begins in ".to_string();
        reply.append(format_duration(delay).as_str());
        reply.append(" at ");
        reply.append(format_remaining(elapsed).as_str());
        return (TimerState::Countdown { starts_at: now.plus(delay), elapsed }, reply);
    }
    let game_zero: Moment = game_zero_at(now, elapsed);
    let mut prefix: String = "started at ".to_string();
    prefix.append(format_remaining(elapsed).as_str());
    let (next, reply) = outlook_message(prefix.as_str(), game_zero, now);
    let state: TimerState = match next {
        Some(_) => TimerState::Running { game_zero },
        None => TimerState::Stopped,
    };
    (state, reply)
}

/// Applies a timer command given at `now`, returning the new state and the reply for the
/// sender.
pub fn handle_command_at(command: TimerCommand, state: &TimerState, now: Moment) -> (r: (
    TimerState,
    String,
))
    requires
        state.in_range(),
        fits(command, now),
    ensures
        r.0 == handled(command, *state, now).0,
        r.1@ == handled(command, *state, now).1,
        r.0.in_range(),
{
    match command {
        TimerCommand::Start { elapsed, delay } => start_timer(elapsed, delay, now),
        TimerCommand::Stop => {
            let reply: String = match *state {
                TimerState::Stopped => "timer is already stopped".to_string(),
                _ => "timer stopped".to_string(),
            };
            (TimerState::Stopped, reply)
        },
        TimerCommand::Status => (*state, status_message_at(state, now)),
    }
}

/// Applies a timer command, returning the new state and the reply for the sender.
pub fn handle_command(command: TimerCommand, state: &TimerState, clock: &Clock) -> (r: (
    TimerState,
    String,
))
    requires
        state.in_range(),
        fits(command, Moment { nanos: LATEST_READING }),
    ensures
        exists|now: Moment| #[trigger]
            clock.reads(now) && now.is_reading() && r.0 == handled(command, *state, now).0 && r.1@
                == handled(command, *state, now).1,
        r.0.in_range(),
{
    let now: Moment = clock.now();
    handle_command_at(command, state, now)
}

/// Starting ignores what the timer did before: a start while the timer runs resets it.
pub proof fn law_start_resets(
    elapsed: Duration,
    delay: Duration,
    before: TimerState,
    other: TimerState,
    now: Moment,
)
    ensures
        handled(TimerCommand::Start { elapsed, delay }, before, now) == handled(
            TimerCommand::Start { elapsed, delay },
            other,
            now,
        ),
{
}

/// Asking for the status changes nothing.
pub proof fn law_status_changes_nothing(state: TimerState, now: Moment)
    ensures
        handled(TimerCommand::Status, state, now).0 == state,
        handled(TimerCommand::Status, state, now).1 == status_text(state, now),
{
}

/// Stopping always leaves the timer stopped, and stopping twice is told apart.
pub proof fn law_stop_stops(state: TimerState, now: Moment, later: Moment)
    ensures
        handled(TimerCommand::Stop, state, now).0 is Stopped,
        handled(
            TimerCommand::Stop,
            handled(TimerCommand::Stop, state, now).0,
            later,
        ).1 == "timer is already stopped"@,
{
}

/// A delayed start begins the game when the delay is over, on the clock time that was asked
/// for: at that moment just `elapsed` of the game has passed.
pub proof fn law_countdown_ends_at_asked_time(elapsed: Duration, delay: Duration, now: Moment)
    requires
        elapsed.nanos <= game_length().nanos,
        0 < delay.nanos,
        now.nanos + delay.nanos <= LATEST_START,
        now.nanos + delay.nanos - elapsed.nanos >= i128::MIN,
    ensures
        started(elapsed, delay, now).0 matches TimerState::Countdown { starts_at, elapsed: e } && {
            &&& starts_at.since(now) == delay
            &&& e == elapsed
            &&& starts_at.since(zero_of(starts_at, e)) == elapsed
        },
{
}

/// A start without delay runs the clock at the time that was asked for, unless nothing is left
/// to announce; then the timer stays stopped.
pub proof fn law_start_runs_at_asked_time(elapsed: Duration, now: Moment)
    requires
        elapsed.nanos <= game_length().nanos,
        now.nanos - elapsed.nanos >= i128::MIN,
    ensures
        match started(elapsed, clock::whole_secs(0), now).0 {
            TimerState::Running { game_zero } => now.since(game_zero) == elapsed
                && schedule::next_due(elapsed.secs() as int) is Some,
            TimerState::Stopped => schedule::next_due(elapsed.secs() as int) is None,
            TimerState::Countdown { .. } => false,
        },
{
}

/// The next announcement lies ahead, within the game, on a second in which its sound is due,
/// and nothing is due in the seconds between.
pub proof fn law_announcement_is_ahead(game_zero: Moment, now: Moment)
    requires
        game_zero.nanos <= LATEST_START,
    ensures
        announcement_after(game_zero, now) matches Some((play_at, sound)) ==> {
            let at = play_at.since(game_zero).secs() as int;
            &&& now.nanos < play_at.nanos
            &&& play_at.since(game_zero).nanos < game_length().nanos
            &&& play_at.since(game_zero) == clock::whole_secs(at as nat)
            &&& schedule::due(at).len() > 0
            &&& schedule::due(at)[0] == sound
            &&& forall|b: int|
                now.since(game_zero).secs() < b < at ==> (#[trigger] schedule::due(b)).len() == 0
        },
{
    let e = now.since(game_zero).secs() as int;
    schedule::law_next_is_first(e);
    if let Some((at, sound)) = schedule::next_due(e) {
        let span = clock::whole_secs(at as nat);
        assert(span.nanos == at * clock::NANOS_PER_SEC);
        assert(game_zero.later(span).since(game_zero) == span);
        assert(span.secs() == at);
    }
}

/// A clock time that the timer shows reads back as the same time.
pub proof fn law_clock_text_reads_back(secs: nat)
    requires
        secs < (MAX_MINUTES + 1) * 60,
    ensures
        command::span_in(clock_text(secs)) == Ok::<Duration, Seq<char>>(clock::whole_secs(secs)),
{
    let text = clock_text(secs);
    let minutes = number::decimal(secs / 60);
    number::lemma_decimal_reads_back(secs / 60);
    number::lemma_two_digits_read_back(secs % 60);
    let colon = minutes.len() as int;
    assert(text[colon] == ':');
    assert forall|i: int| 0 <= i < colon implies #[trigger] text[i] != ':' by {
        assert(text[i] == minutes[i]);
    }
    text::lemma_before_is(text, ':', colon);
    assert(text.take(colon) == minutes);
    assert(text.skip(colon + 1) == number::two_digits(secs % 60));
}

/// What the game clock shows, sent back as a game time, gives the time that had passed: so
/// setting the timer to the time it shows sets it to where it is, to the second.
pub proof fn law_shown_time_reads_back(elapsed: nat)
    requires
        elapsed <= GAME_LENGTH_SECS,
    ensures
        command::game_time_in(remaining_text(clock::whole_secs(elapsed))) == Ok::<
            Duration,
            Seq<char>,
        >(clock::whole_secs(elapsed)),
{
    let left = (GAME_LENGTH_SECS - elapsed) as nat;
    assert(game_length().minus(clock::whole_secs(elapsed)) == clock::whole_secs(left));
    assert(clock::whole_secs(left).secs() == left);
    law_clock_text_reads_back(left);
}

/// Every command that a chat message can hold may be carried out at any time a clock can read:
/// no moment of the game that it begins is out of range.
pub proof fn law_chat_commands_fit(message: Seq<char>, now: Moment)
    requires
        now.is_reading(),
    ensures
        command::command_in(message) matches Some(Ok(Command::Timer(c))) ==> fits(c, now),
{
    let text = text::trimmed(message);
    let words = text::words_of(text.skip(1));
    let args = words.skip(2);
    command::law_starts_are_bounded(None, None);
    command::law_starts_are_bounded(None, Some(args[0]));
    command::law_starts_are_bounded(Some(args[1]), None);
    command::law_starts_are_bounded(Some(args[2]), Some(args[0]));
    command::law_starts_are_bounded(Some(args[0]), None);
}

/// Whoever asks from `now` on, until the announcement that follows `now` is due, is told of it;
/// whoever asks from then on is told of a later one, or of none.
pub proof fn law_announcements_come_once(game_zero: Moment, now: Moment, later: Moment)
    requires
        game_zero.nanos <= LATEST_START,
        now.nanos <= later.nanos,
    ensures
        announcement_after(game_zero, now) matches Some((play_at, _)) ==> {
            &&& later.nanos < play_at.nanos ==> announcement_after(game_zero, later)
                == announcement_after(game_zero, now)
            &&& later.nanos >= play_at.nanos ==> (announcement_after(game_zero, later) matches Some(
                (next, _),
            ) ==> next.nanos > play_at.nanos)
        },
        announcement_after(game_zero, now) is None ==> announcement_after(game_zero, later) is None,
{
    let e = now.since(game_zero).secs() as int;
    let x = later.since(game_zero).secs() as int;
    schedule::law_next_is_first(e);
    schedule::law_next_is_first(x);
    schedule::law_each_announcement_comes_once(e, x);
}

} // verus!
