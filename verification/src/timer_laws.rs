//! What holds of the timer's texts and of the times in them.

use crate::clock;
use crate::clock::{Duration, Moment};
use crate::command::{set_in, span_in, start_in, TimerCommand};
use crate::command_laws;
use crate::number;
use crate::schedule;
use crate::schedule::Sound;
use crate::text;
use crate::timer::{
    announcement_after, clock_text, duration_text, fits, handled, law_clock_text_reads_back,
    next_text, outlook, remaining_text, started, status_text, zero_of, TimerState, LATEST_START,
};
use vstd::prelude::*;
use vstd::string::*;

verus! {

/// `span` holds just so many whole seconds, and perhaps a part of another one.
pub open spec fn holds_seconds(span: int, secs: nat) -> bool {
    secs * 1_000_000_000 <= span < (secs + 1) * 1_000_000_000
}

/// A clock time is the minutes, without leading zeros, a colon, and the seconds in two digits.
pub proof fn law_clock_text_is_minutes_and_seconds(secs: nat)
    ensures
        ({
            let text = clock_text(secs);
            let colon = text.len() - 3;
            &&& colon > 0
            &&& text.take(colon) == number::decimal(secs / 60)
            &&& text[colon] == ':'
            &&& text[colon + 1] as u32 == 48 + secs % 60 / 10
            &&& text[colon + 2] as u32 == 48 + secs % 10
        }),
{
    let text = clock_text(secs);
    number::lemma_decimal_reads_back(secs / 60);
    assert(text.take(text.len() - 3) =~= number::decimal(secs / 60));
}

/// Different times look different.
pub proof fn law_clock_texts_are_told_apart(secs: nat, other: nat)
    ensures
        clock_text(secs) == clock_text(other) <==> secs == other,
{
    law_clock_text_is_minutes_and_seconds(secs);
    law_clock_text_is_minutes_and_seconds(other);
    number::lemma_decimal_reads_back(secs / 60);
    number::lemma_decimal_reads_back(other / 60);
}

/// The game clock shows what is left of 30 minutes, in whole seconds, and 0:00 from the end on.
pub proof fn law_game_clock_shows_what_is_left(elapsed: Duration, left: nat)
    requires
        elapsed.nanos <= 1_800_000_000_000 ==> holds_seconds(
            1_800_000_000_000 - elapsed.nanos,
            left,
        ),
        elapsed.nanos > 1_800_000_000_000 ==> left == 0,
    ensures
        remaining_text(elapsed) == clock_text(left),
        span_in(remaining_text(elapsed)) matches Ok(shown) && shown.nanos == left * 1_000_000_000,
{
    law_clock_text_reads_back(left);
}

/// A span is shown with its whole seconds: as minutes and seconds from one minute on, and then
/// the text reads back as that time; below a minute as a number and "s".
pub proof fn law_span_shows_whole_seconds(span: Duration, secs: nat)
    requires
        secs <= u64::MAX,
        holds_seconds(span.nanos as int, secs),
    ensures
        secs >= 60 ==> duration_text(span) == clock_text(secs),
        60 <= secs < 1441 * 60 ==> (span_in(duration_text(span)) matches Ok(shown) && shown.nanos
            == secs * 1_000_000_000),
        secs < 60 ==> duration_text(span) == number::decimal(secs) + "s"@,
{
    if 60 <= secs < 1441 * 60 {
        law_clock_text_reads_back(secs);
    }
}

/// Spans with different whole seconds look different.
pub proof fn law_spans_are_told_apart(span: Duration, secs: nat, other: Duration, other_secs: nat)
    requires
        secs <= u64::MAX,
        other_secs <= u64::MAX,
        holds_seconds(span.nanos as int, secs),
        holds_seconds(other.nanos as int, other_secs),
    ensures
        duration_text(span) == duration_text(other) <==> secs == other_secs,
{
    law_span_shows_whole_seconds(span, secs);
    law_span_shows_whole_seconds(other, other_secs);
    law_clock_texts_are_told_apart(secs, other_secs);
    law_clock_text_is_minutes_and_seconds(secs);
    law_clock_text_is_minutes_and_seconds(other_secs);
    number::lemma_decimal_reads_back(secs);
    number::lemma_decimal_reads_back(other_secs);
    reveal_strlit("s");
    let a = number::decimal(secs) + "s"@;
    let b = number::decimal(other_secs) + "s"@;
    assert(a.last() == 's' && b.last() == 's');
    assert(a.drop_last() =~= number::decimal(secs));
    assert(b.drop_last() =~= number::decimal(other_secs));
}

/// While a countdown runs, the status names the whole time that is left until the start. Once
/// that has come, none is left.
pub proof fn law_countdown_status_names_time_left(
    starts_at: Moment,
    elapsed: Duration,
    now: Moment,
    left: nat,
)
    requires
        left <= u64::MAX,
        now.nanos <= starts_at.nanos ==> holds_seconds(starts_at.nanos - now.nanos, left),
        now.nanos > starts_at.nanos ==> left == 0,
    ensures
        ({
            let status = status_text(TimerState::Countdown { starts_at, elapsed }, now);
            let front = "countdown: game begins in "@;
            &&& left >= 60 ==> status == front + clock_text(left)
            &&& 60 <= left < 1441 * 60 ==> (span_in(status.skip(front.len() as int)) matches Ok(
                shown,
            ) && shown.nanos == left * 1_000_000_000)
            &&& left < 60 ==> status == front + number::decimal(left) + "s"@
        }),
{
    let front = "countdown: game begins in "@;
    let status = status_text(TimerState::Countdown { starts_at, elapsed }, now);
    law_span_shows_whole_seconds(starts_at.since(now), left);
    assert(status.skip(front.len() as int) =~= duration_text(starts_at.since(now)));
    assert(front + (number::decimal(left) + "s"@) =~= front + number::decimal(left) + "s"@);
}

/// Two countdowns with different whole seconds left have different statuses.
pub proof fn law_countdown_statuses_are_told_apart(
    starts_at: Moment,
    elapsed: Duration,
    now: Moment,
    left: nat,
    other_start: Moment,
    other_elapsed: Duration,
    other_now: Moment,
    other_left: nat,
)
    requires
        left <= u64::MAX,
        other_left <= u64::MAX,
        holds_seconds(starts_at.nanos - now.nanos, left),
        holds_seconds(other_start.nanos - other_now.nanos, other_left),
    ensures
        status_text(TimerState::Countdown { starts_at, elapsed }, now) == status_text(
            TimerState::Countdown { starts_at: other_start, elapsed: other_elapsed },
            other_now,
        ) <==> left == other_left,
{
    let front = "countdown: game begins in "@;
    let a = duration_text(starts_at.since(now));
    let b = duration_text(other_start.since(other_now));
    law_spans_are_told_apart(starts_at.since(now), left, other_start.since(other_now), other_left);
    assert((front + a).skip(front.len() as int) =~= a);
    assert((front + b).skip(front.len() as int) =~= b);
}

/// What is said about the announcement that follows second `second` of a game, as `text` behind
/// `front`: the clock time at which it comes, and which one it is.
pub open spec fn tells_next(text: Seq<char>, front: Seq<char>, second: int) -> bool {
    match schedule::next_due(second) {
        Some((at, Sound::Zeal)) => text == front + "; next zeal at "@ + clock_text(
            (1800 - at) as nat,
        ),
        Some((at, Sound::Jungle(offset))) => text == front + "; next announcement at "@
            + clock_text((1800 - at) as nat) + " ("@ + number::decimal(offset as nat)
            + "s warning)"@,
        None => text == front + ": no remaining announcements"@,
    }
}

proof fn lemma_outlook(front: Seq<char>, game_zero: Moment, now: Moment, second: nat)
    requires
        game_zero.nanos <= LATEST_START,
        second < u64::MAX,
        now.nanos < game_zero.nanos ==> second == 0,
        now.nanos >= game_zero.nanos ==> holds_seconds(now.nanos - game_zero.nanos, second),
    ensures
        tells_next(outlook(front, game_zero, now), front, second as int),
{
    assert(now.since(game_zero).secs() == second);
    schedule::law_next_is_first(second as int);
    if let Some((at, _)) = schedule::next_due(second as int) {
        let play_at = game_zero.later(clock::whole_secs(at as nat));
        assert(play_at.since(game_zero).nanos == at * 1_000_000_000);
        law_game_clock_shows_what_is_left(play_at.since(game_zero), (1800 - at) as nat);
    }
}

/// While a game runs, the status names the time that the game clock shows and the announcement
/// that comes next.
pub proof fn law_running_status_names_time_and_next(
    game_zero: Moment,
    now: Moment,
    second: nat,
    left: nat,
)
    requires
        game_zero.nanos <= LATEST_START,
        second < u64::MAX,
        now.nanos < game_zero.nanos ==> second == 0 && left == 1800,
        now.nanos >= game_zero.nanos ==> holds_seconds(now.nanos - game_zero.nanos, second),
        0 <= now.nanos - game_zero.nanos <= 1_800_000_000_000 ==> holds_seconds(
            1_800_000_000_000 - (now.nanos - game_zero.nanos),
            left,
        ),
        now.nanos - game_zero.nanos > 1_800_000_000_000 ==> left == 0,
    ensures
        tells_next(
            status_text(TimerState::Running { game_zero }, now),
            "running at "@ + clock_text(left),
            second as int,
        ),
{
    law_game_clock_shows_what_is_left(now.since(game_zero), left);
    lemma_outlook("running at "@ + clock_text(left), game_zero, now, second);
}

/// A start without delay, at a moment from which the start of the game can be counted back, runs
/// the game so that just `elapsed` of it has passed; unless no announcement is left, and then
/// the timer stays stopped. The reply names the clock time and the announcement that comes next.
pub proof fn law_start_runs_and_replies(elapsed: Duration, now: Moment, second: nat, left: nat)
    requires
        elapsed.nanos <= 1_800_000_000_000,
        now.nanos <= LATEST_START,
        now.nanos - elapsed.nanos >= i128::MIN,
        holds_seconds(elapsed.nanos as int, second),
        holds_seconds(1_800_000_000_000 - elapsed.nanos, left),
    ensures
        ({
            let (state, reply) = started(elapsed, Duration { nanos: 0 }, now);
            &&& second < 1480 ==> (state matches TimerState::Running { game_zero }
                && game_zero.nanos + elapsed.nanos == now.nanos)
            &&& second >= 1480 ==> state is Stopped
            &&& tells_next(reply, "started at "@ + clock_text(left), second as int)
        }),
{
    let game_zero = zero_of(now, elapsed);
    schedule::law_last_announcement(second as int);
    assert(now.since(game_zero).secs() == second);
    law_game_clock_shows_what_is_left(elapsed, left);
    lemma_outlook("started at "@ + clock_text(left), game_zero, now, second);
}

/// A start after a delay waits for just that long, and keeps the asked time for the beginning.
/// The reply names both.
pub proof fn law_delayed_start_waits_and_replies(
    elapsed: Duration,
    delay: Duration,
    now: Moment,
    wait: nat,
    left: nat,
)
    requires
        elapsed.nanos <= 1_800_000_000_000,
        delay.nanos > 0,
        now.nanos + delay.nanos <= i128::MAX,
        wait <= u64::MAX,
        holds_seconds(delay.nanos as int, wait),
        holds_seconds(1_800_000_000_000 - elapsed.nanos, left),
    ensures
        ({
            let (state, reply) = started(elapsed, delay, now);
            let front = "countdown started: game begins in "@;
            &&& state matches TimerState::Countdown { starts_at, elapsed: over }
            &&& starts_at.nanos == now.nanos + delay.nanos
            &&& over == elapsed
            &&& wait >= 60 ==> reply == front + clock_text(wait) + " at "@ + clock_text(left)
            &&& wait < 60 ==> reply == front + (number::decimal(wait) + "s"@) + " at "@
                + clock_text(left)
        }),
{
    law_span_shows_whole_seconds(delay, wait);
    law_game_clock_shows_what_is_left(elapsed, left);
}

/// No game is started that is already over, whatever the delay.
pub proof fn law_finished_game_is_not_started(elapsed: Duration, delay: Duration, now: Moment)
    requires
        elapsed.nanos > 1_800_000_000_000,
    ensures
        started(elapsed, delay, now) == (
            TimerState::Stopped,
            "cannot start: game is already over"@,
        ),
{
}

/// The start of a game is counted back from now, and is now where there is no such moment.
pub proof fn law_game_is_counted_back(start: Moment, elapsed: Duration)
    ensures
        start.nanos - elapsed.nanos >= i128::MIN ==> zero_of(start, elapsed).nanos + elapsed.nanos
            == start.nanos,
        start.nanos - elapsed.nanos < i128::MIN ==> zero_of(start, elapsed) == start,
{
}

/// What each command answers and leaves behind: a start what starting does, a stop a stopped
/// timer and whether there was anything to stop, the status what it was.
pub proof fn law_commands_are_handled(
    state: TimerState,
    elapsed: Duration,
    delay: Duration,
    now: Moment,
)
    ensures
        handled(TimerCommand::Start { elapsed, delay }, state, now) == started(elapsed, delay, now),
        handled(TimerCommand::Stop, state, now) == (
            TimerState::Stopped,
            match state {
                TimerState::Stopped => "timer is already stopped"@,
                TimerState::Countdown { .. } => "timer stopped"@,
                TimerState::Running { .. } => "timer stopped"@,
            },
        ),
        handled(TimerCommand::Status, state, now) == (state, status_text(state, now)),
        status_text(TimerState::Stopped, now) == "timer is stopped"@,
{
}

/// A start fits if the whole game that it begins lies within the moments there are; everything
/// else always fits.
pub proof fn law_start_fits_if_its_game_does(elapsed: Duration, delay: Duration, now: Moment)
    ensures
        fits(TimerCommand::Start { elapsed, delay }, now) <==> now.nanos + delay.nanos
            + 1_800_000_000_000 <= i128::MAX,
        fits(TimerCommand::Stop, now),
        fits(TimerCommand::Status, now),
{
}

/// The next announcement of a game comes at the first second behind this one in which something
/// is due; none is left from second 1480 on.
pub proof fn law_next_announcement_is_that_of_the_schedule(
    game_zero: Moment,
    now: Moment,
    second: nat,
)
    requires
        game_zero.nanos <= LATEST_START,
        second < u64::MAX,
        now.nanos < game_zero.nanos ==> second == 0,
        now.nanos >= game_zero.nanos ==> holds_seconds(now.nanos - game_zero.nanos, second),
    ensures
        announcement_after(game_zero, now) is Some <==> second < 1480,
        announcement_after(game_zero, now) matches Some((play_at, sound)) ==> (schedule::next_due(
            second as int,
        ) matches Some((at, first)) && sound == first && play_at.nanos == game_zero.nanos + at
            * 1_000_000_000),
{
    assert(now.since(game_zero).secs() == second);
    schedule::law_last_announcement(second as int);
    schedule::law_next_is_first(second as int);
}

/// Setting or starting the timer at the clock time that shows `left` seconds begins the game
/// with just the rest of 30 minutes over, and a start after the span of `wait` seconds waits just
/// as long: with "set", and with one, two and three words behind "start".
pub proof fn law_written_times_are_taken(left: nat, wait: nat, at: Seq<char>)
    requires
        left <= 1800,
        wait < 1441 * 60,
        text::lower(at) == "at"@,
    ensures
        ({
            let over = Duration { nanos: ((1800 - left) * 1_000_000_000) as u128 };
            let delay = Duration { nanos: (wait * 1_000_000_000) as u128 };
            let zero = Duration { nanos: 0 };
            let shown = clock_text(left);
            let span = clock_text(wait);
            &&& set_in(seq![shown]) == Ok::<TimerCommand, Seq<char>>(
                TimerCommand::Start { elapsed: over, delay: zero },
            )
            &&& start_in(seq![span]) == Ok::<TimerCommand, Seq<char>>(
                TimerCommand::Start { elapsed: zero, delay },
            )
            &&& start_in(seq![at, shown]) == Ok::<TimerCommand, Seq<char>>(
                TimerCommand::Start { elapsed: over, delay: zero },
            )
            &&& start_in(seq![span, at, shown]) == Ok::<TimerCommand, Seq<char>>(
                TimerCommand::Start { elapsed: over, delay },
            )
        }),
{
    law_clock_text_reads_back(left);
    law_clock_text_reads_back(wait);
    command_laws::law_game_clock_counts_down(clock_text(left));
    command_laws::law_start_takes_delay_and_clock_time(clock_text(wait), at, clock_text(left));
    command_laws::law_set_takes_clock_time(clock_text(left), seq![]);
}

/// What is said of an announcement: behind the text in front, the time that the game clock shows
/// when it plays, and for a warning how many seconds ahead it is.
pub proof fn law_announcement_is_named(
    front: Seq<char>,
    elapsed: Duration,
    left: nat,
    offset: u64,
)
    requires
        elapsed.nanos <= 1_800_000_000_000 ==> holds_seconds(
            1_800_000_000_000 - elapsed.nanos,
            left,
        ),
        elapsed.nanos > 1_800_000_000_000 ==> left == 0,
    ensures
        next_text(front, elapsed, Sound::Zeal) == front + "; next zeal at "@ + clock_text(left),
        next_text(front, elapsed, Sound::Jungle(offset)) == front + "; next announcement at "@
            + clock_text(left) + " ("@ + number::decimal(offset as nat) + "s warning)"@,
{
    law_game_clock_shows_what_is_left(elapsed, left);
}

} // verus!
