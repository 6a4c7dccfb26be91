//! The decisions behind the GUI: what its fields and buttons mean, and what it knows of the bot.

use crate::bot::{BotEvent, BotView};
use crate::clock::{Duration, Moment};
use crate::command;
use crate::command::Command;
use crate::config;
use crate::number;
use crate::text;
use crate::timer;
use crate::timer::TimerState;
use crate::timer_laws;
use vstd::prelude::*;
use vstd::string::*;

verus! {

/// The start command that the two text fields stand for: the game time and the delay, each left
/// out where its field is empty.
pub open spec fn start_of_fields(at: Seq<char>, delay: Seq<char>) -> Result<Command, Seq<char>> {
    command::for_timer(
        command::start_from(
            config::filled(text::trimmed(at)),
            config::filled(text::trimmed(delay)),
        ),
    )
}

/// The text without white space around it, or nothing if none is left.
fn field<'a>(text: &'a str) -> (r: Option<&'a str>)
    ensures
        match r {
            Some(t) => config::filled(text::trimmed(text@)) == Some(t@),
            None => config::filled(text::trimmed(text@)) is None,
        },
{
    let trimmed: &str = text::trim(text);
    if trimmed.is_empty() {
        None
    } else {
        Some(trimmed)
    }
}

/// Builds a start command from the two text fields, mirroring
/// `!jungle start [MM:SS] [at MM:SS]`.
pub fn parse_start(at: &str, delay: &str) -> (r: Result<Command, String>)
    ensures
        command::said(r) == start_of_fields(at@, delay@),
{
    match command::build_start(field(at), field(delay)) {
        Ok(command) => Ok(Command::Timer(command)),
        Err(reply) => Err(reply),
    }
}

/// What the GUI knows of the bot.
#[derive(Debug, Clone, Copy, PartialEq, Eq, Structural)]
pub struct BotStatus {
    /// False while the TeamSpeak handshake is still in progress.
    pub connected: bool,
    pub timer: TimerState,
    pub whispering: bool,
}

/// What the GUI knows after one more event.
pub open spec fn told(status: BotStatus, event: BotEvent) -> BotStatus {
    match event {
        BotEvent::Connected => BotStatus { connected: true, ..status },
        BotEvent::Timer(timer) => BotStatus { timer, ..status },
        BotEvent::Whispering(whispering) => BotStatus { whispering, ..status },
        BotEvent::Stopped(_) => status,
    }
}

/// What the GUI knows after all events.
pub open spec fn told_all(status: BotStatus, events: Seq<BotEvent>) -> BotStatus
    decreases events.len(),
{
    if events.len() == 0 {
        status
    } else {
        told(told_all(status, events.drop_last()), events.last())
    }
}

/// How the bot ended, if one of the events says so; the last one counts.
pub open spec fn ended(events: Seq<BotEvent>) -> Option<Option<String>>
    decreases events.len(),
{
    if events.len() == 0 {
        None
    } else {
        match events.last() {
            BotEvent::Stopped(error) => Some(error),
            _ => ended(events.drop_last()),
        }
    }
}

/// The command that switches the output, if it is not what it should be.
pub open spec fn output_command(whispering: bool, whisper_now: bool) -> Option<Command> {
    if whisper_now == whispering {
        None
    } else if whisper_now {
        Some(Command::Group)
    } else {
        Some(Command::Channel)
    }
}

/// The time on display moves.
pub open spec fn ticks(timer: TimerState) -> bool {
    !(timer is Stopped)
}

/// One line on the state of the connection to `server`.
pub open spec fn label_text(connected: bool, server: Seq<char>) -> Seq<char> {
    if connected {
        "● connected to "@ + text::trimmed(server)
    } else {
        "● connecting …"@
    }
}

impl BotStatus {
    /// Nothing is known yet of a bot that has just been started.
    pub fn starting(whispering: bool) -> (r: BotStatus)
        ensures
            !r.connected,
            r.timer is Stopped,
            r.whispering == whispering,
    {
        BotStatus { connected: false, timer: TimerState::Stopped, whispering }
    }

    /// Takes in the events that have arrived. If the bot has ended, the result holds the error
    /// it ended with, or none.
    pub fn drain_events(&mut self, events: Vec<BotEvent>) -> (r: Option<Option<String>>)
        ensures
            *final(self) == told_all(*old(self), events@),
            r == ended(events@),
    {
        let mut stopped: Option<Option<String>> = None;
        let mut left: Vec<BotEvent> = events;
        let ghost all = left@;
        let ghost start = *self;
        let mut i: usize = 0;
        let total: usize = left.len();
        while i < total
            invariant
                i <= total == all.len(),
                left@ == all.skip(i as int),
                *self == told_all(start, all.take(i as int)),
                stopped == ended(all.take(i as int)),
            decreases total - i,
        {
            let event: BotEvent = left.remove(0);
            proof {
                assert(event == all[i as int]);
                assert(all.take(i + 1).drop_last() == all.take(i as int));
                assert(all.take(i + 1).last() == event);
                assert(left@ == all.skip(i + 1));
            }
            match event {
                BotEvent::Connected => {
                    self.connected = true;
                },
                BotEvent::Timer(state) => {
                    self.timer = state;
                },
                BotEvent::Whispering(active) => {
                    self.whispering = active;
                },
                BotEvent::Stopped(error) => {
                    stopped = Some(error);
                },
            }
            i += 1;
        }
        assert(all.take(total as int) == all);
        stopped
    }

    /// The time on display moves, so it has to be drawn again soon.
    pub fn is_ticking(&self) -> (r: bool)
        ensures
            r == !(self.timer is Stopped),
            r == ticks(self.timer),
    {
        match self.timer {
            TimerState::Stopped => false,
            _ => true,
        }
    }

    /// The command that a choice of output stands for: none, if it is the current one.
    pub fn choose_output(&self, whisper_now: bool) -> (r: Option<Command>)
        ensures
            r == (if whisper_now == self.whispering {
                None
            } else if whisper_now {
                Some(Command::Group)
            } else {
                Some(Command::Channel)
            }),
            r == output_command(self.whispering, whisper_now),
    {
        if whisper_now == self.whispering {
            None
        } else if whisper_now {
            Some(Command::Group)
        } else {
            Some(Command::Channel)
        }
    }

    /// One line on the state of the connection.
    pub fn connection_label(&self, server: &str) -> (r: String)
        ensures
            r@ == (if self.connected {
                "● connected to "@ + text::trimmed(server@)
            } else {
                "● connecting …"@
            }),
            r@ == label_text(self.connected, server@),
    {
        if self.connected {
            let mut label: String = "● connected to ".to_string();
            label.append(text::trim(server));
            label
        } else {
            "● connecting …".to_string()
        }
    }
}

/// Empty fields start the game at 30:00 now, like `!jungle start` alone.
pub proof fn law_empty_fields_start_now(at: Seq<char>, delay: Seq<char>)
    requires
        text::trimmed(at).len() == 0,
        text::trimmed(delay).len() == 0,
    ensures
        start_of_fields(at, delay) == command::action_in("start"@, seq![]),
{
}

/// Every start that the fields can ask for may be carried out at any time a clock can read.
pub proof fn law_field_starts_fit(at: Seq<char>, delay: Seq<char>, now: Moment)
    requires
        now.is_reading(),
    ensures
        start_of_fields(at, delay) matches Ok(Command::Timer(c)) ==> timer::fits(c, now),
{
    command::law_starts_are_bounded(
        config::filled(text::trimmed(at)),
        config::filled(text::trimmed(delay)),
    );
}

/// The two fields stand for what the same words say behind "start" in chat: a field that is
/// filled in gives its word, without the white space around it, and a blank one leaves it out.
pub proof fn law_fields_mirror_chat(at: Seq<char>, delay: Seq<char>, word: Seq<char>)
    requires
        text::lower(word) == "at"@,
    ensures
        ({
            let time = text::trimmed(at);
            let wait = text::trimmed(delay);
            start_of_fields(at, delay) == command::action_in(
                "start"@,
                if time.len() == 0 && wait.len() == 0 {
                    seq![]
                } else if time.len() == 0 {
                    seq![wait]
                } else if wait.len() == 0 {
                    seq![word, time]
                } else {
                    seq![wait, word, time]
                },
            )
        }),
{
    let time = text::trimmed(at);
    let wait = text::trimmed(delay);
    reveal_strlit("at");
    assert(text::lower("at"@) =~= "at"@);
    assert(command::is_at(word));
    assert(seq![wait, word, time][1] == word);
    assert(seq![word, time][0] == word);
}

/// Fields that show a clock time and a span begin the game there, after just that long.
pub proof fn law_fields_take_written_times(left: nat, wait: nat)
    requires
        left <= 1800,
        wait < 1441 * 60,
    ensures
        start_of_fields(timer::clock_text(left), timer::clock_text(wait)) == Ok::<
            Command,
            Seq<char>,
        >(
            Command::Timer(
                command::TimerCommand::Start {
                    elapsed: Duration { nanos: ((1800 - left) * 1_000_000_000) as u128 },
                    delay: Duration { nanos: (wait * 1_000_000_000) as u128 },
                },
            ),
        ),
{
    reveal_strlit("at");
    assert(text::lower("at"@) =~= "at"@);
    lemma_clock_text_is_trimmed(left);
    lemma_clock_text_is_trimmed(wait);
    law_fields_mirror_chat(timer::clock_text(left), timer::clock_text(wait), "at"@);
    timer_laws::law_written_times_are_taken(left, wait, "at"@);
    assert(config::filled(text::trimmed(timer::clock_text(left))) == Some(timer::clock_text(left)));
}

proof fn lemma_clock_text_is_trimmed(secs: nat)
    ensures
        timer::clock_text(secs).len() > 0,
        text::trimmed(timer::clock_text(secs)) == timer::clock_text(secs),
{
    let shown = timer::clock_text(secs);
    let none = Seq::<char>::empty();
    timer_laws::law_clock_text_is_minutes_and_seconds(secs);
    number::lemma_decimal_reads_back(secs / 60);
    assert(shown[0] == number::decimal(secs / 60)[0]);
    text::law_trimming_leaves_the_text(none, shown, none);
    assert(none + shown + none =~= shown);
}

/// The last news counts. The GUI shows the timer and the output of the last event about them, or
/// what it knew before if there was none; it is connected once it was told so; and the bot has
/// ended as the last event about that says.
pub proof fn law_last_news_counts(status: BotStatus, events: Seq<BotEvent>, last: int)
    requires
        0 <= last < events.len(),
    ensures
        ({
            let now = told_all(status, events);
            &&& now.connected <==> status.connected || exists|i: int|
                0 <= i < events.len() && (#[trigger] events[i] is Connected)
            &&& events[last] matches BotEvent::Timer(state) ==> ((forall|i: int|
                last < i < events.len() ==> !(#[trigger] events[i] is Timer)) ==> now.timer
                == state)
            &&& (forall|i: int| 0 <= i < events.len() ==> !(#[trigger] events[i] is Timer))
                ==> now.timer == status.timer
            &&& events[last] matches BotEvent::Whispering(active) ==> ((forall|i: int|
                last < i < events.len() ==> !(#[trigger] events[i] is Whispering))
                ==> now.whispering == active)
            &&& (forall|i: int| 0 <= i < events.len() ==> !(#[trigger] events[i] is Whispering))
                ==> now.whispering == status.whispering
            &&& events[last] matches BotEvent::Stopped(error) ==> ((forall|i: int|
                last < i < events.len() ==> !(#[trigger] events[i] is Stopped)) ==> ended(events)
                == Some(error))
            &&& (forall|i: int| 0 <= i < events.len() ==> !(#[trigger] events[i] is Stopped))
                ==> ended(events) is None
        }),
    decreases events.len(),
{
    let fewer = events.drop_last();
    let end = events.len() - 1;
    assert(events.last() == events[end]);
    assert forall|i: int| 0 <= i < end implies fewer[i] == #[trigger] events[i] by {}
    if end == 0 {
        assert(fewer =~= Seq::<BotEvent>::empty());
        reveal_with_fuel(told_all, 2);
        reveal_with_fuel(ended, 2);
    } else {
        law_last_news_counts(
            status,
            fewer,
            if last < end {
                last
            } else {
                0
            },
        );
        if exists|i: int| 0 <= i < events.len() && (#[trigger] events[i] is Connected) {
            let i = choose|i: int| 0 <= i < events.len() && (#[trigger] events[i] is Connected);
            if i < end {
                assert(fewer[i] is Connected);
            }
        }
        if exists|i: int| 0 <= i < fewer.len() && (#[trigger] fewer[i] is Connected) {
            let i = choose|i: int| 0 <= i < fewer.len() && (#[trigger] fewer[i] is Connected);
            assert(events[i] is Connected);
        }
    }
}

/// No events tell nothing new.
pub proof fn law_no_news(status: BotStatus)
    ensures
        told_all(status, seq![]) == status,
        ended(seq![]) is None,
{
}

/// Choosing an output leads there: no command is sent just if audio goes there already, and the
/// command that is sent makes a bot with a group whisper, or not, as was chosen.
pub proof fn law_chosen_output_is_reached(
    whispering: bool,
    whisper_now: bool,
    bot: BotView,
    now: Moment,
)
    requires
        bot.whisper is Some,
    ensures
        output_command(whispering, whisper_now) is None <==> whispering == whisper_now,
        output_command(whispering, whisper_now) matches Some(command) ==> bot.commanded(
            command,
            now,
        ).is_whispering() == whisper_now && bot.commanded(command, now).state == bot.state,
{
}

/// The display stands still just while the timer is stopped; then it says the same at any time.
pub proof fn law_display_stands_still_when_stopped(
    starts_at: Moment,
    elapsed: Duration,
    game_zero: Moment,
    now: Moment,
    later: Moment,
)
    ensures
        ticks(TimerState::Countdown { starts_at, elapsed }),
        ticks(TimerState::Running { game_zero }),
        !ticks(TimerState::Stopped),
        timer::status_text(TimerState::Stopped, now) == timer::status_text(
            TimerState::Stopped,
            later,
        ),
{
}

/// The line on the connection names the server, without the white space around it, once there is
/// a connection.
pub proof fn law_label_names_the_server(server: Seq<char>)
    ensures
        label_text(true, server) == "● connected to "@ + text::trimmed(server),
        label_text(false, server) == "● connecting …"@,
{
}

/// Once the GUI has taken in what a bot tells of its state, it shows that state.
pub proof fn law_gui_shows_what_the_bot_tells(status: BotStatus, bot: BotView)
    ensures
        told_all(status, bot.news()).timer == bot.state,
        told_all(status, bot.news()).whispering == bot.is_whispering(),
        told_all(status, bot.news()).connected == status.connected,
        ended(bot.news()) is None,
{
    reveal_with_fuel(told_all, 3);
    reveal_with_fuel(ended, 3);
    let news = bot.news();
    assert(news.drop_last().drop_last() =~= Seq::<BotEvent>::empty());
    assert(news.drop_last().last() == news[0]);
}

} // verus!
