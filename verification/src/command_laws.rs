//! What holds of the chat commands: how times are read, and which words stand for what.

use crate::clock::Duration;
use crate::command::{
    action_in, command_in, command_in_words, for_timer, game_time_in, said, set_in, span_in,
    start_in, Command, TimerCommand,
};
use crate::number;
use crate::text;
use vstd::prelude::*;
use vstd::string::*;

verus! {

/// What a result says is its value, or the text of its error, whole.
pub proof fn law_results_say_what_they_hold<T>(value: T, error: String)
    ensures
        said(Ok::<T, String>(value)) == Ok::<T, Seq<char>>(value),
        said(Err::<T, String>(error)) == Err::<T, Seq<char>>(error@),
{
}

/// A time is minutes, a colon and seconds: it is worth sixty seconds for each minute and one for
/// each second. It is one just if both are numbers, the seconds below 60 and the minutes no more
/// than 1440; too many minutes are told apart from everything else that is wrong.
pub proof fn law_span_is_minutes_and_seconds(min: Seq<char>, sec: Seq<char>)
    requires
        forall|i: int| 0 <= i < min.len() ==> #[trigger] min[i] != ':',
    ensures
        ({
            let text = min + seq![':'] + sec;
            match (number::number_in(min), number::number_in(sec)) {
                (Some(m), Some(s)) => {
                    &&& s < 60 && m <= 1440 ==> (span_in(text) matches Ok(span) && span.nanos
                        == (m * 60 + s) * 1_000_000_000)
                    &&& s < 60 && m > 1440 ==> span_in(text) == Err::<Duration, Seq<char>>(
                        "'"@ + text + "': number too large (max 1440 minutes)"@,
                    )
                    &&& s >= 60 ==> span_in(text) == Err::<Duration, Seq<char>>(
                        "'"@ + text + "' is not a valid time; expected MM:SS"@,
                    )
                },
                _ => span_in(text) == Err::<Duration, Seq<char>>(
                    "'"@ + text + "' is not a valid time; expected MM:SS"@,
                ),
            }
        }),
{
    let text = min + seq![':'] + sec;
    let colon = min.len() as int;
    assert(text[colon] == ':');
    assert forall|i: int| 0 <= i < colon implies #[trigger] text[i] != ':' by {
        assert(text[i] == min[i]);
    }
    text::lemma_before_is(text, ':', colon);
    assert(text.take(colon) =~= min);
    assert(text.skip(colon + 1) =~= sec);
    reveal_strlit("': number too large (max ");
    reveal_strlit(" minutes)");
    reveal_strlit("': number too large (max 1440 minutes)");
    reveal_with_fuel(number::decimal, 5);
    assert(number::decimal(1440) =~= seq!['1', '4', '4', '0']);
    assert("'"@ + text + "': number too large (max "@ + number::decimal(1440) + " minutes)"@
        =~= "'"@ + text + "': number too large (max 1440 minutes)"@);
}

/// A text without a colon is no time.
pub proof fn law_span_needs_a_colon(text: Seq<char>)
    requires
        forall|i: int| 0 <= i < text.len() ==> #[trigger] text[i] != ':',
    ensures
        span_in(text) == Err::<Duration, Seq<char>>(
            "'"@ + text + "' is not a valid time; expected MM:SS"@,
        ),
{
    text::lemma_before_is(text, ':', text.len() as int);
}

/// The game clock counts down: the time that it shows and the time that has passed make up 30
/// minutes. A clock time is one just if it is a time of no more than 30 minutes.
pub proof fn law_game_clock_counts_down(text: Seq<char>)
    ensures
        match span_in(text) {
            Ok(shown) => if shown.nanos <= 1_800_000_000_000 {
                game_time_in(text) matches Ok(over) && over.nanos + shown.nanos
                    == 1_800_000_000_000
            } else {
                game_time_in(text) == Err::<Duration, Seq<char>>("game time cannot exceed 30:00"@)
            },
            Err(reply) => game_time_in(text) == Err::<Duration, Seq<char>>(reply),
        },
{
}

proof fn lemma_at()
    ensures
        text::lower("at"@) == "at"@,
{
    reveal_strlit("at");
    assert(text::lower("at"@) =~= "at"@);
}

/// What may follow "start": nothing starts at 30:00 now; one word is the delay; "at" stands
/// before the clock time, with or without a delay in front. What one of the words leaves open
/// is zero. If both times are wrong, the reply is about the clock time.
pub proof fn law_start_takes_delay_and_clock_time(
    delay: Seq<char>,
    at: Seq<char>,
    time: Seq<char>,
)
    requires
        text::lower(at) == "at"@,
    ensures
        start_in(seq![]) == Ok::<TimerCommand, Seq<char>>(
            TimerCommand::Start { elapsed: Duration { nanos: 0 }, delay: Duration { nanos: 0 } },
        ),
        match span_in(delay) {
            Ok(wait) => start_in(seq![delay]) == Ok::<TimerCommand, Seq<char>>(
                TimerCommand::Start { elapsed: Duration { nanos: 0 }, delay: wait },
            ),
            Err(reply) => start_in(seq![delay]) == Err::<TimerCommand, Seq<char>>(reply),
        },
        match game_time_in(time) {
            Ok(over) => start_in(seq![at, time]) == Ok::<TimerCommand, Seq<char>>(
                TimerCommand::Start { elapsed: over, delay: Duration { nanos: 0 } },
            ),
            Err(reply) => start_in(seq![at, time]) == Err::<TimerCommand, Seq<char>>(reply),
        },
        match (game_time_in(time), span_in(delay)) {
            (Ok(over), Ok(wait)) => start_in(seq![delay, at, time]) == Ok::<
                TimerCommand,
                Seq<char>,
            >(TimerCommand::Start { elapsed: over, delay: wait }),
            (Err(reply), _) => start_in(seq![delay, at, time]) == Err::<TimerCommand, Seq<char>>(
                reply,
            ),
            (_, Err(reply)) => start_in(seq![delay, at, time]) == Err::<TimerCommand, Seq<char>>(
                reply,
            ),
        },
{
    lemma_at();
}

/// "set" takes one word, the clock time; the timer starts there without delay.
pub proof fn law_set_takes_clock_time(time: Seq<char>, others: Seq<Seq<char>>)
    requires
        others.len() != 1,
    ensures
        match game_time_in(time) {
            Ok(over) => set_in(seq![time]) == Ok::<TimerCommand, Seq<char>>(
                TimerCommand::Start { elapsed: over, delay: Duration { nanos: 0 } },
            ),
            Err(reply) => set_in(seq![time]) == Err::<TimerCommand, Seq<char>>(reply),
        },
        set_in(others) == Err::<TimerCommand, Seq<char>>(
            "expected game time as MM:SS, e.g. '!jungle set 25:00'"@,
        ),
{
}

/// Words behind "start" that fit none of its forms are answered with how it is used.
pub proof fn law_start_refuses_other_words(args: Seq<Seq<char>>)
    requires
        args.len() >= 2,
        args.len() == 2 ==> text::lower(args[0]) != "at"@,
        args.len() == 3 ==> text::lower(args[1]) != "at"@,
    ensures
        start_in(args) == Err::<TimerCommand, Seq<char>>(
            "usage: '!jungle start [MM:SS] [at MM:SS]'"@,
        ),
{
    lemma_at();
}

proof fn lemma_actions_differ()
    ensures
        "start"@ != "set"@,
        "stop"@ != "start"@,
        "stop"@ != "set"@,
        "status"@ != "start"@,
        "status"@ != "set"@,
        "status"@ != "stop"@,
        "help"@ != "start"@,
        "help"@ != "set"@,
        "help"@ != "stop"@,
        "help"@ != "status"@,
        "channel"@ != "start"@,
        "channel"@ != "set"@,
        "channel"@ != "stop"@,
        "channel"@ != "status"@,
        "channel"@ != "help"@,
        "group"@ != "start"@,
        "group"@ != "set"@,
        "group"@ != "stop"@,
        "group"@ != "status"@,
        "group"@ != "help"@,
        "group"@ != "channel"@,
{
    reveal_strlit("start");
    reveal_strlit("set");
    reveal_strlit("stop");
    reveal_strlit("status");
    reveal_strlit("help");
    reveal_strlit("channel");
    reveal_strlit("group");
    assert("start"@.len() == 5 && "set"@.len() == 3 && "stop"@.len() == 4 && "status"@.len() == 6
        && "help"@.len() == 4 && "channel"@.len() == 7 && "group"@.len() == 5);
    assert("stop"@[0] != "help"@[0]);
    assert("group"@[0] != "start"@[0]);
}

/// The words of a message that is meant for the bot: "jungle" and an action, in whatever case,
/// and what belongs to it. What follows any action but "start" and "set" is of no account, and
/// "jungle" alone asks for help.
pub proof fn law_words_name_the_command(words: Seq<Seq<char>>)
    requires
        words.len() > 0,
        text::lower(words[0]) == "jungle"@,
    ensures
        words.len() == 1 ==> command_in_words(words) == Some(Ok::<Command, Seq<char>>(Command::Help)),
        words.len() >= 2 ==> ({
            let action = text::lower(words[1]);
            let args = words.skip(2);
            let command = command_in_words(words);
            &&& action == "start"@ ==> match start_in(args) {
                Ok(start) => command == Some(Ok::<Command, Seq<char>>(Command::Timer(start))),
                Err(reply) => command == Some(Err::<Command, Seq<char>>(reply)),
            }
            &&& action == "set"@ ==> match set_in(args) {
                Ok(start) => command == Some(Ok::<Command, Seq<char>>(Command::Timer(start))),
                Err(reply) => command == Some(Err::<Command, Seq<char>>(reply)),
            }
            &&& action == "stop"@ <==> command == Some(
                Ok::<Command, Seq<char>>(Command::Timer(TimerCommand::Stop)),
            )
            &&& action == "status"@ <==> command == Some(
                Ok::<Command, Seq<char>>(Command::Timer(TimerCommand::Status)),
            )
            &&& action == "help"@ <==> command == Some(Ok::<Command, Seq<char>>(Command::Help))
            &&& action == "channel"@ <==> command == Some(
                Ok::<Command, Seq<char>>(Command::Channel),
            )
            &&& action == "group"@ <==> command == Some(Ok::<Command, Seq<char>>(Command::Group))
            &&& !seq![
                "start"@, "set"@, "stop"@, "status"@, "help"@, "channel"@, "group"@,
            ].contains(action) ==> command == Some(
                Err::<Command, Seq<char>>(
                    "unknown command '"@ + action + "'. Try '!jungle help'."@,
                ),
            )
        }),
{
    lemma_actions_differ();
    lemma_jungle();
    let known = seq!["start"@, "set"@, "stop"@, "status"@, "help"@, "channel"@, "group"@];
    assert(known[0] == "start"@ && known[1] == "set"@ && known[2] == "stop"@ && known[3]
        == "status"@ && known[4] == "help"@ && known[5] == "channel"@ && known[6] == "group"@);
}

proof fn lemma_jungle()
    ensures
        text::lower("jungle"@) == "jungle"@,
{
    reveal_strlit("jungle");
    assert(text::lower("jungle"@) =~= "jungle"@);
}

/// A message whose first word is not "jungle", in whatever case, is not meant for the bot.
pub proof fn law_only_jungle_is_meant(words: Seq<Seq<char>>)
    requires
        words.len() > 0 ==> text::lower(words[0]) != "jungle"@,
    ensures
        command_in_words(words) is None,
{
    lemma_jungle();
}

/// A message is meant for the bot only if an exclamation mark comes first, but for white space;
/// then the words behind it count, whatever white space stands around them.
pub proof fn law_message_starts_with_exclamation_mark(
    front: Seq<char>,
    first: char,
    body: Seq<char>,
)
    requires
        text::blank(front),
        !text::white_space(first),
    ensures
        command_in(front) is None,
        first == '!' ==> command_in(front + seq![first] + body) == command_in_words(
            text::words_of(body),
        ),
        first != '!' ==> command_in(front + seq![first] + body) is None,
{
    let none = Seq::<char>::empty();
    text::law_trimming_leaves_the_text(front, none, none);
    assert(front + none + none =~= front);
    let (kept, back) = text::lemma_last_white_space(body);
    let inner = seq![first] + kept;
    assert(inner.last() == if kept.len() > 0 {
        kept.last()
    } else {
        first
    });
    text::law_trimming_leaves_the_text(front, inner, back);
    assert(front + inner + back =~= front + seq![first] + body);
    assert(inner.skip(1) =~= kept);
}

} // verus!
