//! The chat commands, and the times written in them.

use crate::clock;
use crate::clock::Duration;
use crate::number;
use crate::schedule::GAME_LENGTH_SECS;
use crate::text;
use vstd::prelude::*;
use vstd::string::*;

verus! {

/// Upper bound on the minutes of a time that a user writes.
pub const MAX_MINUTES: u64 = 1440;

/// A parsed chat command: either for the timer, or for the chat backend.
#[derive(Debug, Clone, Copy, PartialEq, Eq, Structural)]
pub enum Command {
    Timer(TimerCommand),
    /// Answered by the chat backend with its own help text.
    Help,
    /// Play into the bot's current channel.
    Channel,
    /// Whisper to the configured server group.
    Group,
}

/// A command that changes the timer or asks about it.
#[derive(Debug, Clone, Copy, PartialEq, Eq, Structural)]
pub enum TimerCommand {
    Start { elapsed: Duration, delay: Duration },
    Stop,
    Status,
}

/// A result whose error is taken as the text it holds.
pub open spec fn said<T>(r: Result<T, String>) -> Result<T, Seq<char>> {
    match r {
        Ok(value) => Ok(value),
        Err(text) => Err(text@),
    }
}

/// The reply to a text that is no time.
pub open spec fn invalid_time(text: Seq<char>) -> Seq<char> {
    "'"@ + text + "' is not a valid time; expected MM:SS"@
}

/// The reply to a time with too many minutes.
pub open spec fn oversized_time(text: Seq<char>) -> Seq<char> {
    "'"@ + text + "': number too large (max "@ + number::decimal(MAX_MINUTES as nat) + " minutes)"@
}

/// The span written in `text` as MM:SS: minutes and seconds around the first colon, fewer than
/// sixty seconds, and no more than `MAX_MINUTES` minutes.
pub open spec fn span_in(text: Seq<char>) -> Result<Duration, Seq<char>> {
    let colon = text::before(text, ':');
    if colon == text.len() {
        Err(invalid_time(text))
    } else {
        match (number::number_in(text.take(colon as int)), number::number_in(text.skip(colon as int + 1))) {
            (Some(min), Some(sec)) => if sec >= 60 {
                Err(invalid_time(text))
            } else if min > MAX_MINUTES {
                Err(oversized_time(text))
            } else {
                Ok(clock::whole_secs(min * 60 + sec))
            },
            _ => Err(invalid_time(text)),
        }
    }
}

/// The game time that has passed when the clock shows the MM:SS in `text`.
pub open spec fn game_time_in(text: Seq<char>) -> Result<Duration, Seq<char>> {
    match span_in(text) {
        Ok(shown) => if shown.nanos <= clock::whole_secs(GAME_LENGTH_SECS as nat).nanos {
            Ok(clock::whole_secs(GAME_LENGTH_SECS as nat).minus(shown))
        } else {
            Err("game time cannot exceed 30:00"@)
        },
        Err(reply) => Err(reply),
    }
}

/// The word "at", in any case.
pub open spec fn is_at(word: Seq<char>) -> bool {
    text::lower(word) == text::lower("at"@)
}

/// A start of the game at the time in `time`, after the delay in `delay`; each is left out
/// where there is none. The game time is looked at first.
pub open spec fn start_from(time: Option<Seq<char>>, delay: Option<Seq<char>>) -> Result<
    TimerCommand,
    Seq<char>,
> {
    let elapsed = match time {
        Some(text) => game_time_in(text),
        None => Ok(clock::whole_secs(0)),
    };
    let wait = match delay {
        Some(text) => span_in(text),
        None => Ok(clock::whole_secs(0)),
    };
    match (elapsed, wait) {
        (Ok(elapsed), Ok(delay)) => Ok(TimerCommand::Start { elapsed, delay }),
        (Err(reply), _) => Err(reply),
        (_, Err(reply)) => Err(reply),
    }
}

/// What follows "start": nothing, a delay, "at" and a time, or a delay, "at" and a time.
pub open spec fn start_in(args: Seq<Seq<char>>) -> Result<TimerCommand, Seq<char>> {
    if args.len() == 0 {
        start_from(None, None)
    } else if args.len() == 1 {
        start_from(None, Some(args[0]))
    } else if args.len() == 2 && is_at(args[0]) {
        start_from(Some(args[1]), None)
    } else if args.len() == 3 && is_at(args[1]) {
        start_from(Some(args[2]), Some(args[0]))
    } else {
        Err("usage: '!jungle start [MM:SS] [at MM:SS]'"@)
    }
}

/// What follows "set": a time.
pub open spec fn set_in(args: Seq<Seq<char>>) -> Result<TimerCommand, Seq<char>> {
    if args.len() == 1 {
        start_from(Some(args[0]), None)
    } else {
        Err("expected game time as MM:SS, e.g. '!jungle set 25:00'"@)
    }
}

/// A command for the timer, among all commands.
pub open spec fn for_timer(r: Result<TimerCommand, Seq<char>>) -> Result<Command, Seq<char>> {
    match r {
        Ok(command) => Ok(Command::Timer(command)),
        Err(reply) => Err(reply),
    }
}

/// The command that an action and the words behind it stand for. The action is in small
/// letters.
pub open spec fn action_in(action: Seq<char>, args: Seq<Seq<char>>) -> Result<Command, Seq<char>> {
    if action == "start"@ {
        for_timer(start_in(args))
    } else if action == "set"@ {
        for_timer(set_in(args))
    } else if action == "stop"@ {
        Ok(Command::Timer(TimerCommand::Stop))
    } else if action == "status"@ {
        Ok(Command::Timer(TimerCommand::Status))
    } else if action == "help"@ {
        Ok(Command::Help)
    } else if action == "channel"@ {
        Ok(Command::Channel)
    } else if action == "group"@ {
        Ok(Command::Group)
    } else {
        Err("unknown command '"@ + action + "'. Try '!jungle help'."@)
    }
}

/// The command in the words of a message, the exclamation mark left out: "jungle", an action
/// (help, if there is none), and what belongs to it.
pub open spec fn command_in_words(words: Seq<Seq<char>>) -> Option<
    Result<Command, Seq<char>>,
> {
    if words.len() == 0 || text::lower(words[0]) != text::lower("jungle"@) {
        None
    } else if words.len() == 1 {
        Some(action_in("help"@, seq![]))
    } else {
        Some(action_in(text::lower(words[1]), words.skip(2)))
    }
}

/// The command in a chat message: one is meant if the first character but white space is an
/// exclamation mark, and the first word behind it is "jungle".
pub open spec fn command_in(message: Seq<char>) -> Option<Result<Command, Seq<char>>> {
    let text = text::trimmed(message);
    if text.len() > 0 && text[0] == '!' {
        command_in_words(text::words_of(text.skip(1)))
    } else {
        None
    }
}

/// The text around the first colon.
fn split_at_colon<'a>(text: &'a str) -> (r: Option<(&'a str, &'a str)>)
    ensures
        r is None <==> text::before(text@, ':') == text@.len(),
        r matches Some((front, back)) ==> {
            let colon = text::before(text@, ':');
            &&& colon < text@.len()
            &&& front@ == text@.take(colon as int)
            &&& back@ == text@.skip(colon as int + 1)
        },
{
    let chars: Vec<char> = text::chars_of(text);
    let mut i: usize = 0;
    while i < chars.len()
        invariant
            i <= chars.len(),
            chars@ == text@,
            forall|j: int| 0 <= j < i ==> #[trigger] text@[j] != ':',
        decreases chars.len() - i,
    {
        if chars[i] == ':' {
            proof {
                text::lemma_before_is(text@, ':', i as int);
                assert(text@.subrange(0, i as int) == text@.take(i as int));
                assert(text@.subrange(i + 1, text@.len() as int) == text@.skip(i + 1));
            }
            return Some((text.substring_char(0, i), text.substring_char(i + 1, chars.len())));
        }
        i += 1;
    }
    proof {
        text::lemma_before_is(text@, ':', i as int);
    }
    None
}

/// The reply to a text that is no time.
fn invalid_reply(text: &str) -> (r: String)
    ensures
        r@ == invalid_time(text@),
{
    let mut out: String = "'".to_string();
    out.append(text);
    out.append("' is not a valid time; expected MM:SS");
    out
}

/// The reply to a time with too many minutes.
fn oversized_reply(text: &str) -> (r: String)
    ensures
        r@ == oversized_time(text@),
{
    let mut out: String = "'".to_string();
    out.append(text);
    out.append("': number too large (max ");
    number::push_decimal(&mut out, MAX_MINUTES);
    out.append(" minutes)");
    out
}

/// Reads a span written as MM:SS.
pub fn parse_mmss(text: &str) -> (r: Result<Duration, String>)
    ensures
        said(r) == span_in(text@),
{
    match split_at_colon(text) {
        None => Err(invalid_reply(text)),
        Some((min, sec)) => match (number::parse_number(min), number::parse_number(sec)) {
            (Some(m), Some(s)) => if s >= 60 {
                Err(invalid_reply(text))
            } else if m > MAX_MINUTES {
                Err(oversized_reply(text))
            } else {
                Ok(Duration::from_secs(m * 60 + s))
            },
            _ => Err(invalid_reply(text)),
        },
    }
}

/// Converts a game clock reading ("25:00 on the clock") into elapsed game time.
pub fn parse_gametime(text: &str) -> (r: Result<Duration, String>)
    ensures
        said(r) == game_time_in(text@),
{
    match parse_mmss(text) {
        Ok(shown) => match Duration::from_secs(GAME_LENGTH_SECS).checked_sub(shown) {
            Some(elapsed) => Ok(elapsed),
            None => Err("game time cannot exceed 30:00".to_string()),
        },
        Err(reply) => Err(reply),
    }
}

/// A start of the game at the clock time in `time`, after the delay in `delay`.
pub(crate) fn build_start(time: Option<&str>, delay: Option<&str>) -> (r: Result<
    TimerCommand,
    String,
>)
    ensures
        said(r) == start_from(
            match time {
                Some(text) => Some(text@),
                None => None,
            },
            match delay {
                Some(text) => Some(text@),
                None => None,
            },
        ),
{
    let elapsed: Duration = match time {
        Some(text) => match parse_gametime(text) {
            Ok(elapsed) => elapsed,
            Err(reply) => return Err(reply),
        },
        None => Duration::from_secs(0),
    };
    let delay: Duration = match delay {
        Some(text) => match parse_mmss(text) {
            Ok(delay) => delay,
            Err(reply) => return Err(reply),
        },
        None => Duration::from_secs(0),
    };
    Ok(TimerCommand::Start { elapsed, delay })
}

/// Reads what follows "start".
pub fn parse_start(args: &[&str]) -> (r: Result<TimerCommand, String>)
    ensures
        said(r) == start_in(text::texts(args@)),
{
    if args.len() == 0 {
        build_start(None, None)
    } else if args.len() == 1 {
        build_start(None, Some(args[0]))
    } else if args.len() == 2 && text::same_word(args[0], "at") {
        build_start(Some(args[1]), None)
    } else if args.len() == 3 && text::same_word(args[1], "at") {
        build_start(Some(args[2]), Some(args[0]))
    } else {
        Err("usage: '!jungle start [MM:SS] [at MM:SS]'".to_string())
    }
}

/// Reads what follows "set".
pub fn parse_set(args: &[&str]) -> (r: Result<TimerCommand, String>)
    ensures
        said(r) == set_in(text::texts(args@)),
{
    if args.len() == 1 {
        build_start(Some(args[0]), None)
    } else {
        Err("expected game time as MM:SS, e.g. '!jungle set 25:00'".to_string())
    }
}

/// A command for the timer, among all commands.
fn timer_command(r: Result<TimerCommand, String>) -> (out: Result<Command, String>)
    ensures
        said(out) == for_timer(said(r)),
{
    match r {
        Ok(command) => Ok(Command::Timer(command)),
        Err(reply) => Err(reply),
    }
}

/// The command that an action and the words behind it stand for.
fn parse_action(action: &str, args: &[&str]) -> (r: Result<Command, String>)
    ensures
        said(r) == action_in(action@, text::texts(args@)),
{
    if text::same_text(action, "start") {
        timer_command(parse_start(args))
    } else if text::same_text(action, "set") {
        timer_command(parse_set(args))
    } else if text::same_text(action, "stop") {
        Ok(Command::Timer(TimerCommand::Stop))
    } else if text::same_text(action, "status") {
        Ok(Command::Timer(TimerCommand::Status))
    } else if text::same_text(action, "help") {
        Ok(Command::Help)
    } else if text::same_text(action, "channel") {
        Ok(Command::Channel)
    } else if text::same_text(action, "group") {
        Ok(Command::Group)
    } else {
        let mut reply: String = "unknown command '".to_string();
        reply.append(action);
        reply.append("'. Try '!jungle help'.");
        Err(reply)
    }
}

/// Reads a chat message. Nothing, if it is not meant for the bot; else the command, or the
/// reply that says what is wrong with it.
pub fn parse_timer_command(message: &str) -> (r: Option<Result<Command, String>>)
    ensures
        r is Some <==> command_in(message@) is Some,
        r matches Some(command) ==> command_in(message@) == Some(said(command)),
{
    let text: &str = text::trim(message);
    let length: usize = text.unicode_len();
    if length == 0 || text.get_char(0) != '!' {
        return None;
    }
    assert(text@.subrange(1, text@.len() as int) == text@.skip(1));
    let parts: Vec<&str> = text::words(text.substring_char(1, length));
    if parts.len() == 0 || !text::same_word(parts[0], "jungle") {
        return None;
    }
    assert(text::texts(parts@)[0] == parts@[0]@);
    if parts.len() == 1 {
        let none: Vec<&str> = Vec::new();
        assert(text::texts(none@) == Seq::<Seq<char>>::empty());
        return Some(parse_action("help", none.as_slice()));
    }
    let action: String = text::to_lower(parts[1]);
    let mut rest: Vec<&str> = Vec::new();
    let mut i: usize = 2;
    while i < parts.len()
        invariant
            2 <= i <= parts.len(),
            rest@ == parts@.subrange(2, i as int),
        decreases parts.len() - i,
    {
        rest.push(parts[i]);
        i += 1;
    }
    assert(text::texts(rest@) == text::texts(parts@).skip(2));
    Some(parse_action(action.as_str(), rest.as_slice()))
}

/// Setting the timer to a time is starting it at that time, without delay.
pub proof fn law_set_is_start_at(at: Seq<char>, time: Seq<char>)
    requires
        is_at(at),
    ensures
        set_in(seq![time]) == start_in(seq![at, time]),
{
}

/// The case of the letters in "jungle" and in the action makes no difference.
pub proof fn law_case_makes_no_difference(words: Seq<Seq<char>>, others: Seq<Seq<char>>)
    requires
        words.len() == others.len(),
        words.len() > 0 ==> text::lower(words[0]) == text::lower(others[0]),
        words.len() > 1 ==> text::lower(words[1]) == text::lower(others[1]),
        words.skip(2) == others.skip(2),
    ensures
        command_in_words(words) == command_in_words(others),
{
}

/// A start that a user can ask for begins within the game, after a day and a minute at most.
pub proof fn law_starts_are_bounded(time: Option<Seq<char>>, delay: Option<Seq<char>>)
    ensures
        start_from(time, delay) matches Ok(command) ==> {
            &&& command matches TimerCommand::Start { elapsed, delay }
            &&& elapsed.nanos <= clock::whole_secs(GAME_LENGTH_SECS as nat).nanos
            &&& delay.nanos < clock::whole_secs(((MAX_MINUTES + 1) * 60) as nat).nanos
        },
{
}

} // verus!
