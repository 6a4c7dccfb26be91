//! What holds of the bot over a whole run: every sound that is due in a game reaches the queue
//! once and in order, and every sound on the queue is played once.

use crate::bot::{turn, BotView, Due};
use crate::bot_laws::{
    law_bot_begins_as_told, law_group_is_switched_to, law_sound_goes_where_it_should,
    lemma_turn_from, whispers_to,
};
use crate::clock::{Moment, NANOS_PER_SEC};
use crate::command::{Command, TimerCommand};
use crate::schedule;
use crate::schedule::Sound;
use crate::timer;
use crate::timer::TimerState;
use crate::ts3::WhisperScope;
use vstd::multiset::Multiset;
use vstd::prelude::*;

verus! {

/// One thing that happens to the bot.
pub enum Step {
    /// It goes on with its queue at this time, and settles what it waits for.
    Prepare(Moment),
    /// What it waits for fires.
    Deadline,
    /// It is given a command at this time.
    Given(Command, Moment),
}

/// The command is neither a start nor a stop, so it leaves the game alone.
pub open spec fn leaves_game_alone(command: Command) -> bool {
    match command {
        Command::Timer(TimerCommand::Start { .. }) => false,
        Command::Timer(TimerCommand::Stop) => false,
        _ => true,
    }
}

/// No step is a start or a stop.
pub open spec fn undisturbed(steps: Seq<Step>) -> bool {
    forall|i: int|
        0 <= i < steps.len() ==> (#[trigger] steps[i] matches Step::Given(command, _)
            ==> leaves_game_alone(command))
}

/// The bot after a step.
pub open spec fn after_step(bot: BotView, step: Step) -> BotView {
    match step {
        Step::Prepare(now) => bot.pumped(now).settled(),
        Step::Deadline => match bot.pending() {
            Some((_, due)) => bot.fired(due),
            None => bot,
        },
        Step::Given(command, now) => bot.commanded(command, now),
    }
}

/// The bot after all of the steps.
pub open spec fn after_steps(bot: BotView, steps: Seq<Step>) -> BotView
    decreases steps.len(),
{
    if steps.len() == 0 {
        bot
    } else {
        after_step(after_steps(bot, steps.drop_last()), steps.last())
    }
}

/// The sounds that a step puts behind those on the queue.
pub open spec fn queued_in(bot: BotView, step: Step) -> Seq<Sound> {
    let after = after_step(bot, step);
    if after.queue.len() > bot.queue.len() {
        after.queue.skip(bot.queue.len() as int)
    } else {
        seq![]
    }
}

/// All sounds that the steps put on the queue, in the order in which they do.
pub open spec fn queued(bot: BotView, steps: Seq<Step>) -> Seq<Sound>
    decreases steps.len(),
{
    if steps.len() == 0 {
        seq![]
    } else {
        queued(bot, steps.drop_last()) + queued_in(
            after_steps(bot, steps.drop_last()),
            steps.last(),
        )
    }
}

/// The sound whose clip starts in a step, if there is one.
pub open spec fn begun_in(bot: BotView, step: Step) -> Seq<Sound> {
    if bot.playback is None && after_step(bot, step).playback is Some {
        seq![bot.queue[turn(bot.queue)]]
    } else {
        seq![]
    }
}

/// All sounds whose clips start in the steps, in the order in which they do.
pub open spec fn begun(bot: BotView, steps: Seq<Step>) -> Seq<Sound>
    decreases steps.len(),
{
    if steps.len() == 0 {
        seq![]
    } else {
        begun(bot, steps.drop_last()) + begun_in(after_steps(bot, steps.drop_last()), steps.last())
    }
}

/// All sounds that are due after second `from` and up to second `to`, second by second.
pub open spec fn due_between(from: int, to: int) -> Seq<Sound>
    decreases to - from,
{
    if to <= from {
        seq![]
    } else {
        due_between(from, to - 1) + schedule::due(to)
    }
}

/// The second of the game at `at`.
pub open spec fn second_of(game_zero: Moment, at: Moment) -> int {
    at.since(game_zero).secs() as int
}

/// The game that began at `game_zero` runs, or it has stopped because nothing was owed any more.
spec fn in_game(bot: BotView, game_zero: Moment) -> bool {
    match bot.state {
        TimerState::Running { game_zero: zero } => zero == game_zero,
        TimerState::Stopped => timer::announcement_after(game_zero, bot.owed_from) is None,
        TimerState::Countdown { .. } => false,
    }
}

proof fn lemma_silence_adds_nothing(from: int, middle: int, to: int)
    requires
        from <= middle <= to,
        forall|b: int| middle < b <= to ==> (#[trigger] schedule::due(b)).len() == 0,
    ensures
        due_between(from, to) == due_between(from, middle),
    decreases to - middle,
{
    if middle < to {
        lemma_silence_adds_nothing(from, middle, to - 1);
        assert(schedule::due(to).len() == 0);
        assert(due_between(from, to) =~= due_between(from, to - 1));
    }
}

proof fn lemma_due_joins(from: int, middle: int, to: int)
    requires
        from <= middle <= to,
    ensures
        due_between(from, to) == due_between(from, middle) + due_between(middle, to),
    decreases to - middle,
{
    if middle < to {
        lemma_due_joins(from, middle, to - 1);
    }
    assert(due_between(from, to) =~= due_between(from, middle) + due_between(middle, to));
}

/// A step queues what is due between the second that was owed from and the one that is now.
proof fn lemma_step_queues_what_is_due(bot: BotView, step: Step, game_zero: Moment)
    requires
        in_game(bot, game_zero),
        game_zero.nanos <= timer::LATEST_START,
        step matches Step::Given(command, _) ==> leaves_game_alone(command),
    ensures
        in_game(after_step(bot, step), game_zero),
        bot.owed_from.nanos <= after_step(bot, step).owed_from.nanos,
        second_of(game_zero, bot.owed_from) <= second_of(
            game_zero,
            after_step(bot, step).owed_from,
        ),
        queued_in(bot, step) == due_between(
            second_of(game_zero, bot.owed_from),
            second_of(game_zero, after_step(bot, step).owed_from),
        ),
{
    let after = after_step(bot, step);
    let from = second_of(game_zero, bot.owed_from);
    lemma_turn_from(bot.queue, 0);
    timer::law_announcement_is_ahead(game_zero, bot.owed_from);
    schedule::law_next_is_first(from);
    match (step, bot.pending()) {
        (Step::Deadline, Some((_, Due::Announce { .. }))) => {
            let to = second_of(game_zero, after.owed_from);
            lemma_silence_adds_nothing(from, from, to - 1);
            assert(queued_in(bot, step) =~= schedule::due(to));
            assert(due_between(from, to) =~= schedule::due(to));
        },
        _ => {
            assert(after.queue.len() <= bot.queue.len());
        },
    }
}

/// In a game that nobody starts anew or stops, whatever else happens and whenever it does, the
/// queue receives all that is due in each second, once and in order, up to the second of the
/// last announcement that fired. What is due after it is still owed: once the bot waits for
/// nothing that comes up to the moment `until`, everything up to that second has been queued.
pub proof fn law_run_queues_what_is_due(
    bot: BotView,
    steps: Seq<Step>,
    game_zero: Moment,
    until: Moment,
)
    requires
        bot.wf(),
        bot.state == (TimerState::Running { game_zero }),
        undisturbed(steps),
    ensures
        ({
            let then = after_steps(bot, steps);
            let from = second_of(game_zero, bot.owed_from);
            &&& bot.owed_from.nanos <= then.owed_from.nanos
            &&& queued(bot, steps) == due_between(from, second_of(game_zero, then.owed_from))
            &&& then.owed_from.nanos <= until.nanos && (then.transition() matches Some((at, _))
                ==> until.nanos < at.nanos) ==> queued(bot, steps) == due_between(
                from,
                second_of(game_zero, until),
            )
            &&& then.state == bot.state || (then.state is Stopped && forall|second: int|
                second > second_of(game_zero, then.owed_from) ==> (#[trigger] schedule::due(
                    second,
                )).len() == 0)
        }),
{
    lemma_run(bot, steps, game_zero);
    let then = after_steps(bot, steps);
    let from = second_of(game_zero, bot.owed_from);
    let last = second_of(game_zero, then.owed_from);
    schedule::law_next_is_first(last);
    if then.owed_from.nanos <= until.nanos && (then.transition() matches Some((at, _))
        ==> until.nanos < at.nanos) {
        let to = second_of(game_zero, until);
        if let Some((at, _)) = schedule::next_due(last) {
            assert(until.nanos < game_zero.nanos + at * NANOS_PER_SEC);
            assert(to < at);
        }
        lemma_silence_adds_nothing(from, last, to);
    }
}

proof fn lemma_run(bot: BotView, steps: Seq<Step>, game_zero: Moment)
    requires
        bot.wf(),
        bot.state == (TimerState::Running { game_zero }),
        undisturbed(steps),
    ensures
        in_game(after_steps(bot, steps), game_zero),
        bot.owed_from.nanos <= after_steps(bot, steps).owed_from.nanos,
        second_of(game_zero, bot.owed_from) <= second_of(
            game_zero,
            after_steps(bot, steps).owed_from,
        ),
        queued(bot, steps) == due_between(
            second_of(game_zero, bot.owed_from),
            second_of(game_zero, after_steps(bot, steps).owed_from),
        ),
    decreases steps.len(),
{
    if steps.len() > 0 {
        let before = after_steps(bot, steps.drop_last());
        assert(undisturbed(steps.drop_last())) by {
            assert forall|i: int| 0 <= i < steps.drop_last().len() implies (
            #[trigger] steps.drop_last()[i] matches Step::Given(command, _) ==> leaves_game_alone(
                command,
            )) by {
                assert(steps.drop_last()[i] == steps[i]);
            }
        }
        lemma_run(bot, steps.drop_last(), game_zero);
        assert(steps.last() == steps[steps.len() - 1]);
        lemma_step_queues_what_is_due(before, steps.last(), game_zero);
        lemma_due_joins(
            second_of(game_zero, bot.owed_from),
            second_of(game_zero, before.owed_from),
            second_of(game_zero, after_steps(bot, steps).owed_from),
        );
    }
}

proof fn lemma_step_keeps_sounds(bot: BotView, step: Step)
    requires
        step matches Step::Given(command, _) ==> command != Command::Timer(TimerCommand::Stop),
    ensures
        bot.queue.to_multiset().add(queued_in(bot, step).to_multiset()) == begun_in(
            bot,
            step,
        ).to_multiset().add(after_step(bot, step).queue.to_multiset()),
{
    broadcast use vstd::seq_lib::group_to_multiset_ensures;
    let after = after_step(bot, step);
    let none = Seq::<Sound>::empty().to_multiset();
    assert(none =~= Multiset::empty());
    lemma_turn_from(bot.queue, 0);
    if after.queue.len() > bot.queue.len() {
        let added = queued_in(bot, step);
        assert(after.queue =~= bot.queue + added);
        vstd::seq_lib::lemma_multiset_commutative(bot.queue, added);
    } else if begun_in(bot, step).len() > 0 {
        let k = turn(bot.queue);
        let sound = bot.queue[k];
        assert(seq![sound] =~= Seq::<Sound>::empty().push(sound));
        assert(bot.queue.to_multiset().count(sound) > 0);
        assert(bot.queue.to_multiset() =~= seq![sound].to_multiset().add(
            after.queue.to_multiset(),
        ));
    } else {
        assert(after.queue =~= bot.queue);
    }
    assert(bot.queue.to_multiset().add(queued_in(bot, step).to_multiset()) =~= begun_in(
        bot,
        step,
    ).to_multiset().add(after.queue.to_multiset()));
}

/// As long as nobody stops the timer, every sound that was on the queue or came to it either has
/// started to play, once, or is still on the queue: none is lost, and none plays twice.
pub proof fn law_queued_sounds_play_once(bot: BotView, steps: Seq<Step>)
    requires
        forall|i: int|
            0 <= i < steps.len() ==> (#[trigger] steps[i] matches Step::Given(command, _)
                ==> command != Command::Timer(TimerCommand::Stop)),
    ensures
        bot.queue.to_multiset().add(queued(bot, steps).to_multiset()) == begun(
            bot,
            steps,
        ).to_multiset().add(after_steps(bot, steps).queue.to_multiset()),
    decreases steps.len(),
{
    broadcast use vstd::seq_lib::group_to_multiset_ensures;
    if steps.len() == 0 {
        assert(Seq::<Sound>::empty().to_multiset() =~= Multiset::empty());
        assert(bot.queue.to_multiset().add(queued(bot, steps).to_multiset()) =~= begun(
            bot,
            steps,
        ).to_multiset().add(after_steps(bot, steps).queue.to_multiset()));
    } else {
        let fewer = steps.drop_last();
        let before = after_steps(bot, fewer);
        assert forall|i: int| 0 <= i < fewer.len() implies (#[trigger] fewer[i] matches Step::Given(
            command,
            _,
        ) ==> command != Command::Timer(TimerCommand::Stop)) by {
            assert(fewer[i] == steps[i]);
        }
        law_queued_sounds_play_once(bot, fewer);
        assert(steps.last() == steps[steps.len() - 1]);
        lemma_step_keeps_sounds(before, steps.last());
        vstd::seq_lib::lemma_multiset_commutative(
            queued(bot, fewer),
            queued_in(before, steps.last()),
        );
        vstd::seq_lib::lemma_multiset_commutative(
            begun(bot, fewer),
            begun_in(before, steps.last()),
        );
        let came = queued(bot, fewer).to_multiset();
        let comes = queued_in(before, steps.last()).to_multiset();
        let began = begun(bot, fewer).to_multiset();
        let begins = begun_in(before, steps.last()).to_multiset();
        let then = after_steps(bot, steps).queue.to_multiset();
        assert(queued(bot, steps).to_multiset() == came.add(comes));
        assert(begun(bot, steps).to_multiset() == began.add(begins));
        let first = bot.queue.to_multiset();
        let between = before.queue.to_multiset();
        assert(first.add(came.add(comes)) =~= first.add(came).add(comes));
        assert(began.add(between).add(comes) =~= began.add(between.add(comes)));
        assert(began.add(begins.add(then)) =~= began.add(begins).add(then));
    }
}

/// In a game that nobody starts anew or stops, every sound that is due plays exactly once,
/// whatever else happens and whenever it does: once the queue is empty and the bot waits for
/// nothing that comes up to the moment `until`, the clips that started are those of the sounds
/// that were on the queue at first, and of all that is due up to that second.
pub proof fn law_every_due_sound_plays_once(
    bot: BotView,
    steps: Seq<Step>,
    game_zero: Moment,
    until: Moment,
)
    requires
        bot.wf(),
        bot.state == (TimerState::Running { game_zero }),
        undisturbed(steps),
        after_steps(bot, steps).queue.len() == 0,
        after_steps(bot, steps).owed_from.nanos <= until.nanos,
        after_steps(bot, steps).transition() matches Some((at, _)) ==> until.nanos < at.nanos,
    ensures
        begun(bot, steps).to_multiset() == (bot.queue + due_between(
            second_of(game_zero, bot.owed_from),
            second_of(game_zero, until),
        )).to_multiset(),
{
    broadcast use vstd::seq_lib::group_to_multiset_ensures;
    assert forall|i: int| 0 <= i < steps.len() implies (#[trigger] steps[i] matches Step::Given(
        command,
        _,
    ) ==> command != Command::Timer(TimerCommand::Stop)) by {}
    law_run_queues_what_is_due(bot, steps, game_zero, until);
    law_queued_sounds_play_once(bot, steps);
    vstd::seq_lib::lemma_multiset_commutative(bot.queue, queued(bot, steps));
    assert(after_steps(bot, steps).queue.to_multiset() =~= Multiset::empty());
    assert(begun(bot, steps).to_multiset().add(Multiset::empty()) =~= begun(
        bot,
        steps,
    ).to_multiset());
}

/// No step switches the output.
pub open spec fn unswitched(steps: Seq<Step>) -> bool {
    forall|i: int|
        0 <= i < steps.len() ==> (#[trigger] steps[i] matches Step::Given(command, _)
            ==> !(command is Channel) && !(command is Group))
}

/// Whatever happens, the bot keeps its clips and its groups; and it keeps the target of its sound
/// as long as nobody switches it.
pub proof fn law_run_keeps_settings(bot: BotView, steps: Seq<Step>)
    ensures
        after_steps(bot, steps).clips == bot.clips,
        after_steps(bot, steps).whisper == bot.whisper,
        after_steps(bot, steps).zeal_group == bot.zeal_group,
        unswitched(steps) ==> after_steps(bot, steps).target == bot.target,
    decreases steps.len(),
{
    if steps.len() > 0 {
        let fewer = steps.drop_last();
        law_run_keeps_settings(bot, fewer);
        assert(steps.last() == steps[steps.len() - 1]);
        if unswitched(steps) {
            assert forall|i: int| 0 <= i < fewer.len() implies (
            #[trigger] fewer[i] matches Step::Given(command, _) ==> !(command is Channel) && !(
            command is Group)) by {
                assert(fewer[i] == steps[i]);
            }
        }
    }
}

/// A bot that was made with a server group whispers every sound to that group, in all channels or
/// only in the current one, as it was told, until somebody switches to the channel; and once
/// it is told to switch to its group, it does so again. Zeal with a group of its own is always
/// whispered to that one, in the same channels.
pub proof fn law_group_bot_whispers_to_its_group(
    id: u64,
    zeal: Option<u64>,
    scope: WhisperScope,
    clips: Seq<(Sound, Seq<Seq<u8>>)>,
    steps: Seq<Step>,
    later: Seq<Step>,
    now: Moment,
)
    requires
        unswitched(later),
    ensures
        ({
            let made = BotView::fresh(Some(id), zeal, scope, clips);
            let told = after_step(after_steps(made, steps), Step::Given(Command::Group, now));
            &&& whispers_next(after_steps(made, later), now, id, zeal, scope)
            &&& whispers_next(after_steps(told, later), now, id, zeal, scope)
        }),
{
    let made = BotView::fresh(Some(id), zeal, scope, clips);
    let told = after_step(after_steps(made, steps), Step::Given(Command::Group, now));
    law_run_keeps_settings(made, steps);
    law_run_keeps_settings(made, later);
    law_run_keeps_settings(told, later);
    law_bot_begins_as_told(Some(id), zeal, scope, clips);
    law_group_is_switched_to(after_steps(made, steps), now);
    let one = after_steps(made, later);
    let other = after_steps(told, later);
    if one.playback is None && one.queue.len() > 0 {
        law_sound_goes_where_it_should(one, now);
    }
    if other.playback is None && other.queue.len() > 0 {
        law_sound_goes_where_it_should(other, now);
    }
}

/// If the line is free and a sound waits, the first packet of the next sound is a whisper: to the
/// group of zeal if it is zeal and there is one, and else to the group `id`.
pub open spec fn whispers_next(
    bot: BotView,
    now: Moment,
    id: u64,
    zeal: Option<u64>,
    scope: WhisperScope,
) -> bool {
    bot.playback is None && bot.queue.len() > 0 ==> (bot.pumped(now).fired_packet(
        Due::Frame,
    ) matches Some(packet) && whispers_to(
        packet,
        match (bot.queue[turn(bot.queue)], zeal) {
            (Sound::Zeal, Some(zeal_id)) => zeal_id,
            _ => id,
        },
        scope,
    ))
}

} // verus!
