//! What holds of the bot, whatever it goes through.

use crate::bot::{
    bytes_of, clip_bytes, clip_from, clip_of, command_fits, covers_schedule, scheduled, target_of,
    turn, turn_from, BotView, Due, GuiCommand, Playback, FRAME_NANOS, HELP,
};
use crate::clock::{Duration, Moment, LATEST_READING};
use crate::command;
use crate::command::{Command, TimerCommand};
use crate::config::ArgsView;
use crate::number;
use crate::schedule;
use crate::schedule::Sound;
use crate::timer;
use crate::timer::TimerState;
use crate::ts3;
use crate::ts3::{PlaybackTarget, WhisperScope};
use vstd::prelude::*;
use vstd::string::*;

verus! {

/// The one whose turn it is stands on the queue; it is the first warning, or else the first of
/// all, when no warning waits.
pub(crate) proof fn lemma_turn_from(queue: Seq<Sound>, from: int)
    requires
        0 <= from <= queue.len(),
        forall|j: int| 0 <= j < from ==> !(#[trigger] queue[j] is Jungle),
    ensures
        queue.len() > 0 ==> 0 <= turn_from(queue, from) < queue.len(),
        queue.len() > 0 ==> match queue[turn_from(queue, from)] {
            Sound::Jungle(_) => forall|j: int|
                0 <= j < turn_from(queue, from) ==> !(#[trigger] queue[j] is Jungle),
            Sound::Zeal => turn_from(queue, from) == 0 && forall|j: int|
                0 <= j < queue.len() ==> !(#[trigger] queue[j] is Jungle),
        },
    decreases queue.len() - from,
{
    if from < queue.len() && !(queue[from] is Jungle) {
        lemma_turn_from(queue, from + 1);
    }
}

/// When the line is free, the first jungle warning on the queue plays; zeal plays only when no
/// warning waits, and then the first one does.
pub proof fn law_warnings_play_before_zeal(bot: BotView, now: Moment)
    requires
        bot.wf(),
        bot.playback is None,
        bot.queue.len() > 0,
    ensures
        bot.pumped(now).playback matches Some(p) && {
            let k = turn(bot.queue);
            &&& 0 <= k < bot.queue.len()
            &&& bot.pumped(now).queue == bot.queue.remove(k)
            &&& bot.queue[k] is Jungle ==> forall|j: int|
                0 <= j < k ==> !(#[trigger] bot.queue[j] is Jungle)
            &&& bot.queue[k] is Zeal ==> k == 0 && forall|j: int|
                0 <= j < bot.queue.len() ==> !(#[trigger] bot.queue[j] is Jungle)
        },
{
    lemma_turn_from(bot.queue, 0);
}

proof fn lemma_clip_from(clips: Seq<(Sound, Seq<Seq<u8>>)>, sound: Sound, from: int)
    requires
        0 <= from <= clips.len(),
    ensures
        from <= clip_from(clips, sound, from) <= clips.len(),
        forall|i: int|
            from <= i < clip_from(clips, sound, from) ==> (#[trigger] clips[i]).0 != sound,
        clip_from(clips, sound, from) < clips.len() ==> clips[clip_from(clips, sound, from)].0
            == sound,
        clip_from(clips, sound, from) == clips.len() ==> forall|i: int|
            from <= i < clips.len() ==> (#[trigger] clips[i]).0 != sound,
    decreases clips.len() - from,
{
    if from < clips.len() && clips[from].0 != sound {
        lemma_clip_from(clips, sound, from + 1);
    }
}

/// A set of clips covers the schedule if for each of its sounds there is one.
pub proof fn law_clips_that_cover(clips: Seq<(Sound, Seq<Seq<u8>>)>)
    requires
        forall|sound: Sound| #[trigger]
            scheduled(sound) ==> exists|i: int|
                0 <= i < clips.len() && (#[trigger] clips[i]).0 == sound,
    ensures
        covers_schedule(clips),
{
    assert forall|sound: Sound| #[trigger] scheduled(sound) implies clip_of(clips, sound)
        < clips.len() by {
        lemma_clip_from(clips, sound, 0);
    }
}

/// A sound that starts plays the first clip made for it, from the first frame, right away. Zeal
/// goes to its own group when there is one; every other sound goes to the target of the bot.
pub proof fn law_sound_plays_its_clip(bot: BotView, now: Moment)
    requires
        bot.wf(),
        bot.playback is None,
        bot.queue.len() > 0,
    ensures
        bot.pumped(now).playback matches Some(p) && {
            let sound = bot.queue[turn(bot.queue)];
            &&& p.clip < bot.clips.len()
            &&& bot.clips[p.clip as int].0 == sound
            &&& forall|i: int| 0 <= i < p.clip ==> (#[trigger] bot.clips[i]).0 != sound
            &&& p.idx == 0
            &&& p.next_at == now
            &&& p.target == (if sound is Zeal && bot.zeal_group is Some {
                target_of(bot.zeal_group)
            } else {
                bot.target
            })
        },
{
    lemma_turn_from(bot.queue, 0);
    let sound = bot.queue[turn(bot.queue)];
    assert(scheduled(sound));
    lemma_clip_from(bot.clips, sound, 0);
}

/// Stopping silences the bot: the clip that plays is broken off with an empty frame to where it
/// went, nothing stays on the queue, and the timer is stopped.
pub proof fn law_stop_silences(bot: BotView, now: Moment)
    ensures
        ({
            let stop = Command::Timer(TimerCommand::Stop);
            let after = bot.commanded(stop, now);
            &&& after.state is Stopped
            &&& after.playback is None
            &&& after.queue.len() == 0
            &&& after.pending() is None
            &&& bot.command_packet(stop) == (match bot.playback {
                Some(p) => Some(ts3::packet_for(p.target, seq![])),
                None => None,
            })
        }),
{
}

/// Commands other than stopping leave the clip that plays and the queue alone, and send no
/// audio.
pub proof fn law_only_stop_breaks_off(bot: BotView, command: Command, now: Moment)
    requires
        command != Command::Timer(TimerCommand::Stop),
    ensures
        bot.commanded(command, now).playback == bot.playback,
        bot.commanded(command, now).queue == bot.queue,
        bot.command_packet(command) is None,
{
}

/// Switching between channel and group goes back and forth, and leaves the timer alone. Without
/// a configured group, asking for it changes nothing.
pub proof fn law_target_switches(bot: BotView, now: Moment)
    ensures
        bot.commanded(Command::Channel, now) == (BotView {
            target: PlaybackTarget::CurrentChannel,
            ..bot
        }),
        bot.whisper is Some ==> bot.commanded(Command::Channel, now).commanded(
            Command::Group,
            now,
        ) == (BotView { target: target_of(bot.whisper), ..bot }),
        bot.whisper is Some ==> bot.commanded(Command::Group, now).is_whispering(),
        bot.whisper is None ==> bot.commanded(Command::Group, now) == bot,
{
}

/// The bot after so many frames were due.
pub open spec fn after_frames(bot: BotView, count: nat) -> BotView
    decreases count,
{
    if count == 0 {
        bot
    } else {
        after_frames(bot, (count - 1) as nat).fired(Due::Frame)
    }
}

/// A clip is streamed frame by frame, 20 ms apart, to where it started to go, while nothing
/// else about the bot changes. Behind the last frame comes an empty one, and the line is free.
pub proof fn law_clip_streams(bot: BotView, count: nat)
    requires
        bot.wf(),
        bot.playback is Some,
        bot.playback->0.idx == 0,
        count <= bot.clips[bot.playback->0.clip as int].1.len(),
    ensures
        ({
            let start = bot.playback->0;
            let frames = bot.clips[start.clip as int].1;
            let then = after_frames(bot, count);
            &&& then == (BotView {
                playback: Some(
                    Playback {
                        idx: count as usize,
                        next_at: Moment {
                            nanos: (start.next_at.nanos + count * FRAME_NANOS) as i128,
                        },
                        ..start
                    },
                ),
                ..bot
            })
            &&& count < frames.len() ==> then.fired_packet(Due::Frame) == Some(
                ts3::packet_for(start.target, frames[count as int]),
            )
            &&& count == frames.len() ==> then.fired_packet(Due::Frame) == Some(
                ts3::packet_for(start.target, seq![]),
            )
            &&& count == frames.len() ==> then.fired(Due::Frame) == (BotView {
                playback: None,
                ..bot
            })
        }),
    decreases count,
{
    let start = bot.playback->0;
    assert(start.next_at.nanos + count * FRAME_NANOS <= i128::MAX) by (nonlinear_arith)
        requires
            start.next_at.nanos <= LATEST_READING,
            count <= usize::MAX,
            FRAME_NANOS == 20_000_000,
            LATEST_READING == 18_446_744_073_709_551_615_999_999_999,
            usize::MAX <= 18_446_744_073_709_551_615,
    ;
    if count > 0 {
        law_clip_streams(bot, (count - 1) as nat);
        assert((count - 1) * FRAME_NANOS + FRAME_NANOS == count * FRAME_NANOS)
            by (nonlinear_arith);
    }
}

/// When the bot waits for an announcement, all that is due in that second goes on the queue
/// behind what waits there, and it is at least one sound.
pub proof fn law_announcement_reaches_queue(bot: BotView)
    requires
        bot.wf(),
    ensures
        bot.pending() matches Some((at, Due::Announce { play_at, game_zero })) ==> {
            let second = play_at.since(game_zero).secs() as int;
            &&& at == play_at
            &&& bot.owed_from.nanos < play_at.nanos
            &&& bot.fired(Due::Announce { play_at, game_zero }).queue == bot.queue + schedule::due(
                second,
            )
            &&& schedule::due(second).len() > 0
        },
{
    if let TimerState::Running { game_zero } = bot.state {
        timer::law_announcement_is_ahead(game_zero, bot.owed_from);
    }
}

/// A countdown turns into a running game when it is over: at that moment the clock shows the
/// time that was asked for, and every announcement that comes after it is owed, however late
/// the bot gets to start the game.
pub proof fn law_countdown_starts_game(bot: BotView)
    requires
        bot.playback is None,
        bot.state matches TimerState::Countdown { starts_at, elapsed } && starts_at.nanos
            - elapsed.nanos >= i128::MIN,
    ensures
        bot.state matches TimerState::Countdown { starts_at, elapsed } && bot.pending() matches Some(
            (at, due),
        ) && {
            &&& at == starts_at
            &&& bot.fired(due).state matches TimerState::Running { game_zero }
                && starts_at.since(game_zero) == elapsed
            &&& bot.fired(due).owed_from == starts_at
        },
{
}

/// What the bot waits for comes no later than the next frame of the clip that plays, and no
/// later than what the timer does next. It waits for nothing only when no clip plays and the
/// timer has nothing to do.
pub proof fn law_waits_for_whatever_is_first(bot: BotView)
    ensures
        bot.pending() is None <==> bot.playback is None && bot.transition() is None,
        bot.pending() matches Some((at, due)) ==> {
            &&& bot.playback matches Some(p) ==> at.nanos <= p.next_at.nanos
            &&& bot.transition() matches Some((next, _)) ==> at.nanos <= next.nanos
            &&& Some((at, due)) == bot.frame_due() || Some((at, due)) == bot.transition()
        },
{
}

/// What the timer does next, after an announcement at `at`: the first one behind it.
pub open spec fn announcement_behind(game_zero: Moment, at: Moment) -> Option<(Moment, Due)> {
    match timer::announcement_after(game_zero, at) {
        Some((play_at, _)) => Some((play_at, Due::Announce { play_at, game_zero })),
        None => None,
    }
}

/// While a game runs, the announcement that is owed stays the same, at whatever time the bot
/// goes on with its queue, sends a frame, or is given a command other than a start or a stop.
/// Only its own firing moves on: all that is due in that second goes on the queue, and the next
/// one of the schedule is owed.
pub proof fn law_every_due_sound_is_queued_once(bot: BotView, now: Moment, command: Command)
    requires
        bot.wf(),
        bot.state is Running,
    ensures
        bot.pumped(now).transition() == bot.transition(),
        bot.pumped(now).settled().transition() == bot.transition(),
        bot.playback is Some ==> bot.fired(Due::Frame).transition() == bot.transition(),
        !(command matches Command::Timer(TimerCommand::Start { .. })) && command != Command::Timer(
            TimerCommand::Stop,
        ) ==> bot.commanded(command, now).transition() == bot.transition(),
        bot.transition() matches Some((at, due)) ==> {
            let game_zero = bot.state->game_zero;
            let second = at.since(game_zero).secs() as int;
            &&& due == Due::Announce { play_at: at, game_zero }
            &&& bot.owed_from.nanos < at.nanos
            &&& schedule::due(second).len() > 0
            &&& bot.fired(due).queue == bot.queue + schedule::due(second)
            &&& bot.fired(due).transition() == announcement_behind(game_zero, at)
        },
{
    timer::law_announcement_is_ahead(bot.state->game_zero, bot.owed_from);
}

/// A frame that is due together with an announcement, or less than a frame ahead of it, goes
/// first; then the announcement is next.
pub proof fn law_frame_only_delays_announcement(bot: BotView)
    requires
        bot.wf(),
        bot.state is Running,
        bot.playback matches Some(p) && bot.transition() matches Some((at, _)) && p.next_at.nanos
            <= at.nanos < p.next_at.nanos + FRAME_NANOS,
    ensures
        bot.pending() == bot.frame_due(),
        bot.fired(Due::Frame).pending() == bot.transition(),
{
    let p = bot.playback->0;
    assert(p.next_at.nanos + FRAME_NANOS <= i128::MAX) by (nonlinear_arith)
        requires
            p.next_at.nanos <= LATEST_READING + p.idx * FRAME_NANOS,
            p.idx <= usize::MAX,
            FRAME_NANOS == 20_000_000,
            LATEST_READING == 18_446_744_073_709_551_615_999_999_999,
            usize::MAX <= 18_446_744_073_709_551_615,
    ;
}

/// A start sets the timer as if nothing had been before: what it does and owes from then on
/// depends on the command and on when it was given. The rest of the bot stays as it is.
pub proof fn law_start_resets_what_is_owed(
    bot: BotView,
    elapsed: Duration,
    delay: Duration,
    now: Moment,
)
    ensures
        bot.commanded(Command::Timer(TimerCommand::Start { elapsed, delay }), now) == (BotView {
            state: timer::started(elapsed, delay, now).0,
            owed_from: now,
            ..bot
        }),
{
}

/// A clip is shown as it was given: its sound, and all of its frames, each of them whole.
pub proof fn law_clips_are_kept_whole(clips: Seq<(Sound, Vec<Vec<u8>>)>, clip: int, frame: int)
    requires
        0 <= clip < clips.len(),
        0 <= frame < clips[clip].1@.len(),
    ensures
        clip_bytes(clips).len() == clips.len(),
        clip_bytes(clips)[clip].0 == clips[clip].0,
        clip_bytes(clips)[clip].1.len() == clips[clip].1@.len(),
        clip_bytes(clips)[clip].1[frame] == clips[clip].1@[frame]@,
{
}

/// A packet that is sent is shown byte for byte.
pub proof fn law_packets_are_shown_whole(packet: Vec<u8>)
    ensures
        bytes_of(Some(packet)) == Some(packet@),
        bytes_of(None) is None,
{
}

/// The schedule holds the warnings 60, 40 and 20 seconds ahead and zeal, and no other sound; the
/// clips cover it just if each of these four has one.
pub proof fn law_four_sounds_need_clips(clips: Seq<(Sound, Seq<Seq<u8>>)>, offset: u64)
    ensures
        scheduled(Sound::Jungle(offset)) <==> offset == 60 || offset == 40 || offset == 20,
        scheduled(Sound::Zeal),
        covers_schedule(clips) <==> {
            &&& exists|i: int| 0 <= i < clips.len() && (#[trigger] clips[i]).0 == Sound::Jungle(60)
            &&& exists|i: int| 0 <= i < clips.len() && (#[trigger] clips[i]).0 == Sound::Jungle(40)
            &&& exists|i: int| 0 <= i < clips.len() && (#[trigger] clips[i]).0 == Sound::Jungle(20)
            &&& exists|i: int| 0 <= i < clips.len() && (#[trigger] clips[i]).0 == Sound::Zeal
        },
{
    let all = schedule::ANNOUNCE_OFFSETS@;
    assert(all[0] == 60 && all[1] == 40 && all[2] == 20);
    assert(all.contains(60) && all.contains(40) && all.contains(20));
    assert(scheduled(Sound::Jungle(60)) && scheduled(Sound::Jungle(40)) && scheduled(
        Sound::Jungle(20),
    ) && scheduled(Sound::Zeal));
    lemma_clip_from(clips, Sound::Jungle(60), 0);
    lemma_clip_from(clips, Sound::Jungle(40), 0);
    lemma_clip_from(clips, Sound::Jungle(20), 0);
    lemma_clip_from(clips, Sound::Zeal, 0);
}

/// A bot begins with its timer stopped and nothing to play. Sound goes to the group that it was
/// given, with the scope that it was given, or to the channel if it was given none; the group
/// of zeal has the same scope.
pub proof fn law_bot_begins_as_told(
    group: Option<u64>,
    zeal: Option<u64>,
    scope: WhisperScope,
    clips: Seq<(Sound, Seq<Seq<u8>>)>,
)
    ensures
        ({
            let bot = BotView::fresh(group, zeal, scope, clips);
            &&& bot.state is Stopped && bot.playback is None && bot.queue.len() == 0
            &&& bot.clips == clips
            &&& bot.pending() is None
            &&& group matches Some(id) ==> {
                &&& bot.target == (PlaybackTarget::ServerGroup { group_id: id, scope })
                &&& bot.whisper == Some((id, scope))
            }
            &&& group is None ==> bot.target is CurrentChannel && bot.whisper is None
            &&& zeal matches Some(id) ==> bot.zeal_group == Some((id, scope))
            &&& zeal is None ==> bot.zeal_group is None
        }),
{
}

/// Switching to the group makes the configured one the target, with its scope.
pub proof fn law_group_is_switched_to(bot: BotView, now: Moment)
    ensures
        bot.whisper matches Some((id, scope)) ==> bot.commanded(Command::Group, now).target == (
        PlaybackTarget::ServerGroup { group_id: id, scope }),
        bot.whisper is None ==> bot.commanded(Command::Group, now).target == bot.target,
        bot.commanded(Command::Channel, now).target is CurrentChannel,
        bot.is_whispering() <==> !(bot.target is CurrentChannel),
{
}

/// The packet is a whisper to the server group `id`: to its members in all channels or only to
/// those in the current one.
pub open spec fn whispers_to(packet: Seq<u8>, id: u64, scope: WhisperScope) -> bool {
    &&& packet.len() >= 26
    &&& packet[12] == 0x21
    &&& packet[16] == 0
    &&& packet[17] == (match scope {
        WhisperScope::AllChannels => 0u8,
        WhisperScope::CurrentChannel => 1u8,
    })
    &&& ((((((packet[18] * 256 + packet[19]) * 256 + packet[20]) * 256 + packet[21]) * 256
        + packet[22]) * 256 + packet[23]) * 256 + packet[24]) * 256 + packet[25] == id
}

/// The frames of a sound are whispered to the group that is the target of the bot, with its
/// scope, or spoken in the channel. Zeal with a group of its own is whispered to that one.
pub proof fn law_sound_goes_where_it_should(bot: BotView, now: Moment)
    requires
        bot.playback is None,
        bot.queue.len() > 0,
    ensures
        ({
            let own = bot.queue[turn(bot.queue)] is Zeal && bot.zeal_group is Some;
            bot.pumped(now).fired_packet(Due::Frame) matches Some(packet) && {
                &&& own ==> (bot.zeal_group matches Some((id, scope)) && whispers_to(
                    packet,
                    id,
                    scope,
                ))
                &&& !own ==> match bot.target {
                    PlaybackTarget::ServerGroup { group_id, scope } => whispers_to(
                        packet,
                        group_id,
                        scope,
                    ),
                    PlaybackTarget::CurrentChannel => packet.len() >= 16 && packet[12] == 0,
                }
            }
        }),
{
    let then = bot.pumped(now);
    let p = then.playback->0;
    let data = match then.next_frame() {
        Some(frame) => frame,
        None => seq![],
    };
    ts3::law_packet_carries_whole_frame(p.target, data);
    ts3::law_packet_names_target(p.target, data);
}

/// Every frame that is sent is the next one of the clip that plays, whole, behind what the target
/// asks for; behind the last one comes an empty one, and nothing plays any more. The frame
/// after it comes 20 ms later, from the same clip to the same target.
pub proof fn law_next_frame_is_sent(bot: BotView)
    requires
        bot.wf(),
        bot.playback is Some,
    ensures
        bot.playback matches Some(p) && bot.fired_packet(Due::Frame) matches Some(packet) && {
            let frames = bot.clips[p.clip as int].1;
            let front: int = if p.target is CurrentChannel {
                16
            } else {
                26
            };
            &&& p.idx < frames.len() ==> packet.skip(front) == frames[p.idx as int]
            &&& p.idx < frames.len() ==> (bot.fired(Due::Frame).playback matches Some(next) && {
                &&& next.idx == p.idx + 1
                &&& next.next_at.nanos == p.next_at.nanos + 20_000_000
                &&& next.clip == p.clip
                &&& next.target == p.target
            })
            &&& p.idx >= frames.len() ==> packet.len() == front
            &&& p.idx >= frames.len() ==> bot.fired(Due::Frame).playback is None
        },
{
    let p = bot.playback->0;
    let data = match bot.next_frame() {
        Some(frame) => frame,
        None => seq![],
    };
    ts3::law_packet_carries_whole_frame(p.target, data);
    assert(p.next_at.nanos + FRAME_NANOS <= i128::MAX) by (nonlinear_arith)
        requires
            p.next_at.nanos <= LATEST_READING + p.idx * FRAME_NANOS,
            p.idx <= usize::MAX,
            FRAME_NANOS == 20_000_000,
            LATEST_READING == 18_446_744_073_709_551_615_999_999_999,
            usize::MAX <= 18_446_744_073_709_551_615,
    ;
}

/// Going on with the queue touches nothing but the queue and the line: nothing at all while a
/// clip plays or nothing waits. The timer stops just if it runs and the last announcement, at
/// second 1480, has had its turn.
pub proof fn law_preparing_touches_only_playback(bot: BotView, now: Moment)
    ensures
        bot.playback is Some || bot.queue.len() == 0 ==> bot.pumped(now) == bot,
        bot.pumped(now) == (BotView {
            queue: bot.pumped(now).queue,
            playback: bot.pumped(now).playback,
            ..bot
        }),
        bot.is_over() <==> (bot.state matches TimerState::Running { game_zero }
            && bot.owed_from.since(game_zero).secs() >= 1480),
        bot.settled() == (if bot.is_over() {
            BotView { state: TimerState::Stopped, ..bot }
        } else {
            bot
        }),
{
    if let TimerState::Running { game_zero } = bot.state {
        schedule::law_last_announcement(bot.owed_from.since(game_zero).secs() as int);
    }
}

/// A deadline touches nothing but what it is about: a frame the clip that plays, the start of a
/// game the timer and what is owed, which is all from the end of the countdown on, and an
/// announcement the queue and what is owed.
pub proof fn law_deadline_touches_only_its_own(
    bot: BotView,
    game_zero: Moment,
    play_at: Moment,
)
    ensures
        bot.fired(Due::Frame) == (BotView { playback: bot.fired(Due::Frame).playback, ..bot }),
        bot.fired(Due::GameStart { game_zero }) == (BotView {
            state: TimerState::Running { game_zero },
            owed_from: bot.fired(Due::GameStart { game_zero }).owed_from,
            ..bot
        }),
        bot.fired(Due::Announce { play_at, game_zero }) == (BotView {
            queue: bot.queue + schedule::due(play_at.since(game_zero).secs() as int),
            owed_from: play_at,
            ..bot
        }),
        bot.state matches TimerState::Countdown { starts_at, .. } ==> bot.fired(
            Due::GameStart { game_zero },
        ).owed_from == starts_at,
        !(bot.state is Countdown) ==> bot.fired(Due::GameStart { game_zero }).owed_from
            == game_zero,
        bot.fired_packet(Due::GameStart { game_zero }) is None,
        bot.fired_packet(Due::Announce { play_at, game_zero }) is None,
{
}

/// What the timer waits for: nothing when it is stopped, and the end of a countdown, when the
/// game begins with the asked time over.
pub proof fn law_countdown_is_waited_for(bot: BotView)
    ensures
        bot.state is Stopped ==> bot.transition() is None,
        bot.state matches TimerState::Countdown { starts_at, elapsed } ==> (
        bot.transition() matches Some((at, Due::GameStart { game_zero })) && at == starts_at && (
        starts_at.nanos - elapsed.nanos >= i128::MIN ==> game_zero.nanos + elapsed.nanos
            == starts_at.nanos)),
        bot.state matches TimerState::Running { game_zero } ==> bot.transition()
            == announcement_behind(game_zero, bot.owed_from),
{
}

/// Asking for help or for the status changes nothing, and stopping changes nothing but the timer,
/// the queue and what plays.
pub proof fn law_commands_touch_only_their_own(bot: BotView, now: Moment)
    ensures
        bot.commanded(Command::Help, now) == bot,
        bot.commanded(Command::Timer(TimerCommand::Status), now) == bot,
        bot.commanded(Command::Timer(TimerCommand::Stop), now) == (BotView {
            state: TimerState::Stopped,
            queue: seq![],
            playback: None,
            ..bot
        }),
        bot.commanded(Command::Channel, now) == (BotView {
            target: bot.commanded(Command::Channel, now).target,
            ..bot
        }),
        bot.commanded(Command::Group, now) == (BotView {
            target: bot.commanded(Command::Group, now).target,
            ..bot
        }),
{
}

/// What the bot answers: to a command for the timer what the timer answers, to a switch where
/// sound goes from now on, with the number of the group, and to a call for help what it
/// understands.
pub proof fn law_commands_are_answered(bot: BotView, command: TimerCommand, now: Moment)
    ensures
        bot.answer(Command::Timer(command), now) == timer::handled(command, bot.state, now).1,
        bot.answer(Command::Channel, now) == "switched to channel playback"@,
        bot.whisper matches Some((id, _)) ==> bot.answer(Command::Group, now)
            == "switched to server group whisper (group "@ + number::decimal(id as nat) + ")"@,
        bot.whisper is None ==> bot.answer(Command::Group, now)
            == "no server group configured (use --whisper-server-group-id at startup)"@,
        bot.answer(Command::Help, now) == HELP@,
{
}

/// The bot does not listen to itself, and to everybody else alike.
pub proof fn law_bot_listens_to_others(own_id: u16, from: u16, message: Seq<char>)
    ensures
        BotView::heard(own_id, own_id, message) is None,
        from != own_id ==> BotView::heard(own_id, from, message) == command::command_in(message),
{
}

/// Only a start of the timer may not fit the time at which it is given.
pub proof fn law_only_starts_may_not_fit(command: TimerCommand, now: Moment)
    ensures
        command_fits(Command::Help, now),
        command_fits(Command::Channel, now),
        command_fits(Command::Group, now),
        command_fits(Command::Timer(command), now) <==> timer::fits(command, now),
{
}

/// The help names every command on a line of its own, with what it does.
pub proof fn law_help_names_every_command()
    ensures
        HELP@ == "\n\
            !jungle start                     start at 30:00 now\n\
            !jungle start 3:00                start at 30:00 in 3 minutes\n\
            !jungle start at 25:00            start immediately at 25:00\n\
            !jungle start 3:00 at 25:00       start at 25:00 in 3 minutes\n\
            !jungle set 25:00                 set game time to 25:00\n\
            !jungle channel                   play to current channel\n\
            !jungle group                     whisper to configured server group\n\
            !jungle stop                      stop the timer\n\
            !jungle status                    print current timer state\n\
            !jungle help                      show this message"@,
{
}

/// Only a message that somebody else wrote and that is meant for the bot is answered. Nothing but
/// a command that is understood changes the bot, and it does what the command does.
pub proof fn law_only_understood_messages_count(
    bot: BotView,
    own_id: u16,
    from: u16,
    message: Seq<char>,
    now: Moment,
)
    ensures
        bot.reply_text(own_id, from, message, now) is None <==> from == own_id
            || command::command_in(message) is None,
        from == own_id ==> bot.after_message(own_id, from, message, now) == bot,
        !(command::command_in(message) matches Some(Ok(_))) ==> bot.after_message(
            own_id,
            from,
            message,
            now,
        ) == bot,
        from != own_id ==> (command::command_in(message) matches Some(Ok(command))
            ==> bot.after_message(own_id, from, message, now) == bot.commanded(command, now)),
{
}

/// Every reply is what the bot answers, or what is wrong with the message, to whoever reads it;
/// but each colon in it has a zero-width space behind it.
pub proof fn law_replies_are_escaped(
    bot: BotView,
    own_id: u16,
    from: u16,
    message: Seq<char>,
    now: Moment,
)
    ensures
        bot.reply_text(own_id, from, message, now) matches Some(reply) ==> {
            &&& forall|i: int|
                0 <= i < reply.len() && #[trigger] reply[i] == ':' ==> i + 1 < reply.len()
                    && reply[i + 1] == '\u{200B}'
            &&& command::command_in(message) matches Some(Ok(command)) ==> ts3::visible(reply)
                == ts3::visible(bot.answer(command, now))
            &&& command::command_in(message) matches Some(Err(error)) ==> ts3::visible(reply)
                == ts3::visible(error)
        },
{
    match command::command_in(message) {
        Some(Ok(command)) => {
            ts3::law_no_emoticon_is_left(bot.answer(command, now));
            ts3::law_escaping_is_invisible(bot.answer(command, now));
        },
        Some(Err(error)) => {
            ts3::law_no_emoticon_is_left(error);
            ts3::law_escaping_is_invisible(error);
        },
        None => {},
    }
}

/// A bot speaks or whispers as its arguments say: to their group with their scope, zeal to the
/// group of zeal with the same scope, and in the channel if they name no group.
pub proof fn law_bot_is_made_as_the_arguments_say(
    args: ArgsView,
    clips: Seq<(Sound, Seq<Seq<u8>>)>,
)
    ensures
        ({
            let bot = BotView::made(args, clips);
            &&& bot.state is Stopped && bot.playback is None && bot.queue.len() == 0
            &&& bot.clips == clips
            &&& args.whisper_server_group_id is None ==> bot.target is CurrentChannel
                && bot.whisper is None
            &&& args.whisper_server_group_id matches Some(id) ==> bot.target == (
            PlaybackTarget::ServerGroup { group_id: id, scope: args.whisper_scope }) && bot.whisper
                == Some((id, args.whisper_scope))
            &&& args.zeal_server_group_id is None ==> bot.zeal_group is None
            &&& args.zeal_server_group_id matches Some(id) ==> bot.zeal_group == Some(
                (id, args.whisper_scope),
            )
        }),
{
}

/// A command from the GUI does what the same command does in chat, and disconnecting leaves the
/// bot as it is.
pub proof fn law_gui_commands_are_chat_commands(
    bot: BotView,
    own_id: u16,
    from: u16,
    message: Seq<char>,
    now: Moment,
)
    requires
        from != own_id,
    ensures
        command::command_in(message) matches Some(Ok(command)) ==> bot.after_gui(
            Some(GuiCommand::Command(command)),
            now,
        ) == bot.after_message(own_id, from, message, now),
        bot.after_gui(Some(GuiCommand::Disconnect), now) == bot,
        bot.after_gui(None, now) == bot,
{
}

} // verus!
