//! The bot between its connection and its clock: what it plays, what it waits for, and how it
//! answers. Sending packets, sleeping and receiving messages is left to the caller.

use crate::clock::{Duration, Moment, LATEST_READING};
use crate::command;
use crate::command::{Command, TimerCommand};
use crate::config::{Args, ArgsView};
use crate::number;
use crate::schedule;
use crate::schedule::{Sound, ANNOUNCE_OFFSETS};
use crate::timer;
use crate::timer::{TimerState, LATEST_START};
use crate::ts3;
use crate::ts3::{PlaybackTarget, WhisperScope};
use vstd::prelude::*;
use vstd::string::*;

verus! {

/// Nanoseconds of sound in one frame: 20 ms.
pub const FRAME_NANOS: u128 = 20_000_000;

/// The answer to a call for help. It starts with a newline so that its first line aligns with
/// the rest in chat, instead of hanging behind the time and the name of the bot.
pub const HELP: &'static str = "
!jungle start                     start at 30:00 now
!jungle start 3:00                start at 30:00 in 3 minutes
!jungle start at 25:00            start immediately at 25:00
!jungle start 3:00 at 25:00       start at 25:00 in 3 minutes
!jungle set 25:00                 set game time to 25:00
!jungle channel                   play to current channel
!jungle group                     whisper to configured server group
!jungle stop                      stop the timer
!jungle status                    print current timer state
!jungle help                      show this message";

/// A command sent by the GUI to the running bot.
#[derive(Debug, Clone, Copy, PartialEq, Eq, Structural)]
pub enum GuiCommand {
    Command(Command),
    Disconnect,
}

/// An event pushed from the bot to the GUI.
#[derive(Debug, Clone)]
pub enum BotEvent {
    /// The connection is up and commands are accepted.
    Connected,
    /// The timer state changed (also sent right after connecting).
    Timer(TimerState),
    /// Whether audio currently goes to the server group (true) or channel.
    Whispering(bool),
    /// The bot loop ended; carries the error message if it failed.
    Stopped(Option<String>),
}

/// A clip mid-stream: its frames are sent one by one.
#[derive(Debug, Clone, Copy, PartialEq, Eq, Structural)]
pub struct Playback {
    /// Which of the bot's clips.
    pub clip: usize,
    /// The frame that comes next.
    pub idx: usize,
    /// When it comes.
    pub next_at: Moment,
    /// Where this clip goes; zeal can whisper to its own server group.
    pub target: PlaybackTarget,
}

/// What the next deadline does when it fires.
#[derive(Debug, Clone, Copy, PartialEq, Eq, Structural)]
pub enum Due {
    Frame,
    GameStart { game_zero: Moment },
    Announce { play_at: Moment, game_zero: Moment },
}

/// What the bot waits for.
#[derive(Debug, Clone, Copy, PartialEq, Eq)]
pub struct Wait {
    /// The next deadline, if there is one.
    pub pending: Option<(Moment, Due)>,
    /// The timer has just stopped because nothing is left to announce.
    pub finished: bool,
}

/// What is to be done after a deadline.
#[derive(Debug)]
pub enum Effect {
    /// Send this audio packet.
    Send(Vec<u8>),
    /// Tell that the timer state changed.
    TimerChanged,
    /// Nothing: sounds were put on the queue.
    SoundsQueued,
}

/// What is to be done after a chat message.
#[derive(Debug)]
pub struct Reply {
    /// Send this audio packet first.
    pub packet: Option<Vec<u8>>,
    /// Send this text to whoever wrote the message.
    pub text: String,
    /// A command was carried out; the state of the bot may have changed.
    pub accepted: bool,
}

/// What is to be done after a command from the GUI.
#[derive(Debug)]
pub enum GuiEffect {
    /// Send this audio packet, and tell what the state of the bot is.
    Applied(Option<Vec<u8>>),
    /// Leave the server.
    Disconnect,
}

/// The bytes of a packet, if there is one.
pub open spec fn bytes_of(packet: Option<Vec<u8>>) -> Option<Seq<u8>> {
    match packet {
        Some(bytes) => Some(bytes@),
        None => None,
    }
}

/// The frames of each clip, with the sound it is for.
pub open spec fn clip_bytes(clips: Seq<(Sound, Vec<Vec<u8>>)>) -> Seq<(Sound, Seq<Seq<u8>>)> {
    clips.map_values(
        |c: (Sound, Vec<Vec<u8>>)| (c.0, c.1@.map_values(|frame: Vec<u8>| frame@)),
    )
}

/// A sound that the schedule holds.
pub open spec fn scheduled(sound: Sound) -> bool {
    match sound {
        Sound::Jungle(offset) => ANNOUNCE_OFFSETS@.contains(offset),
        Sound::Zeal => true,
    }
}

/// Index of the first clip for `sound`, counted from `from` on; the number of clips if there is
/// none.
pub open spec fn clip_from(
    clips: Seq<(Sound, Seq<Seq<u8>>)>,
    sound: Sound,
    from: int,
) -> int
    decreases clips.len() - from,
{
    if from >= clips.len() || clips[from].0 == sound {
        from
    } else {
        clip_from(clips, sound, from + 1)
    }
}

/// Index of the first clip for `sound`.
pub open spec fn clip_of(clips: Seq<(Sound, Seq<Seq<u8>>)>, sound: Sound) -> int {
    clip_from(clips, sound, 0)
}

/// There is a clip for every sound of the schedule.
pub open spec fn covers_schedule(clips: Seq<(Sound, Seq<Seq<u8>>)>) -> bool {
    forall|sound: Sound| #[trigger] scheduled(sound) ==> clip_of(clips, sound) < clips.len()
}

/// Index of the first jungle warning on the queue, counted from `from` on; the start of the
/// queue if there is none.
pub open spec fn turn_from(queue: Seq<Sound>, from: int) -> int
    decreases queue.len() - from,
{
    if from >= queue.len() {
        0
    } else if queue[from] is Jungle {
        from
    } else {
        turn_from(queue, from + 1)
    }
}

/// Whose turn it is on the queue: jungle warnings come before zeal, and else whoever was first.
pub open spec fn turn(queue: Seq<Sound>) -> int {
    turn_from(queue, 0)
}

/// The earlier of two deadlines; the first of them, if they come together.
pub open spec fn earlier_of(a: Option<(Moment, Due)>, b: Option<(Moment, Due)>) -> Option<
    (Moment, Due),
> {
    match (a, b) {
        (Some((at, _)), Some((bt, _))) => if bt.nanos < at.nanos {
            b
        } else {
            a
        },
        (Some(_), None) => a,
        (None, _) => b,
    }
}

/// The playback target of a server group, or the channel if there is none.
pub open spec fn target_of(group: Option<(u64, WhisperScope)>) -> PlaybackTarget {
    match group {
        Some((group_id, scope)) => PlaybackTarget::ServerGroup { group_id, scope },
        None => PlaybackTarget::CurrentChannel,
    }
}

/// Everything that the bot holds.
#[verifier::ext_equal]
pub struct BotView {
    pub state: TimerState,
    /// The announcements of the running game that come after this moment are still owed; those
    /// up to it have had their turn.
    pub owed_from: Moment,
    pub target: PlaybackTarget,
    pub playback: Option<Playback>,
    pub queue: Seq<Sound>,
    pub clips: Seq<(Sound, Seq<Seq<u8>>)>,
    pub whisper: Option<(u64, WhisperScope)>,
    pub zeal_group: Option<(u64, WhisperScope)>,
}

impl BotView {
    /// Every sound that can come up has a clip, the clip that plays is one of them, and no
    /// moment is out of range.
    pub open spec fn wf(self) -> bool {
        &&& covers_schedule(self.clips)
        &&& self.clips.len() <= usize::MAX
        &&& forall|i: int| 0 <= i < self.queue.len() ==> scheduled(#[trigger] self.queue[i])
        &&& self.state.in_range()
        &&& self.playback matches Some(p) ==> {
            &&& p.clip < self.clips.len()
            &&& p.idx <= self.clips[p.clip as int].1.len() <= usize::MAX
            &&& p.next_at.nanos <= LATEST_READING + p.idx * FRAME_NANOS
        }
    }

    /// Where `sound` goes: zeal to its own group when there is one, all else to the target of
    /// the bot.
    pub open spec fn target_for(self, sound: Sound) -> PlaybackTarget {
        if sound is Zeal && self.zeal_group is Some {
            target_of(self.zeal_group)
        } else {
            self.target
        }
    }

    /// The next sound on the queue starts, if the line is free.
    pub open spec fn pumped(self, now: Moment) -> BotView {
        if self.playback is None && self.queue.len() > 0 {
            let k = turn(self.queue);
            let sound = self.queue[k];
            BotView {
                queue: self.queue.remove(k),
                playback: Some(
                    Playback {
                        clip: clip_of(self.clips, sound) as usize,
                        idx: 0,
                        next_at: now,
                        target: self.target_for(sound),
                    },
                ),
                ..self
            }
        } else {
            self
        }
    }

    /// The timer runs, but no announcement is owed any more.
    pub open spec fn is_over(self) -> bool {
        self.state matches TimerState::Running { game_zero } && timer::announcement_after(
            game_zero,
            self.owed_from,
        ) is None
    }

    /// The timer stops when no announcement is owed any more.
    pub open spec fn settled(self) -> BotView {
        if self.is_over() {
            BotView { state: TimerState::Stopped, ..self }
        } else {
            self
        }
    }

    /// When the next frame of the clip that plays is due.
    pub open spec fn frame_due(self) -> Option<(Moment, Due)> {
        match self.playback {
            Some(p) => Some((p.next_at, Due::Frame)),
            None => None,
        }
    }

    /// When the timer has something to do next. An announcement that is owed stays the next one
    /// until it fires, however late that is.
    pub open spec fn transition(self) -> Option<(Moment, Due)> {
        match self.state {
            TimerState::Stopped => None,
            TimerState::Countdown { starts_at, elapsed } => Some(
                (starts_at, Due::GameStart { game_zero: timer::zero_of(starts_at, elapsed) }),
            ),
            TimerState::Running { game_zero } => match timer::announcement_after(
                game_zero,
                self.owed_from,
            ) {
                Some((play_at, _)) => Some((play_at, Due::Announce { play_at, game_zero })),
                None => None,
            },
        }
    }

    /// What fires next: the pending audio frame while a clip is streaming, or the next timer
    /// transition, whichever comes first.
    pub open spec fn pending(self) -> Option<(Moment, Due)> {
        earlier_of(self.frame_due(), self.transition())
    }

    /// The deadline is one that the bot can meet: a frame is due only while a clip plays.
    pub open spec fn can_fire(self, due: Due) -> bool {
        match due {
            Due::Frame => self.playback is Some,
            Due::GameStart { game_zero } => game_zero.nanos <= LATEST_START,
            Due::Announce { .. } => true,
        }
    }

    /// The frame that comes next in the clip that plays, or nothing when all have been sent.
    pub open spec fn next_frame(self) -> Option<Seq<u8>> {
        match self.playback {
            Some(p) => {
                let frames = self.clips[p.clip as int].1;
                if p.idx < frames.len() {
                    Some(frames[p.idx as int])
                } else {
                    None
                }
            },
            None => None,
        }
    }

    /// The bot after the deadline `due`. A frame moves the clip on by one, or frees the line
    /// behind the last one; the game starts, and owes what comes after its start; or all sounds
    /// of the second go on the queue, and what comes after it is owed.
    pub open spec fn fired(self, due: Due) -> BotView {
        match due {
            Due::Frame => match (self.playback, self.next_frame()) {
                (Some(p), Some(_)) => BotView {
                    playback: Some(
                        Playback {
                            idx: (p.idx + 1) as usize,
                            next_at: p.next_at.later(Duration { nanos: FRAME_NANOS }),
                            ..p
                        },
                    ),
                    ..self
                },
                _ => BotView { playback: None, ..self },
            },
            Due::GameStart { game_zero } => BotView {
                state: TimerState::Running { game_zero },
                owed_from: match self.state {
                    TimerState::Countdown { starts_at, .. } => starts_at,
                    _ => game_zero,
                },
                ..self
            },
            Due::Announce { play_at, game_zero } => BotView {
                owed_from: play_at,
                queue: self.queue + schedule::due(play_at.since(game_zero).secs() as int),
                ..self
            },
        }
    }

    /// The packet that the deadline `due` sends: the next frame, or the empty frame behind the
    /// last one, which ends the stream.
    pub open spec fn fired_packet(self, due: Due) -> Option<Seq<u8>> {
        match (due, self.playback) {
            (Due::Frame, Some(p)) => Some(
                ts3::packet_for(
                    p.target,
                    match self.next_frame() {
                        Some(frame) => frame,
                        None => seq![],
                    },
                ),
            ),
            _ => None,
        }
    }

    /// The bot after a command. A start owes what comes after it, whatever was owed before.
    pub open spec fn commanded(self, command: Command, now: Moment) -> BotView {
        match command {
            Command::Help => self,
            Command::Channel => BotView { target: PlaybackTarget::CurrentChannel, ..self },
            Command::Group => match self.whisper {
                Some(_) => BotView { target: target_of(self.whisper), ..self },
                None => self,
            },
            Command::Timer(command) => {
                let state = timer::handled(command, self.state, now).0;
                match command {
                    TimerCommand::Start { .. } => BotView { state, owed_from: now, ..self },
                    TimerCommand::Stop => BotView {
                        state,
                        queue: seq![],
                        playback: None,
                        ..self
                    },
                    TimerCommand::Status => BotView { state, ..self },
                }
            },
        }
    }

    /// The packet that a command sends: stopping ends the stream that plays.
    pub open spec fn command_packet(self, command: Command) -> Option<Seq<u8>> {
        match self.playback {
            Some(p) => if command == Command::Timer(TimerCommand::Stop) {
                Some(ts3::packet_for(p.target, seq![]))
            } else {
                None
            },
            None => None,
        }
    }

    /// The answer to a command.
    pub open spec fn answer(self, command: Command, now: Moment) -> Seq<char> {
        match command {
            Command::Help => HELP@,
            Command::Channel => "switched to channel playback"@,
            Command::Group => match self.whisper {
                Some((id, _)) => "switched to server group whisper (group "@ + number::decimal(
                    id as nat,
                ) + ")"@,
                None =>
                    "no server group configured (use --whisper-server-group-id at startup)"@,
            },
            Command::Timer(command) => timer::handled(command, self.state, now).1,
        }
    }

    /// What a chat message by `from` says to the bot, whose own messages come back to it as
    /// well. Nothing, if it is one of those, or no command.
    pub open spec fn heard(own_id: u16, from: u16, message: Seq<char>) -> Option<
        Result<Command, Seq<char>>,
    > {
        if from == own_id {
            None
        } else {
            command::command_in(message)
        }
    }

    /// The bot after a chat message: only a command that is understood changes it.
    pub open spec fn after_message(
        self,
        own_id: u16,
        from: u16,
        message: Seq<char>,
        now: Moment,
    ) -> BotView {
        match BotView::heard(own_id, from, message) {
            Some(Ok(command)) => self.commanded(command, now),
            _ => self,
        }
    }

    /// The text that is sent to whoever wrote a chat message, if there is one: the answer to the
    /// command, or what is wrong with it.
    pub open spec fn reply_text(
        self,
        own_id: u16,
        from: u16,
        message: Seq<char>,
        now: Moment,
    ) -> Option<Seq<char>> {
        match BotView::heard(own_id, from, message) {
            Some(Ok(command)) => Some(ts3::escaped(self.answer(command, now))),
            Some(Err(error)) => Some(ts3::escaped(error)),
            None => None,
        }
    }

    /// The events that tell what the state of the bot is.
    pub open spec fn news(self) -> Seq<BotEvent> {
        seq![BotEvent::Timer(self.state), BotEvent::Whispering(self.is_whispering())]
    }

    /// Audio goes to a server group.
    pub open spec fn is_whispering(self) -> bool {
        self.target is ServerGroup
    }

    /// The bot that is made with these arguments and clips.
    pub open spec fn made(args: ArgsView, clips: Seq<(Sound, Seq<Seq<u8>>)>) -> BotView {
        BotView::fresh(
            args.whisper_server_group_id,
            args.zeal_server_group_id,
            args.whisper_scope,
            clips,
        )
    }

    /// The bot after a command from the GUI.
    pub open spec fn after_gui(self, command: Option<GuiCommand>, now: Moment) -> BotView {
        match command {
            Some(GuiCommand::Command(command)) => self.commanded(command, now),
            _ => self,
        }
    }

    /// The bot right after it was made.
    pub open spec fn fresh(
        group_id: Option<u64>,
        zeal_id: Option<u64>,
        scope: WhisperScope,
        clips: Seq<(Sound, Seq<Seq<u8>>)>,
    ) -> BotView {
        let whisper = match group_id {
            Some(id) => Some((id, scope)),
            None => None,
        };
        BotView {
            state: TimerState::Stopped,
            owed_from: Moment { nanos: 0 },
            target: target_of(whisper),
            playback: None,
            queue: seq![],
            clips,
            whisper,
            zeal_group: match zeal_id {
                Some(id) => Some((id, scope)),
                None => None,
            },
        }
    }
}

/// The command, if it is for the timer, fits the time at which it is given.
pub open spec fn command_fits(command: Command, now: Moment) -> bool {
    command matches Command::Timer(c) ==> timer::fits(c, now)
}

/// Tells whether the command, if it is for the timer, fits the time at which it is given.
pub fn can_apply(command: &Command, now: Moment) -> (r: bool)
    ensures
        r == command_fits(*command, now),
{
    match *command {
        Command::Timer(TimerCommand::Start { delay, .. }) => {
            match now.nanos.checked_add_unsigned(delay.nanos) {
                Some(begins) => begins <= LATEST_START,
                None => false,
            }
        },
        _ => true,
    }
}

/// The bot: its timer, the clip that plays, the sounds that wait, and where sound goes.
pub struct Bot {
    state: TimerState,
    owed_from: Moment,
    target: PlaybackTarget,
    playback: Option<Playback>,
    queue: Vec<Sound>,
    clips: Vec<(Sound, Vec<Vec<u8>>)>,
    whisper: Option<(u64, WhisperScope)>,
    zeal_group: Option<(u64, WhisperScope)>,
}

impl View for Bot {
    type V = BotView;

    closed spec fn view(&self) -> BotView {
        BotView {
            state: self.state,
            owed_from: self.owed_from,
            target: self.target,
            playback: self.playback,
            queue: self.queue@,
            clips: clip_bytes(self.clips@),
            whisper: self.whisper,
            zeal_group: self.zeal_group,
        }
    }
}

/// A group id with the scope of its whispers.
fn with_scope(id: Option<u64>, scope: WhisperScope) -> (r: Option<(u64, WhisperScope)>)
    ensures
        r == (match id {
            Some(id) => Some((id, scope)),
            None => None,
        }),
{
    match id {
        Some(id) => Some((id, scope)),
        None => None,
    }
}

/// The playback target of a server group, or the channel if there is none.
fn group_target(group: Option<(u64, WhisperScope)>) -> (r: PlaybackTarget)
    ensures
        r == target_of(group),
{
    match group {
        Some((group_id, scope)) => PlaybackTarget::ServerGroup { group_id, scope },
        None => PlaybackTarget::CurrentChannel,
    }
}

/// Whose turn it is on the queue: the first jungle warning, or else whoever was first.
fn find_turn(queue: &Vec<Sound>) -> (r: usize)
    requires
        queue.len() > 0,
    ensures
        r < queue.len(),
        r == turn(queue@),
{
    let mut i: usize = 0;
    while i < queue.len()
        invariant
            i <= queue.len(),
            turn(queue@) == turn_from(queue@, i as int),
        decreases queue.len() - i,
    {
        if let Sound::Jungle(_) = queue[i] {
            return i;
        }
        i += 1;
    }
    0
}

/// Index of the first clip for `sound`.
fn find_clip(clips: &Vec<(Sound, Vec<Vec<u8>>)>, sound: Sound) -> (r: usize)
    requires
        clip_of(clip_bytes(clips@), sound) < clips.len(),
    ensures
        r == clip_of(clip_bytes(clips@), sound),
        r < clips.len(),
{
    let mut i: usize = 0;
    while i < clips.len() && clips[i].0 != sound
        invariant
            i <= clips.len(),
            clip_of(clip_bytes(clips@), sound) == clip_from(
                clip_bytes(clips@),
                sound,
                i as int,
            ),
        decreases clips.len() - i,
    {
        i += 1;
    }
    i
}

/// One value for each sound of the schedule: the warnings from the earliest to the last, and
/// zeal.
pub fn for_each_sound<T>(warn_60s: T, warn_40s: T, warn_20s: T, zeal: T) -> (r: Vec<(Sound, T)>)
    ensures
        r@ == seq![
            (Sound::Jungle(60), warn_60s),
            (Sound::Jungle(40), warn_40s),
            (Sound::Jungle(20), warn_20s),
            (Sound::Zeal, zeal),
        ],
        forall|sound: Sound| #[trigger]
            scheduled(sound) ==> exists|i: int|
                0 <= i < r@.len() && (#[trigger] r@[i]).0 == sound,
{
    let mut out: Vec<(Sound, T)> = Vec::new();
    out.push((Sound::Jungle(ANNOUNCE_OFFSETS[0]), warn_60s));
    out.push((Sound::Jungle(ANNOUNCE_OFFSETS[1]), warn_40s));
    out.push((Sound::Jungle(ANNOUNCE_OFFSETS[2]), warn_20s));
    out.push((Sound::Zeal, zeal));
    proof {
        assert forall|sound: Sound| #[trigger] scheduled(sound) implies exists|i: int|
            0 <= i < out@.len() && (#[trigger] out@[i]).0 == sound by {
            match sound {
                Sound::Jungle(offset) => {
                    let k = choose|k: int|
                        0 <= k < ANNOUNCE_OFFSETS@.len() && ANNOUNCE_OFFSETS@[k] == offset;
                    assert(out@[k].0 == sound);
                },
                Sound::Zeal => {
                    assert(out@[3].0 == sound);
                },
            }
        }
    }
    out
}

/// Tells whether there is a clip for `sound`.
fn has_clip(clips: &Vec<(Sound, Vec<Vec<u8>>)>, sound: Sound) -> (r: bool)
    ensures
        r == (clip_of(clip_bytes(clips@), sound) < clips.len()),
{
    let mut i: usize = 0;
    while i < clips.len()
        invariant
            i <= clips.len(),
            clip_of(clip_bytes(clips@), sound) == clip_from(
                clip_bytes(clips@),
                sound,
                i as int,
            ),
        decreases clips.len() - i,
    {
        if clips[i].0 == sound {
            return true;
        }
        i += 1;
    }
    false
}

/// Tells whether there is a clip for every sound of the schedule.
pub fn clips_cover_schedule(clips: &Vec<(Sound, Vec<Vec<u8>>)>) -> (r: bool)
    ensures
        r == covers_schedule(clip_bytes(clips@)),
{
    let mut i: usize = 0;
    while i < ANNOUNCE_OFFSETS.len()
        invariant
            i <= ANNOUNCE_OFFSETS@.len(),
            forall|j: int|
                0 <= j < i ==> clip_of(
                    clip_bytes(clips@),
                    Sound::Jungle(#[trigger] ANNOUNCE_OFFSETS@[j]),
                ) < clips.len(),
        decreases ANNOUNCE_OFFSETS@.len() - i,
    {
        if !has_clip(clips, Sound::Jungle(ANNOUNCE_OFFSETS[i])) {
            assert(scheduled(Sound::Jungle(ANNOUNCE_OFFSETS@[i as int])));
            return false;
        }
        i += 1;
    }
    assert(scheduled(Sound::Zeal));
    let zeal: bool = has_clip(clips, Sound::Zeal);
    proof {
        assert forall|sound: Sound| zeal && #[trigger] scheduled(sound) implies clip_of(
            clip_bytes(clips@),
            sound,
        ) < clips.len() by {
            if let Sound::Jungle(offset) = sound {
                let k = choose|k: int|
                    0 <= k < ANNOUNCE_OFFSETS@.len() && ANNOUNCE_OFFSETS@[k] == offset;
                assert(clip_of(clip_bytes(clips@), Sound::Jungle(ANNOUNCE_OFFSETS@[k]))
                    < clips.len());
            }
        }
    }
    zeal
}

/// Everything that is due in a second is a sound of the schedule.
proof fn lemma_due_is_scheduled(at: int)
    ensures
        forall|i: int|
            0 <= i < schedule::due(at).len() ==> scheduled(#[trigger] schedule::due(at)[i]),
{
    schedule::law_due_holds_what_is_scheduled(at);
    let due = schedule::due(at);
    assert forall|i: int| 0 <= i < due.len() implies scheduled(#[trigger] due[i]) by {
        if let Sound::Jungle(offset) = due[i] {
            assert(due.contains(Sound::Jungle(offset)));
        }
    }
}

impl Bot {
    /// A bot whose timer is stopped. It whispers to the server group, if one is given; zeal
    /// whispers to its own group when configured, else to the jungle target.
    pub fn new(args: &Args, clips: Vec<(Sound, Vec<Vec<u8>>)>) -> (r: Bot)
        requires
            covers_schedule(clip_bytes(clips@)),
        ensures
            r@ == BotView::fresh(
                args.whisper_server_group_id,
                args.zeal_server_group_id,
                args.whisper_scope,
                clip_bytes(clips@),
            ),
            r@ == BotView::made(args@, clip_bytes(clips@)),
            r@.wf(),
    {
        assert(clip_bytes(clips@).len() == clips.len());
        let whisper: Option<(u64, WhisperScope)> = with_scope(
            args.whisper_server_group_id,
            args.whisper_scope,
        );
        Bot {
            state: TimerState::Stopped,
            owed_from: Moment { nanos: 0 },
            target: group_target(whisper),
            playback: None,
            queue: Vec::new(),
            clips,
            whisper,
            zeal_group: with_scope(args.zeal_server_group_id, args.whisper_scope),
        }
    }

    /// What the timer is doing.
    pub fn state(&self) -> (r: TimerState)
        ensures
            r == self@.state,
    {
        self.state
    }

    /// A clip is playing.
    pub fn is_playing(&self) -> (r: bool)
        ensures
            r == (self@.playback is Some),
    {
        self.playback.is_some()
    }

    /// Audio goes to a server group.
    pub fn whispering(&self) -> (r: bool)
        ensures
            r == self@.is_whispering(),
    {
        match self.target {
            PlaybackTarget::ServerGroup { .. } => true,
            PlaybackTarget::CurrentChannel => false,
        }
    }

    /// The events that tell the GUI what the state of the bot is.
    pub fn status_events(&self) -> (r: Vec<BotEvent>)
        ensures
            r@ == seq![
                BotEvent::Timer(self@.state),
                BotEvent::Whispering(self@.is_whispering()),
            ],
            r@ == self@.news(),
    {
        let mut events: Vec<BotEvent> = Vec::new();
        events.push(BotEvent::Timer(self.state));
        events.push(BotEvent::Whispering(self.whispering()));
        events
    }

    /// Starts the next queued sound, if the line is free.
    fn pump(&mut self, now: Moment)
        requires
            old(self)@.wf(),
            now.is_reading(),
        ensures
            final(self)@ == old(self)@.pumped(now),
            final(self)@.wf(),
    {
        if self.playback.is_none() && self.queue.len() > 0 {
            let k: usize = find_turn(&self.queue);
            let ghost before = self.queue@;
            let sound: Sound = self.queue.remove(k);
            assert(scheduled(before[k as int]));
            let clip: usize = find_clip(&self.clips, sound);
            let target: PlaybackTarget = match (sound, self.zeal_group) {
                (Sound::Zeal, Some((group_id, scope))) => PlaybackTarget::ServerGroup {
                    group_id,
                    scope,
                },
                _ => self.target,
            };
            self.playback = Some(Playback { clip, idx: 0, next_at: now, target });
            proof {
                assert(self@.clips[clip as int].1.len() == self.clips@[clip as int].1.len());
                assert forall|i: int| 0 <= i < self@.queue.len() implies scheduled(
                    #[trigger] self@.queue[i],
                ) by {
                    assert(self@.queue[i] == before[if i < k {
                        i
                    } else {
                        i + 1
                    }]);
                }
            }
        }
    }

    /// When the timer has something to do next.
    fn next_transition(&self) -> (r: Option<(Moment, Due)>)
        requires
            self@.wf(),
        ensures
            r == self@.transition(),
            r matches Some((_, due)) ==> self@.can_fire(due),
    {
        match self.state {
            TimerState::Stopped => None,
            TimerState::Countdown { starts_at, elapsed } => Some(
                (starts_at, Due::GameStart { game_zero: timer::game_zero_at(starts_at, elapsed) }),
            ),
            TimerState::Running { game_zero } => match timer::next_announcement_at(
                game_zero,
                self.owed_from,
            ) {
                Some((play_at, _)) => Some((play_at, Due::Announce { play_at, game_zero })),
                None => None,
            },
        }
    }

    /// Starts the next queued sound if the line is free, stops the timer if no announcement is
    /// owed any more, and tells what the bot waits for. A deadline that is already over is to
    /// fire at once.
    pub fn prepare(&mut self, now: Moment) -> (r: Wait)
        requires
            old(self)@.wf(),
            now.is_reading(),
        ensures
            final(self)@ == old(self)@.pumped(now).settled(),
            r.pending == final(self)@.pending(),
            r.finished == old(self)@.is_over(),
            r.pending matches Some((_, due)) ==> final(self)@.can_fire(due),
            final(self)@.wf(),
    {
        self.pump(now);
        let frame: Option<(Moment, Due)> = match self.playback {
            Some(p) => Some((p.next_at, Due::Frame)),
            None => None,
        };
        let transition: Option<(Moment, Due)> = self.next_transition();
        let finished: bool = match (self.state, transition) {
            (TimerState::Running { .. }, None) => true,
            _ => false,
        };
        if finished {
            self.state = TimerState::Stopped;
        }
        let pending: Option<(Moment, Due)> = match (frame, transition) {
            (Some((frame_at, _)), Some((at, _))) => if at.nanos < frame_at.nanos {
                transition
            } else {
                frame
            },
            (Some(_), None) => frame,
            (None, _) => transition,
        };
        Wait { pending, finished }
    }

    /// Carries out the deadline `due`, and tells what is to be done about it.
    pub fn fire(&mut self, due: Due) -> (r: Effect)
        requires
            old(self)@.wf(),
            old(self)@.can_fire(due),
        ensures
            final(self)@ == old(self)@.fired(due),
            match due {
                Due::Frame => r matches Effect::Send(packet) && Some(packet@) == old(
                    self,
                )@.fired_packet(due),
                Due::GameStart { .. } => r is TimerChanged,
                Due::Announce { .. } => r is SoundsQueued,
            },
            final(self)@.wf(),
    {
        match due {
            Due::Frame => {
                let p: Playback = self.playback.unwrap();
                let frames: &Vec<Vec<u8>> = &self.clips[p.clip].1;
                assert(self@.clips[p.clip as int].1 == frames@.map_values(
                    |frame: Vec<u8>| frame@,
                ));
                if p.idx < frames.len() {
                    let packet: Vec<u8> = ts3::make_packet(&p.target, frames[p.idx].as_slice());
                    self.playback = Some(
                        Playback {
                            clip: p.clip,
                            idx: p.idx + 1,
                            next_at: p.next_at.plus(Duration { nanos: FRAME_NANOS }),
                            target: p.target,
                        },
                    );
                    Effect::Send(packet)
                } else {
                    let empty: Vec<u8> = Vec::new();
                    let packet: Vec<u8> = ts3::make_packet(&p.target, empty.as_slice());
                    self.playback = None;
                    Effect::Send(packet)
                }
            },
            Due::GameStart { game_zero } => {
                self.owed_from = match self.state {
                    TimerState::Countdown { starts_at, .. } => starts_at,
                    _ => game_zero,
                };
                self.state = TimerState::Running { game_zero };
                Effect::TimerChanged
            },
            Due::Announce { play_at, game_zero } => {
                let at: u64 = play_at.duration_since(game_zero).as_secs();
                let mut sounds: Vec<Sound> = schedule::due_sounds(at);
                proof {
                    lemma_due_is_scheduled(at as int);
                }
                self.queue.append(&mut sounds);
                self.owed_from = play_at;
                Effect::SoundsQueued
            },
        }
    }

    /// Applies a command, returning the packet that it sends, if any, and the reply text.
    /// Shared by the chat messages and the GUI.
    pub fn apply_command(&mut self, command: Command, now: Moment) -> (r: (
        Option<Vec<u8>>,
        String,
    ))
        requires
            old(self)@.wf(),
            command_fits(command, now),
        ensures
            final(self)@ == old(self)@.commanded(command, now),
            bytes_of(r.0) == old(self)@.command_packet(command),
            r.1@ == old(self)@.answer(command, now),
            final(self)@.wf(),
    {
        match command {
            Command::Help => (None, HELP.to_string()),
            Command::Channel => {
                self.target = PlaybackTarget::CurrentChannel;
                (None, "switched to channel playback".to_string())
            },
            Command::Group => match self.whisper {
                Some((id, _)) => {
                    self.target = group_target(self.whisper);
                    let mut reply: String =
                        "switched to server group whisper (group ".to_string();
                    number::push_decimal(&mut reply, id);
                    reply.append(")");
                    (None, reply)
                },
                None => (
                    None,
                    "no server group configured (use --whisper-server-group-id at startup)"
                        .to_string(),
                ),
            },
            Command::Timer(command) => {
                let mut packet: Option<Vec<u8>> = None;
                if let TimerCommand::Stop = command {
                    self.queue.clear();
                    if let Some(p) = self.playback {
                        let empty: Vec<u8> = Vec::new();
                        packet = Some(ts3::make_packet(&p.target, empty.as_slice()));
                        self.playback = None;
                    }
                }
                if let TimerCommand::Start { .. } = command {
                    self.owed_from = now;
                }
                let (state, reply): (TimerState, String) = timer::handle_command_at(
                    command,
                    &self.state,
                    now,
                );
                self.state = state;
                (packet, reply)
            },
        }
    }

    /// Takes in a chat message. Nothing is to be done if the bot wrote it, or if it is no
    /// command; else the reply is sent to whoever wrote it. A command that is not understood
    /// changes nothing, and is answered with what is wrong with it.
    pub fn on_message(&mut self, own_id: u16, from: u16, message: &str, now: Moment) -> (r: Option<
        Reply,
    >)
        requires
            old(self)@.wf(),
            now.is_reading(),
        ensures
            match BotView::heard(own_id, from, message@) {
                None => r is None && final(self)@ == old(self)@,
                Some(Ok(command)) => r matches Some(reply) && {
                    &&& final(self)@ == old(self)@.commanded(command, now)
                    &&& bytes_of(reply.packet) == old(self)@.command_packet(command)
                    &&& reply.text@ == ts3::escaped(old(self)@.answer(command, now))
                    &&& reply.accepted
                },
                Some(Err(error)) => r matches Some(reply) && {
                    &&& final(self)@ == old(self)@
                    &&& reply.packet is None
                    &&& reply.text@ == ts3::escaped(error)
                    &&& !reply.accepted
                },
            },
            final(self)@ == old(self)@.after_message(own_id, from, message@, now),
            match r {
                Some(reply) => old(self)@.reply_text(own_id, from, message@, now) == Some(
                    reply.text@,
                ),
                None => old(self)@.reply_text(own_id, from, message@, now) is None,
            },
            final(self)@.wf(),
    {
        if from == own_id {
            return None;
        }
        match command::parse_timer_command(message) {
            None => None,
            Some(Ok(command)) => {
                proof {
                    timer::law_chat_commands_fit(message@, now);
                }
                let (packet, reply): (Option<Vec<u8>>, String) = self.apply_command(command, now);
                Some(
                    Reply {
                        packet,
                        text: ts3::escape_emoticons(reply.as_str()),
                        accepted: true,
                    },
                )
            },
            Some(Err(error)) => Some(
                Reply {
                    packet: None,
                    text: ts3::escape_emoticons(error.as_str()),
                    accepted: false,
                },
            ),
        }
    }

    /// Takes in a command from the GUI. `None` means that the GUI is gone, which is a
    /// disconnect.
    pub fn on_gui(&mut self, command: Option<GuiCommand>, now: Moment) -> (r: GuiEffect)
        requires
            old(self)@.wf(),
            command matches Some(GuiCommand::Command(c)) ==> command_fits(c, now),
        ensures
            match command {
                Some(GuiCommand::Command(c)) => r matches GuiEffect::Applied(packet) && {
                    &&& final(self)@ == old(self)@.commanded(c, now)
                    &&& bytes_of(packet) == old(self)@.command_packet(c)
                },
                _ => r is Disconnect && final(self)@ == old(self)@,
            },
            final(self)@ == old(self)@.after_gui(command, now),
            final(self)@.wf(),
    {
        match command {
            Some(GuiCommand::Command(command)) => {
                let (packet, _): (Option<Vec<u8>>, String) = self.apply_command(command, now);
                GuiEffect::Applied(packet)
            },
            _ => GuiEffect::Disconnect,
        }
    }
}

} // verus!
