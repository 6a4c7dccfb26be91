//! When each sound of a game is due.
//!
//! Time is counted in whole seconds since the game started. Jungle camps spawn every five
//! minutes and are announced 60, 40 and 20 seconds ahead; zeal is announced when it spawns.

use vstd::prelude::*;

verus! {

/// Length of a game in seconds (30:00).
pub const GAME_LENGTH_SECS: u64 = 1800;

/// Seconds between two camp spawns.
pub const JUNGLE_INTERVAL_SECS: u64 = 300;

/// How many seconds ahead of a camp spawn its warnings play.
pub const ANNOUNCE_OFFSETS: [u64; 3] = [60, 40, 20];

/// Zeal spawns 15 s after game start (29:45 on the clock), then every 3:05. The last one lands
/// at 08:10; the next, at 05:05, is suppressed.
pub const ZEAL_FIRST_SECS: u64 = 15;

/// Seconds between two zeal spawns.
pub const ZEAL_INTERVAL_SECS: u64 = 185;

/// No zeal spawns after this second (08:00 on the clock).
pub const ZEAL_LAST_SECS: u64 = 1320;

/// A scheduled sound: a jungle warning so many seconds before a camp spawn, or the zeal spawn
/// itself.
#[derive(Debug, Clone, Copy, PartialEq, Eq, Structural)]
pub enum Sound {
    Jungle(u64),
    Zeal,
}

/// A camp spawns in second `t`: every five minutes, but not at the start or the end.
pub open spec fn camp_spawns(t: int) -> bool {
    JUNGLE_INTERVAL_SECS <= t < GAME_LENGTH_SECS && t % (JUNGLE_INTERVAL_SECS as int) == 0
}

/// Zeal spawns in second `t`.
pub open spec fn zeal_spawns(t: int) -> bool {
    ZEAL_FIRST_SECS <= t <= ZEAL_LAST_SECS && (t - ZEAL_FIRST_SECS) % (ZEAL_INTERVAL_SECS as int)
        == 0
}

/// The warnings that play in second `at`, for those `offsets` that lie a camp spawn ahead.
pub open spec fn warnings(at: int, offsets: Seq<u64>) -> Seq<Sound>
    decreases offsets.len(),
{
    if offsets.len() == 0 {
        seq![]
    } else {
        let earlier = warnings(at, offsets.drop_last());
        if camp_spawns(at + offsets.last()) {
            earlier.push(Sound::Jungle(offsets.last()))
        } else {
            earlier
        }
    }
}

/// All sounds due in second `at`, jungle warnings first.
pub open spec fn due(at: int) -> Seq<Sound> {
    let jungle = warnings(at, ANNOUNCE_OFFSETS@);
    if zeal_spawns(at) {
        jungle.push(Sound::Zeal)
    } else {
        jungle
    }
}

/// The first second after `e` in which a sound is due before the game ends, with the first of
/// the sounds due there.
pub open spec fn next_due(e: int) -> Option<(int, Sound)>
    decreases GAME_LENGTH_SECS - e,
{
    if e + 1 >= GAME_LENGTH_SECS {
        None
    } else if due(e + 1).len() > 0 {
        Some((e + 1, due(e + 1)[0]))
    } else {
        next_due(e + 1)
    }
}

/// All sounds scheduled exactly `at` seconds after game start, jungle warnings first. Single
/// source of truth for the schedule; almost always one entry, but several when timings are
/// changed to overlap. The bot queues those and plays them back to back.
pub fn due_sounds(at: u64) -> (r: Vec<Sound>)
    ensures
        r@ == due(at as int),
{
    let mut sounds: Vec<Sound> = Vec::new();
    let mut i: usize = 0;
    while i < ANNOUNCE_OFFSETS.len()
        invariant
            i <= ANNOUNCE_OFFSETS@.len(),
            sounds@ == warnings(at as int, ANNOUNCE_OFFSETS@.take(i as int)),
        decreases ANNOUNCE_OFFSETS@.len() - i,
    {
        let offset: u64 = ANNOUNCE_OFFSETS[i];
        proof {
            assert(ANNOUNCE_OFFSETS@.take(i + 1).drop_last() == ANNOUNCE_OFFSETS@.take(i as int));
        }
        if at < GAME_LENGTH_SECS && offset < GAME_LENGTH_SECS {
            let spawn: u64 = at + offset;
            if spawn >= JUNGLE_INTERVAL_SECS && spawn < GAME_LENGTH_SECS && spawn
                % JUNGLE_INTERVAL_SECS == 0 {
                sounds.push(Sound::Jungle(offset));
            }
        }
        i += 1;
    }
    assert(ANNOUNCE_OFFSETS@.take(i as int) == ANNOUNCE_OFFSETS@);
    if ZEAL_FIRST_SECS <= at && at <= ZEAL_LAST_SECS && (at - ZEAL_FIRST_SECS) % ZEAL_INTERVAL_SECS
        == 0 {
        sounds.push(Sound::Zeal);
    }
    sounds
}

/// The first scheduled sound strictly after `e` seconds of game time.
pub fn next_after(e: u64) -> (r: Option<(u64, Sound)>)
    ensures
        r is Some <==> next_due(e as int) is Some,
        r matches Some((at, sound)) ==> {
            &&& next_due(e as int) == Some((at as int, sound))
            &&& e < at < GAME_LENGTH_SECS
        },
{
    let mut last: u64 = e;
    while last < GAME_LENGTH_SECS - 1
        invariant
            e <= last,
            next_due(e as int) == next_due(last as int),
        decreases GAME_LENGTH_SECS - last,
    {
        let at: u64 = last + 1;
        let sounds: Vec<Sound> = due_sounds(at);
        if sounds.len() > 0 {
            return Some((at, sounds[0]));
        }
        last = at;
    }
    None
}

/// The warning `offset` seconds ahead of a camp spawn, if second `at` is the time for it.
spec fn one_warning(at: int, offset: u64) -> Seq<Sound> {
    if camp_spawns(at + offset) {
        seq![Sound::Jungle(offset)]
    } else {
        seq![]
    }
}

proof fn lemma_warnings(at: int)
    ensures
        warnings(at, ANNOUNCE_OFFSETS@) == one_warning(at, 60) + one_warning(at, 40) + one_warning(
            at,
            20,
        ),
{
    reveal_with_fuel(warnings, 4);
    let all = ANNOUNCE_OFFSETS@;
    assert(all == seq![60u64, 40u64, 20u64]);
    assert(all.drop_last() == seq![60u64, 40u64]);
    assert(all.drop_last().drop_last() == seq![60u64]);
    assert(all.drop_last().drop_last().drop_last() == Seq::<u64>::empty());
    assert(warnings(at, all) =~= one_warning(at, 60) + one_warning(at, 40) + one_warning(at, 20));
}

/// No two sounds are due in the same second; so zeal never collides with a jungle warning.
pub proof fn law_no_two_sounds_collide(at: int)
    ensures
        due(at).len() <= 1,
        !(due(at).contains(Sound::Zeal) && exists|offset: u64|
            due(at).contains(Sound::Jungle(offset))),
{
    lemma_warnings(at);
    if due(at).contains(Sound::Zeal) {
        assert(due(at)[0] == Sound::Zeal);
        assert forall|offset: u64| !due(at).contains(Sound::Jungle(offset)) by {}
    }
}

/// What is due in a second: the warning of each announced offset that lies a camp spawn ahead,
/// zeal where it spawns, and nothing else. Zeal stands behind every warning.
pub proof fn law_due_holds_what_is_scheduled(at: int)
    ensures
        forall|offset: u64|
            #[trigger] due(at).contains(Sound::Jungle(offset)) <==> ANNOUNCE_OFFSETS@.contains(
                offset,
            ) && camp_spawns(at + offset),
        due(at).contains(Sound::Zeal) <==> zeal_spawns(at),
        forall|i: int| 0 <= i < due(at).len() - 1 ==> #[trigger] due(at)[i] != Sound::Zeal,
{
    lemma_warnings(at);
    let d = due(at);
    let w = warnings(at, ANNOUNCE_OFFSETS@);
    let all = ANNOUNCE_OFFSETS@;
    assert(all == seq![60u64, 40u64, 20u64]);
    assert forall|offset: u64|
        #[trigger] d.contains(Sound::Jungle(offset)) <==> all.contains(offset) && camp_spawns(
            at + offset,
        ) by {
        if d.contains(Sound::Jungle(offset)) {
            let i = choose|i: int| 0 <= i < d.len() && d[i] == Sound::Jungle(offset);
            assert(w[i] == Sound::Jungle(offset));
            assert(all[0] == 60 && all[1] == 40 && all[2] == 20);
        }
        if all.contains(offset) && camp_spawns(at + offset) {
            let i = choose|i: int| 0 <= i < all.len() && all[i] == offset;
            let k = if i == 0 {
                0int
            } else if i == 1 {
                one_warning(at, 60).len() as int
            } else {
                (one_warning(at, 60) + one_warning(at, 40)).len() as int
            };
            assert(w[k] == Sound::Jungle(offset));
            assert(d[k] == Sound::Jungle(offset));
        }
    }
    if zeal_spawns(at) {
        assert(d.last() == Sound::Zeal);
    }
}

/// Zeal spawns at 29:45, 26:40, 23:35, 20:30, 17:25, 14:20, 11:15 and 8:10 on the clock, and at
/// no other time.
pub proof fn law_zeal_times(at: int)
    ensures
        due(at).contains(Sound::Zeal) <==> at == 15 || at == 200 || at == 385 || at == 570 || at
            == 755 || at == 940 || at == 1125 || at == 1310,
{
    law_due_holds_what_is_scheduled(at);
}

/// Each warning plays five times, once ahead of each spawn mark at 25:00, 20:00, 15:00, 10:00
/// and 5:00, and at no other time.
pub proof fn law_warning_times(at: int, offset: u64)
    requires
        ANNOUNCE_OFFSETS@.contains(offset),
    ensures
        due(at).contains(Sound::Jungle(offset)) <==> at + offset == 300 || at + offset == 600 || at
            + offset == 900 || at + offset == 1200 || at + offset == 1500,
{
    law_due_holds_what_is_scheduled(at);
}

/// Nothing plays at the start of the game, nor from its end on.
pub proof fn law_start_and_end_are_silent(at: int)
    requires
        at <= 0 || at >= GAME_LENGTH_SECS,
    ensures
        due(at).len() == 0,
{
    lemma_warnings(at);
}

/// The next announcement after second `e` is the first one there is: nothing is due between `e`
/// and it, and if there is none, nothing is due in the rest of the game.
pub proof fn law_next_is_first(e: int)
    ensures
        next_due(e) matches Some((at, sound)) ==> {
            &&& e < at < GAME_LENGTH_SECS
            &&& due(at).len() > 0
            &&& due(at)[0] == sound
            &&& forall|b: int| e < b < at ==> (#[trigger] due(b)).len() == 0
        },
        next_due(e) is None ==> forall|b: int| e < b ==> (#[trigger] due(b)).len() == 0,
    decreases GAME_LENGTH_SECS - e,
{
    if e + 1 >= GAME_LENGTH_SECS {
        assert forall|b: int| e < b implies (#[trigger] due(b)).len() == 0 by {
            law_start_and_end_are_silent(b);
        }
    } else if due(e + 1).len() == 0 {
        law_next_is_first(e + 1);
    }
}

/// Whoever asks at any second from `e` up to the announcement that follows `e` is told of that
/// same announcement; whoever asks once it is due is told of a later one, or of none.
pub proof fn law_each_announcement_comes_once(e: int, x: int)
    requires
        e <= x,
    ensures
        next_due(e) matches Some((at, _)) ==> {
            &&& x < at ==> next_due(x) == next_due(e)
            &&& x >= at ==> (next_due(x) matches Some((later, _)) ==> later > at)
        },
        next_due(e) is None ==> next_due(x) is None,
    decreases x - e,
{
    law_next_is_first(e);
    law_next_is_first(x);
    if e < x && due(e + 1).len() == 0 {
        law_each_announcement_comes_once(e + 1, x);
    }
}

/// The last announcement of a game is the 20 s warning for the camp at 5:00, at 5:20 on the
/// clock; from then on nothing is left to announce.
pub proof fn law_last_announcement(e: int)
    ensures
        next_due(e) is None <==> e >= 1480,
{
    law_next_is_first(e);
    lemma_warnings(1480);
    assert(one_warning(1480, 20).len() == 1);
    assert(due(1480).len() > 0);
    if e >= 1480 {
        if let Some((at, _)) = next_due(e) {
            lemma_warnings(at);
        }
    }
}

/// What is due in each second of a game: zeal at its eight times, the warnings 60, 40 and 20
/// seconds before each of the five spawn marks, and nothing in any other second.
pub proof fn law_due_by_the_second(at: int)
    ensures
        due(at) == (if at == 15 || at == 200 || at == 385 || at == 570 || at == 755 || at == 940
            || at == 1125 || at == 1310 {
            seq![Sound::Zeal]
        } else if at == 240 || at == 540 || at == 840 || at == 1140 || at == 1440 {
            seq![Sound::Jungle(60)]
        } else if at == 260 || at == 560 || at == 860 || at == 1160 || at == 1460 {
            seq![Sound::Jungle(40)]
        } else if at == 280 || at == 580 || at == 880 || at == 1180 || at == 1480 {
            seq![Sound::Jungle(20)]
        } else {
            seq![]
        }),
{
    lemma_warnings(at);
    law_zeal_times(at);
    law_due_holds_what_is_scheduled(at);
    law_no_two_sounds_collide(at);
    let expected = if zeal_spawns(at) {
        seq![Sound::Zeal]
    } else {
        one_warning(at, 60) + one_warning(at, 40) + one_warning(at, 20)
    };
    assert(due(at) =~= expected);
}

} // verus!
