//! How a run moves from wave to wave: when a wave's armies are queued,
//! how a queued batch is spawned, when a wave counts as fought off, when
//! spawning ends after the last wave, and when the defeat of a major army
//! is noticed.
use vstd::prelude::*;

use crate::enemies::{MAX_WAVES, WaveCompletedEvent, batch_size_for_wave, spec_should_trigger_victory};

verus! {

/// Where a run stands in its waves: the wave being fought, whether its
/// armies have been queued, and whether the last wave is over.
#[derive(Clone, Copy, Debug, PartialEq, Eq, Structural)]
pub struct WaveProgress {
    pub current_wave: u32,
    pub wave_started: bool,
    pub finished_spawning: bool,
}

/// What the wave driver does on a frame.
#[derive(Clone, Copy, Debug, PartialEq, Eq, Structural)]
pub enum WaveStep {
    /// Nothing changes.
    Wait,
    /// Queue the armies of this wave.
    StartWave(u32),
    /// Announce that this wave was fought off.
    CompleteWave(WaveCompletedEvent),
}

impl WaveProgress {
    /// A progress any run can be in: its wave within 1 and the last wave,
    /// and spawning finished only on the last wave, once it started.
    pub open spec fn is_valid(self) -> bool {
        &&& 1 <= self.current_wave <= MAX_WAVES
        &&& self.finished_spawning ==> self.current_wave == MAX_WAVES && self.wave_started
    }

    /// How many waves have been fought off.
    pub open spec fn completed_waves(self) -> int {
        if self.finished_spawning {
            self.current_wave as int
        } else {
            self.current_wave - 1
        }
    }

    /// The progress when a run begins: wave 1, not yet started.
    pub fn at_run_start() -> (r: Self)
        ensures
            r == (WaveProgress { current_wave: 1, wave_started: false, finished_spawning: false }),
            r.is_valid(),
            r.completed_waves() == 0,
    {
        WaveProgress { current_wave: 1, wave_started: false, finished_spawning: false }
    }
}

/// The next progress and the step of a frame, given whether any batch is
/// still waiting to spawn and how many enemies are alive. A wave number of
/// 0 counts as wave 1. A finished run stays as it is; a wave not yet
/// started is started; a started wave with nothing left to spawn and no
/// enemy alive is completed, and the next wave follows unless it was the
/// last.
pub open spec fn spec_advance_wave_progress(
    progress: WaveProgress,
    pending_batches_empty: bool,
    alive_enemy_count: nat,
) -> (WaveProgress, WaveStep) {
    let wave: u32 = if progress.current_wave == 0 {
        1
    } else {
        progress.current_wave
    };
    if progress.finished_spawning {
        (WaveProgress { current_wave: wave, ..progress }, WaveStep::Wait)
    } else if !progress.wave_started {
        (
            WaveProgress { current_wave: wave, wave_started: true, finished_spawning: false },
            WaveStep::StartWave(wave),
        )
    } else if pending_batches_empty && alive_enemy_count == 0 {
        let done = WaveStep::CompleteWave(WaveCompletedEvent { wave_number: wave });
        if wave >= MAX_WAVES {
            (WaveProgress { current_wave: wave, wave_started: true, finished_spawning: true }, done)
        } else {
            (WaveProgress { current_wave: (wave + 1) as u32, wave_started: false, finished_spawning: false }, done)
        }
    } else {
        (WaveProgress { current_wave: wave, ..progress }, WaveStep::Wait)
    }
}

/// Drives the waves for one frame (see `spec_advance_wave_progress`).
pub fn advance_wave_progress(progress: WaveProgress, pending_batches_empty: bool, alive_enemy_count: usize) -> (r: (
    WaveProgress,
    WaveStep,
))
    ensures
        r == spec_advance_wave_progress(progress, pending_batches_empty, alive_enemy_count as nat),
{
    let mut next = progress;
    if next.current_wave == 0 {
        next.current_wave = 1;
    }
    if next.finished_spawning {
        return (next, WaveStep::Wait);
    }
    if !next.wave_started {
        next.wave_started = true;
        return (next, WaveStep::StartWave(next.current_wave));
    }
    if pending_batches_empty && alive_enemy_count == 0 {
        let completed_wave = next.current_wave;
        let step = WaveStep::CompleteWave(WaveCompletedEvent { wave_number: completed_wave });
        if completed_wave >= MAX_WAVES {
            next.finished_spawning = true;
            return (next, step);
        }
        next.current_wave = completed_wave + 1;
        next.wave_started = false;
        return (next, step);
    }
    (next, WaveStep::Wait)
}

/// Every frame keeps a valid progress valid, and the count of waves fought
/// off rises by one exactly on the frames that complete a wave.
pub proof fn lemma_wave_progress_stays_valid(
    progress: WaveProgress,
    pending_batches_empty: bool,
    alive_enemy_count: nat,
)
    requires
        progress.is_valid(),
    ensures
        ({
            let (next, step) = spec_advance_wave_progress(progress, pending_batches_empty, alive_enemy_count);
            &&& next.is_valid()
            &&& next.completed_waves() == progress.completed_waves() + (if step is CompleteWave {
                1int
            } else {
                0int
            })
        }),
{
}

/// Waves are started and completed in order: a started wave is the current
/// one, which was not started yet; a completed wave is the current one,
/// started, with nothing left to spawn and no enemy alive, and it is
/// followed by the next wave, not yet started, unless it was the last,
/// which ends spawning.
pub proof fn lemma_waves_advance_in_order(progress: WaveProgress, pending_batches_empty: bool, alive_enemy_count: nat)
    requires
        progress.is_valid(),
    ensures
        ({
            let (next, step) = spec_advance_wave_progress(progress, pending_batches_empty, alive_enemy_count);
            &&& step matches WaveStep::StartWave(wave) ==> {
                &&& wave == progress.current_wave
                &&& !progress.wave_started
                &&& next == WaveProgress { wave_started: true, ..progress }
            }
            &&& step matches WaveStep::CompleteWave(event) ==> {
                &&& event.wave_number == progress.current_wave
                &&& progress.wave_started && pending_batches_empty && alive_enemy_count == 0
                &&& if event.wave_number < MAX_WAVES {
                    next == WaveProgress {
                        current_wave: (event.wave_number + 1) as u32,
                        wave_started: false,
                        finished_spawning: false,
                    }
                } else {
                    next.finished_spawning && next.current_wave == MAX_WAVES
                }
            }
            &&& step is Wait ==> next == progress
        }),
{
}

/// Once spawning has finished, nothing changes any more.
pub proof fn lemma_finished_run_stays_finished(progress: WaveProgress, pending_batches_empty: bool, alive_enemy_count: nat)
    requires
        progress.is_valid(),
        progress.finished_spawning,
    ensures
        spec_advance_wave_progress(progress, pending_batches_empty, alive_enemy_count) == (progress, WaveStep::Wait),
{
}

/// Victory is due exactly when all the waves have been fought off and the
/// field is empty: then the completed count is the number of waves.
pub proof fn lemma_victory_after_every_wave(progress: WaveProgress, pending_batch_count: nat, alive_enemy_count: nat)
    requires
        progress.is_valid(),
    ensures
        spec_should_trigger_victory(
            progress.finished_spawning,
            progress.current_wave,
            pending_batch_count,
            alive_enemy_count,
        ) <==> (progress.completed_waves() == MAX_WAVES && pending_batch_count == 0 && alive_enemy_count == 0),
{
}

/// The progress after a history of frames from `start`, each frame giving
/// whether batches still wait to spawn and how many enemies are alive,
/// with the wave numbers announced as fought off along the way.
pub open spec fn spec_run_frames(start: WaveProgress, frames: Seq<(bool, nat)>) -> (WaveProgress, Seq<u32>)
    decreases frames.len(),
{
    if frames.len() == 0 {
        (start, Seq::empty())
    } else {
        let (before, announced) = spec_run_frames(start, frames.drop_last());
        let (after, step) = spec_advance_wave_progress(before, frames.last().0, frames.last().1);
        (
            after,
            match step {
                WaveStep::CompleteWave(event) => announced.push(event.wave_number),
                _ => announced,
            },
        )
    }
}

/// Over any history of frames from the start of a run, the waves are
/// announced as fought off once each and in order, 1, 2, 3 and so on, the
/// progress stays valid and counts exactly the waves announced, and never
/// more than the last wave.
pub proof fn lemma_waves_announced_once_in_order(frames: Seq<(bool, nat)>)
    ensures
        ({
            let start = WaveProgress { current_wave: 1, wave_started: false, finished_spawning: false };
            let (progress, announced) = spec_run_frames(start, frames);
            &&& progress.is_valid()
            &&& progress.completed_waves() == announced.len()
            &&& announced.len() <= MAX_WAVES
            &&& forall|k: int| 0 <= k < announced.len() ==> #[trigger] announced[k] == k + 1
        }),
    decreases frames.len(),
{
    let start = WaveProgress { current_wave: 1, wave_started: false, finished_spawning: false };
    if frames.len() > 0 {
        lemma_waves_announced_once_in_order(frames.drop_last());
        let (before, announced) = spec_run_frames(start, frames.drop_last());
        lemma_wave_progress_stays_valid(before, frames.last().0, frames.last().1);
        lemma_waves_advance_in_order(before, frames.last().0, frames.last().1);
        let (after, step) = spec_advance_wave_progress(before, frames.last().0, frames.last().1);
        if let WaveStep::CompleteWave(event) = step {
            let all = announced.push(event.wave_number);
            assert forall|k: int| 0 <= k < all.len() implies #[trigger] all[k] == k + 1 by {
                if k < announced.len() {
                    assert(all[k] == announced[k]);
                }
            }
        }
    }
}

/// `n` frames on which nothing waits to spawn and no enemy is alive.
pub open spec fn cleared_frames(n: nat) -> Seq<(bool, nat)> {
    Seq::new(n, |i: int| (true, 0nat))
}

/// A run whose waves are each fought off at once moves on every two
/// frames: after `n` such frames it fights wave `n / 2 + 1`, started on odd
/// counts, until after twice the number of waves spawning has finished on
/// the last wave and the run is won.
pub proof fn lemma_cleared_run_reaches_victory(n: nat)
    ensures
        ({
            let start = WaveProgress { current_wave: 1, wave_started: false, finished_spawning: false };
            let progress = spec_run_frames(start, cleared_frames(n)).0;
            &&& n < 2 * MAX_WAVES ==> progress == WaveProgress {
                current_wave: (n / 2 + 1) as u32,
                wave_started: n % 2 == 1,
                finished_spawning: false,
            }
            &&& n >= 2 * MAX_WAVES ==> progress == WaveProgress {
                current_wave: MAX_WAVES,
                wave_started: true,
                finished_spawning: true,
            } && spec_should_trigger_victory(progress.finished_spawning, progress.current_wave, 0, 0)
        }),
    decreases n,
{
    if n > 0 {
        assert(cleared_frames(n).drop_last() =~= cleared_frames((n - 1) as nat));
        lemma_cleared_run_reaches_victory((n - 1) as nat);
    }
}

/// The major-army watch after a frame, and the wave of a major army
/// whose defeat to announce: while major-army enemies are on the field
/// the watch follows their wave; on the first frame without any, the
/// watched wave is announced and the watch cleared.
pub open spec fn spec_next_major_army_watch(active_wave: Option<u32>, major_wave_on_field: Option<u32>) -> (
    Option<u32>,
    Option<u32>,
) {
    match major_wave_on_field {
        Some(wave) => (Some(wave), None),
        None => (None, active_wave),
    }
}

/// Watches the major army for one frame (see `spec_next_major_army_watch`).
pub fn next_major_army_watch(active_wave: Option<u32>, major_wave_on_field: Option<u32>) -> (r: (
    Option<u32>,
    Option<u32>,
))
    ensures
        r == spec_next_major_army_watch(active_wave, major_wave_on_field),
{
    match major_wave_on_field {
        Some(wave) => (Some(wave), None),
        None => (None, active_wave),
    }
}

/// A major army's defeat is announced once, under the wave of the major
/// army last seen: the first frame without major-army enemies announces
/// it, and a further such frame announces nothing.
pub proof fn lemma_major_army_defeat_announced_once(active_wave: Option<u32>, wave: u32)
    ensures
        ({
            let (watching, first) = spec_next_major_army_watch(active_wave, Some(wave));
            let (cleared, announced) = spec_next_major_army_watch(watching, None);
            &&& first is None
            &&& announced == Some(wave)
            &&& spec_next_major_army_watch(cleared, None).1 is None
        }),
{
}

/// The enemies a batch of wave `wave_number` spawns when it is due, and
/// those it keeps for later: the wave's batch size, at most what it has.
pub open spec fn spec_due_batch_split(remaining: u32, wave_number: u32) -> (u32, u32) {
    let grown = 7 + wave_number / 4;
    let size: u32 = if grown > 22 { 22 } else { grown as u32 };
    if remaining <= size {
        (remaining, 0)
    } else {
        (size, (remaining - size) as u32)
    }
}

/// Splits a due batch (see `spec_due_batch_split`).
pub fn due_batch_split(remaining: u32, wave_number: u32) -> (r: (u32, u32))
    ensures
        r == spec_due_batch_split(remaining, wave_number),
        r.0 + r.1 == remaining,
        remaining > 0 ==> r.0 > 0,
{
    let size = batch_size_for_wave(wave_number);
    if remaining <= size {
        (remaining, 0)
    } else {
        (size, remaining - size)
    }
}

/// What a batch of `remaining` enemies of wave `wave_number` still holds
/// after it came due `ticks` times.
pub open spec fn batch_left_after(remaining: u32, wave_number: u32, ticks: nat) -> u32
    decreases ticks,
{
    if ticks == 0 {
        remaining
    } else {
        spec_due_batch_split(batch_left_after(remaining, wave_number, (ticks - 1) as nat), wave_number).1
    }
}

/// A queued batch spawns every one of its enemies: each time it comes due
/// it spawns at least one, so after as many turns as it had enemies it is
/// empty and leaves the queue.
pub proof fn lemma_batch_drains(remaining: u32, wave_number: u32, ticks: nat)
    ensures
        batch_left_after(remaining, wave_number, ticks) <= if ticks >= remaining {
            0
        } else {
            remaining - ticks
        },
    decreases ticks,
{
    if ticks > 0 {
        lemma_batch_drains(remaining, wave_number, (ticks - 1) as nat);
    }
}

} // verus!
