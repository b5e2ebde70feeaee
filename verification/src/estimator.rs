//! Log-driven installation progress estimation.
//!
//! An external installer writes a free-text log.  The estimator tails that
//! log on its own execution unit: it waits (bounded) for the file to appear,
//! then repeatedly scans each newly appended chunk of bytes for known
//! milestone substrings, raising a local floor to the highest milestone seen
//! and publishing `max(published, floor)` so the published raw progress
//! never regresses.  Failures never propagate: estimation simply ends early
//! with whatever was last published.

use vstd::prelude::*;
use vstd::string::StrSliceExecFns;
use crate::text::ascii_bytes;
use crate::text::contains_pattern;
use crate::text::find_pattern;

verus! {

/// Number of entries in the milestone table.
pub const MILESTONE_COUNT: usize = 10;

/// How long the estimator waits for the log file to appear before giving up.
pub const FILE_WAIT_TIMEOUT_MS: u64 = 30_000;

/// Pause between successive polls of the log file.
pub const POLL_INTERVAL_MS: u64 = 100;

/// The milestone table: entry `k` is a lower-case substring whose presence
/// in the log guarantees at least `milestone_value(k)` percent progress.
pub open spec fn milestone_pattern(k: int) -> Seq<u8> {
    if k == 0 {
        ascii_bytes("generating script"@)
    } else if k == 1 {
        ascii_bytes("action start"@)
    } else if k == 2 {
        ascii_bytes("createfolders"@)
    } else if k == 3 {
        ascii_bytes("installfiles"@)
    } else if k == 4 {
        ascii_bytes("writeregistryvalues"@)
    } else if k == 5 {
        ascii_bytes("registerproduct"@)
    } else if k == 6 {
        ascii_bytes("publishproduct"@)
    } else if k == 7 {
        ascii_bytes("installfinalize"@)
    } else if k == 8 {
        ascii_bytes("installation completed successfully"@)
    } else if k == 9 {
        ascii_bytes("installation operation completed"@)
    } else {
        Seq::empty()
    }
}

/// Minimum progress percentage guaranteed by milestone `k`.
/// The last two entries are terminal: they floor the value to 100.
pub open spec fn milestone_value(k: int) -> u32 {
    if k == 0 {
        10u32
    } else if k == 1 {
        15u32
    } else if k == 2 {
        25u32
    } else if k == 3 {
        40u32
    } else if k == 4 {
        55u32
    } else if k == 5 {
        70u32
    } else if k == 6 {
        80u32
    } else if k == 7 {
        90u32
    } else if k == 8 {
        100u32
    } else if k == 9 {
        100u32
    } else {
        0u32
    }
}

/// The text of milestone pattern `k`.
pub fn milestone_pattern_text(k: usize) -> (s: &'static str)
    requires
        k < MILESTONE_COUNT,
    ensures
        s.is_ascii(),
        ascii_bytes(s@) == milestone_pattern(k as int),
{
    proof {
        reveal_strlit("generating script");
        reveal_strlit("action start");
        reveal_strlit("createfolders");
        reveal_strlit("installfiles");
        reveal_strlit("writeregistryvalues");
        reveal_strlit("registerproduct");
        reveal_strlit("publishproduct");
        reveal_strlit("installfinalize");
        reveal_strlit("installation completed successfully");
        reveal_strlit("installation operation completed");
    }
    match k {
        0 => "generating script",
        1 => "action start",
        2 => "createfolders",
        3 => "installfiles",
        4 => "writeregistryvalues",
        5 => "registerproduct",
        6 => "publishproduct",
        7 => "installfinalize",
        8 => "installation completed successfully",
        _ => "installation operation completed",
    }
}

/// The progress percentage of milestone `k`.
pub fn milestone_level(k: usize) -> (v: u32)
    requires
        k < MILESTONE_COUNT,
    ensures
        v == milestone_value(k as int),
{
    match k {
        0 => 10,
        1 => 15,
        2 => 25,
        3 => 40,
        4 => 55,
        5 => 70,
        6 => 80,
        7 => 90,
        _ => 100,
    }
}

/// One evaluation step of the milestone table: raise `acc` to milestone
/// `k`'s value if its pattern occurs in `content`.
pub open spec fn scan_step(content: Seq<u8>, acc: u32, k: int) -> u32 {
    if contains_pattern(content, milestone_pattern(k)) && milestone_value(k) > acc {
        milestone_value(k)
    } else {
        acc
    }
}

/// The floor after evaluating milestones `0 .. k` on `content`,
/// starting from `start`.
pub open spec fn scan_upto(content: Seq<u8>, start: u32, k: int) -> u32
    decreases k,
{
    if k <= 0 {
        start
    } else {
        scan_step(content, scan_upto(content, start, k - 1), k - 1)
    }
}

/// The local floor after checking one chunk of log text against the whole
/// milestone table: the maximum of `start` and every matched milestone.
pub open spec fn scan_floor(content: Seq<u8>, start: u32) -> u32 {
    scan_upto(content, start, MILESTONE_COUNT as int)
}

/// What the shared progress counter holds after a publication step:
/// it only ever moves up.
pub open spec fn publish_value(published: u32, floor: u32) -> u32 {
    if floor > published {
        floor
    } else {
        published
    }
}

/// Publication step for the shared progress counter.
pub fn publish(published: u32, floor: u32) -> (r: u32)
    ensures
        r == publish_value(published, floor),
        r >= published,
{
    if floor > published {
        floor
    } else {
        published
    }
}

/// Check one chunk of log bytes against the milestone table.
pub fn scan_chunk(content: &Vec<u8>, start: u32) -> (r: u32)
    ensures
        r == scan_floor(content@, start),
{
    let mut acc = start;
    let mut k: usize = 0;
    while k < MILESTONE_COUNT
        invariant
            k <= MILESTONE_COUNT,
            acc == scan_upto(content@, start, k as int),
        decreases MILESTONE_COUNT - k,
    {
        let pat_text = milestone_pattern_text(k);
        let pat = pat_text.as_bytes_vec();
        proof {
            broadcast use vstd::string::is_ascii_spec_bytes;

            assert(pat@ =~= milestone_pattern(k as int));
        }
        if find_pattern(content, &pat) {
            let v = milestone_level(k);
            if v > acc {
                acc = v;
            }
        }
        k += 1;
    }
    acc
}

/// Scanning never lowers the floor.
pub proof fn lemma_scan_upto_ge(content: Seq<u8>, start: u32, k: int)
    ensures
        scan_upto(content, start, k) >= start,
    decreases k,
{
    if k > 0 {
        lemma_scan_upto_ge(content, start, k - 1);
    }
}

/// Scanning keeps the floor within `[0, 100]`.
pub proof fn lemma_scan_upto_le(content: Seq<u8>, start: u32, k: int)
    requires
        start <= 100,
    ensures
        scan_upto(content, start, k) <= 100,
    decreases k,
{
    if k > 0 {
        lemma_scan_upto_le(content, start, k - 1);
    }
}

/// The scan result is exactly the maximum of `start` and the values of the
/// matched milestones: at least `start`, at least every matched milestone's
/// value, and equal to one of them.  In particular it does not depend on
/// the order in which the table is evaluated.
pub proof fn lemma_scan_characterization(content: Seq<u8>, start: u32, k: int)
    requires
        0 <= k,
    ensures
        scan_upto(content, start, k) >= start,
        forall|j: int|
            0 <= j < k && contains_pattern(content, milestone_pattern(j))
                ==> scan_upto(content, start, k) >= milestone_value(j),
        scan_upto(content, start, k) == start || (exists|j: int|
            0 <= j < k && contains_pattern(content, milestone_pattern(j))
                && scan_upto(content, start, k) == milestone_value(j)),
    decreases k,
{
    if k > 0 {
        lemma_scan_characterization(content, start, k - 1);
    }
}

/// If exactly one milestone `j` occurs in `content` and the floor starts
/// at or below its value, the scan yields exactly that value: the raw
/// progress of a log that only ever shows milestone `j` caps there.
pub proof fn lemma_single_milestone_caps(content: Seq<u8>, start: u32, j: int)
    requires
        0 <= j < MILESTONE_COUNT,
        contains_pattern(content, milestone_pattern(j)),
        forall|k: int|
            0 <= k < MILESTONE_COUNT && k != j
                ==> !contains_pattern(content, milestone_pattern(k)),
        start <= milestone_value(j),
    ensures
        scan_floor(content, start) == milestone_value(j),
{
    lemma_scan_characterization(content, start, MILESTONE_COUNT as int);
}

/// The floor and the published value after the estimator has consumed the
/// first `n` chunks of log text, starting from zero.
pub open spec fn published_after(chunks: Seq<Seq<u8>>, n: int) -> (u32, u32)
    decreases n,
{
    if n <= 0 {
        (0u32, 0u32)
    } else {
        let prev = published_after(chunks, n - 1);
        let f = scan_floor(chunks[n - 1], prev.0);
        (f, publish_value(prev.1, f))
    }
}

/// A log that only ever shows milestone `j` caps the estimator: across
/// any number of reads, both the local floor and the published raw
/// progress stay at or below milestone `j`'s value, until the driver
/// forces completion when the install process returns.
pub proof fn lemma_capped_run(chunks: Seq<Seq<u8>>, n: int, j: int)
    requires
        0 <= n,
        0 <= j < MILESTONE_COUNT,
        forall|i: int, k: int|
            0 <= i < n && 0 <= k < MILESTONE_COUNT && k != j ==> !#[trigger] contains_pattern(
                chunks[i],
                milestone_pattern(k),
            ),
    ensures
        published_after(chunks, n).0 <= milestone_value(j),
        published_after(chunks, n).1 <= milestone_value(j),
    decreases n,
{
    if n > 0 {
        lemma_capped_run(chunks, n - 1, j);
        let prev = published_after(chunks, n - 1);
        lemma_scan_characterization(chunks[n - 1], prev.0, MILESTONE_COUNT as int);
    }
}

/// Published raw progress is non-decreasing over time, for every sequence
/// of log chunks and so for every order in which milestones are matched.
pub proof fn lemma_raw_progress_monotone(chunks: Seq<Seq<u8>>, i: int, j: int)
    requires
        0 <= i <= j,
    ensures
        published_after(chunks, i).1 <= published_after(chunks, j).1,
    decreases j - i,
{
    if i < j {
        lemma_raw_progress_monotone(chunks, i, j - 1);
    }
}

/// The phase of one estimation run.
#[derive(Clone, Copy, PartialEq, Eq, Structural, Debug)]
pub enum TailPhase {
    WaitingForFile,
    Tailing,
    Stopped,
}

/// The state of the log-tailing execution unit.  The shared progress
/// counter is not part of the state: publication steps take its current
/// value and return the value to store.
#[derive(Clone, Copy, PartialEq, Eq, Structural, Debug)]
pub struct LogProgressEstimator {
    pub phase: TailPhase,
    pub local_floor: u32,
    pub waited_ms: u64,
}

impl LogProgressEstimator {
    pub open spec fn wf(self) -> bool {
        &&& self.local_floor <= 100
        &&& self.waited_ms <= FILE_WAIT_TIMEOUT_MS + POLL_INTERVAL_MS
    }

    /// The state a run starts from.
    pub open spec fn initial() -> Self {
        LogProgressEstimator {
            phase: TailPhase::WaitingForFile,
            local_floor: 0,
            waited_ms: 0,
        }
    }

    /// Start a new estimation run, waiting for the log file.
    pub fn start() -> (e: Self)
        ensures
            e == Self::initial(),
            e.wf(),
    {
        LogProgressEstimator {
            phase: TailPhase::WaitingForFile,
            local_floor: 0,
            waited_ms: 0,
        }
    }

    /// One poll while waiting for the log file to appear: the file coming
    /// into existence starts tailing; running out the timeout or seeing the
    /// stop signal ends the run silently; otherwise one poll interval of
    /// waiting is recorded.
    pub open spec fn waiting_step(self, stop: bool, file_exists: bool) -> Self {
        if file_exists {
            LogProgressEstimator { phase: TailPhase::Tailing, ..self }
        } else if self.waited_ms >= FILE_WAIT_TIMEOUT_MS {
            LogProgressEstimator { phase: TailPhase::Stopped, ..self }
        } else if stop {
            LogProgressEstimator { phase: TailPhase::Stopped, ..self }
        } else {
            LogProgressEstimator { waited_ms: (self.waited_ms + POLL_INTERVAL_MS) as u64, ..self }
        }
    }

    /// Poll for the log file.  Never touches the floor, so a run that waits
    /// never reports progress.
    pub fn poll_waiting(&mut self, stop: bool, file_exists: bool)
        requires
            old(self).phase is WaitingForFile,
            old(self).wf(),
        ensures
            *final(self) == old(self).waiting_step(stop, file_exists),
            final(self).local_floor == old(self).local_floor,
            final(self).wf(),
    {
        if file_exists {
            self.phase = TailPhase::Tailing;
        } else if self.waited_ms >= FILE_WAIT_TIMEOUT_MS {
            self.phase = TailPhase::Stopped;
        } else if stop {
            self.phase = TailPhase::Stopped;
        } else {
            self.waited_ms = self.waited_ms + POLL_INTERVAL_MS;
        }
    }

    /// One poll while tailing: the stop signal ends the run; otherwise a
    /// newly read chunk (if any) raises the local floor by the milestone
    /// scan and the published value follows it; a failed or empty read is
    /// a no-op.
    pub open spec fn tailing_step(self, stop: bool, chunk: Option<Seq<u8>>, published: u32) -> (
        Self,
        u32,
    ) {
        if stop {
            (LogProgressEstimator { phase: TailPhase::Stopped, ..self }, published)
        } else {
            match chunk {
                Some(c) => {
                    let f = scan_floor(c, self.local_floor);
                    (LogProgressEstimator { local_floor: f, ..self }, publish_value(published, f))
                },
                None => (self, published),
            }
        }
    }

    /// Poll the open log file once.  Returns the value to store in the
    /// shared progress counter, which never regresses.
    pub fn poll_tailing(
        &mut self,
        stop: bool,
        chunk: Option<&Vec<u8>>,
        published: u32,
    ) -> (new_published: u32)
        requires
            old(self).phase is Tailing,
            old(self).wf(),
            published <= 100,
        ensures
            chunk matches Some(c) ==> (*final(self), new_published) == old(self).tailing_step(
                stop,
                Some(c@),
                published,
            ),
            chunk is None ==> (*final(self), new_published) == old(self).tailing_step(
                stop,
                None,
                published,
            ),
            final(self).wf(),
            final(self).local_floor >= old(self).local_floor,
            new_published >= published,
            new_published <= 100,
    {
        if stop {
            self.phase = TailPhase::Stopped;
            published
        } else {
            match chunk {
                Some(c) => {
                    proof {
                        lemma_scan_upto_ge(c@, self.local_floor, MILESTONE_COUNT as int);
                        lemma_scan_upto_le(c@, self.local_floor, MILESTONE_COUNT as int);
                    }
                    let f = scan_chunk(c, self.local_floor);
                    self.local_floor = f;
                    publish(published, f)
                },
                None => published,
            }
        }
    }

    /// End tailing, on the stop signal or on any read failure: estimation
    /// finishes early with whatever was last published.
    pub fn halt(&mut self)
        ensures
            *final(self) == (LogProgressEstimator { phase: TailPhase::Stopped, ..*old(self) }),
    {
        self.phase = TailPhase::Stopped;
    }

    /// The state after `n` polls in the waiting phase during which the log
    /// file never exists, with arbitrary stop signals.
    pub open spec fn waiting_run(stops: Seq<bool>, n: int) -> Self
        decreases n,
    {
        if n <= 0 {
            Self::initial()
        } else {
            Self::waiting_run(stops, n - 1).waiting_step(stops[n - 1], false)
        }
    }

    /// If the log file never appears, the estimator never starts tailing and
    /// its floor stays at zero, so it reports no progress at all; and after
    /// the timeout has run out it has stopped.
    pub proof fn lemma_no_file_no_progress(stops: Seq<bool>, n: int)
        requires
            0 <= n,
        ensures
            Self::waiting_run(stops, n).local_floor == 0,
            !(Self::waiting_run(stops, n).phase is Tailing),
            Self::waiting_run(stops, n).phase is WaitingForFile ==> Self::waiting_run(
                stops,
                n,
            ).waited_ms == POLL_INTERVAL_MS * n,
            n > 300 ==> Self::waiting_run(stops, n).phase is Stopped,
        decreases n,
    {
        if n > 0 {
            Self::lemma_no_file_no_progress(stops, n - 1);
        }
    }
}

} // verus!
