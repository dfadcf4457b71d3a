use vstd::prelude::*;

verus! {

/// Largest number of intervals folded into the statistics; at this count the
/// sums are rescaled by `(n - 1) / n` before a new interval comes in.
pub const WINDOW_CAP: usize = 10000;

/// Assumed heartbeat interval of the synthetic sample that seeds a new window.
pub const DEFAULT_PRIOR_MS: u64 = 5000;

/// Timestamps are monotonic instants in nanoseconds from an arbitrary origin.
pub const NANOS_PER_MILLI: u64 = 1000000;

/// Why a heartbeat was refused.
#[derive(Debug, Clone, Copy, PartialEq, Eq, Structural)]
pub enum PingError {
    /// The heartbeat's timestamp is not strictly after the last accepted one.
    NotAfterLastPing { last_ping: u64, ping: u64 },
}

/// How one accepted heartbeat changes the running statistics.
///
/// If `evicted_from` is `Some(n)`, both running sums are first multiplied by
/// `(n - 1) / n`. Then `interval_ms` is added to the interval sum, and the
/// squared deviation of `interval_ms` from `interval sum / count` is added to
/// the squared-deviation sum.
#[derive(Debug, Clone, Copy, PartialEq, Eq, Structural)]
pub struct Fold {
    pub interval_ms: u64,
    pub evicted_from: Option<usize>,
    pub count: usize,
}

/// What a window is: how many intervals its statistics hold, when the last
/// heartbeat came, and the assumed interval of its seed sample.
pub struct WindowModel {
    pub count: nat,
    pub last_ping: nat,
    pub prior_ms: nat,
}

/// Count after one more interval is folded into a window holding `count`.
pub open spec fn next_count(count: nat) -> nat {
    if count >= WINDOW_CAP {
        WINDOW_CAP as nat
    } else {
        count + 1
    }
}

/// Count after `k` more intervals are folded into a window holding `count`.
pub open spec fn count_after(count: nat, k: nat) -> nat
    decreases k,
{
    if k == 0 {
        count
    } else {
        next_count(count_after(count, (k - 1) as nat))
    }
}

/// However many heartbeats are folded into a window, its count never exceeds
/// the cap: from `count` within bounds, `k` more intervals leave
/// `min(count + k, WINDOW_CAP)`.
pub proof fn lemma_count_after(count: nat, k: nat)
    requires
        1 <= count <= WINDOW_CAP,
    ensures
        count_after(count, k) == if count + k >= WINDOW_CAP {
            WINDOW_CAP as nat
        } else {
            count + k
        },
    decreases k,
{
    if k > 0 {
        lemma_count_after(count, (k - 1) as nat);
    }
}

/// A new window fed the cap's worth of heartbeats and one more is at the cap.
pub proof fn lemma_new_window_saturates()
    ensures
        count_after(1, WINDOW_CAP as nat) == WINDOW_CAP,
        count_after(1, (WINDOW_CAP + 1) as nat) == WINDOW_CAP,
{
    lemma_count_after(1, WINDOW_CAP as nat);
    lemma_count_after(1, (WINDOW_CAP + 1) as nat);
}

/// Whole milliseconds between two timestamps, `later` not before `earlier`.
pub open spec fn interval_ms(earlier: nat, later: nat) -> nat {
    ((later - earlier) as nat) / (NANOS_PER_MILLI as nat)
}

/// The heartbeat window of one monitored peer.
pub struct PingWindow {
    n: usize,
    last_ping: u64,
    prior_ms: u64,
}

impl View for PingWindow {
    type V = WindowModel;

    closed spec fn view(&self) -> WindowModel {
        WindowModel { count: self.n as nat, last_ping: self.last_ping as nat, prior_ms: self.prior_ms as nat }
    }
}

impl PingWindow {
    /// The window holds at least its seed sample and at most the cap.
    pub open spec fn wf(&self) -> bool {
        1 <= self@.count <= WINDOW_CAP
    }

    /// A window seeded with one synthetic interval of `DEFAULT_PRIOR_MS`,
    /// whose last heartbeat is `now`.
    pub fn new(now: u64) -> (w: Self)
        ensures
            w.wf(),
            w@.count == 1,
            w@.last_ping == now,
            w@.prior_ms == DEFAULT_PRIOR_MS,
    {
        Self::with_prior(now, DEFAULT_PRIOR_MS)
    }

    /// A window seeded with one synthetic interval of `prior_ms`, whose last
    /// heartbeat is `now`.
    pub fn with_prior(now: u64, prior_ms: u64) -> (w: Self)
        ensures
            w.wf(),
            w@.count == 1,
            w@.last_ping == now,
            w@.prior_ms == prior_ms,
    {
        PingWindow { n: 1, last_ping: now, prior_ms }
    }

    /// Number of intervals in the statistics, the seed sample included.
    pub fn sample_count(&self) -> (r: usize)
        ensures
            r == self@.count,
    {
        self.n
    }

    /// Timestamp of the last accepted heartbeat.
    pub fn last_ping(&self) -> (r: u64)
        ensures
            r == self@.last_ping,
    {
        self.last_ping
    }

    /// Assumed interval of the seed sample, in milliseconds.
    pub fn prior_ms(&self) -> (r: u64)
        ensures
            r == self@.prior_ms,
    {
        self.prior_ms
    }

    /// Nanoseconds from the last heartbeat to `now`; zero if `now` is earlier.
    pub fn elapsed(&self, now: u64) -> (r: u64)
        ensures
            r == if now >= self@.last_ping { now - self@.last_ping } else { 0 },
    {
        if now >= self.last_ping {
            now - self.last_ping
        } else {
            0
        }
    }

    /// Accepts a heartbeat at `ping`, which must be strictly after the last
    /// one; on refusal the window is left as it was.
    pub fn add_ping(&mut self, ping: u64) -> (r: Result<Fold, PingError>)
        requires
            old(self).wf(),
        ensures
            final(self).wf(),
            ping <= old(self)@.last_ping ==> r == Err::<Fold, PingError>(
                PingError::NotAfterLastPing { last_ping: old(self)@.last_ping as u64, ping },
            ) && final(self)@ == old(self)@,
            ping > old(self)@.last_ping ==> r == Ok::<Fold, PingError>(
                Fold {
                    interval_ms: interval_ms(old(self)@.last_ping, ping as nat) as u64,
                    evicted_from: if old(self)@.count == WINDOW_CAP {
                        Some(WINDOW_CAP)
                    } else {
                        None
                    },
                    count: next_count(old(self)@.count) as usize,
                },
            ) && final(self)@ == (WindowModel {
                count: next_count(old(self)@.count),
                last_ping: ping as nat,
                prior_ms: old(self)@.prior_ms,
            }),
    {
        if ping <= self.last_ping {
            return Err(PingError::NotAfterLastPing { last_ping: self.last_ping, ping });
        }
        let mut evicted_from: Option<usize> = None;
        if self.n == WINDOW_CAP {
            evicted_from = Some(self.n);
            self.n = self.n - 1;
        }
        let interval_ms: u64 = (ping - self.last_ping) / NANOS_PER_MILLI;
        self.last_ping = ping;
        self.n = self.n + 1;
        Ok(Fold { interval_ms, evicted_from, count: self.n })
    }
}

} // verus!
