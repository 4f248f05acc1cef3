//! Random picks from the pool: instant draws, and the spins of an animated pick.
use vstd::prelude::*;

use crate::pool::Config;

verus! {

/// Relies on `fastrand::choice` over the range `0..n`: `None` when the range
/// is empty, else one of its values.
#[verifier::external_body]
fn choose_index(n: usize) -> (r: Option<usize>)
    ensures
        r is None <==> n == 0,
        r matches Some(i) ==> i < n,
{
    fastrand::choice(0..n)
}

/// Relies on `fastrand::usize` over `lo..hi`: a value of that range; it
/// panics on an empty range.
#[verifier::external_body]
fn random_usize(lo: usize, hi: usize) -> (r: usize)
    requires
        lo < hi,
    ensures
        lo <= r < hi,
{
    fastrand::usize(lo..hi)
}

/// Relies on `fastrand::u64` over `lo..hi`: a value of that range; it panics
/// on an empty range.
#[verifier::external_body]
fn random_u64(lo: u64, hi: u64) -> (r: u64)
    requires
        lo < hi,
    ensures
        lo <= r < hi,
{
    fastrand::u64(lo..hi)
}

/// The shortest spin, in whole seconds.
pub const SPIN_MIN_SECS: usize = 1;

/// One past the longest spin, in whole seconds.
pub const SPIN_END_SECS: usize = 3;

/// The shortest pause between two frames of a spin, in milliseconds.
pub const FRAME_MIN_MS: u64 = 50;

/// One past the longest pause between two frames of a spin, in milliseconds.
pub const FRAME_END_MS: u64 = 150;

impl Config {
    /// One uniform draw: an index into the pool, or `None` when it is empty.
    pub fn draw_index(&self) -> (r: Option<usize>)
        ensures
            r is None <==> self@.len() == 0,
            r matches Some(i) ==> i < self@.len(),
    {
        choose_index(self.current_pool.len())
    }

    /// The entries at the given indices, in the order of the indices.
    pub fn pick_with(&self, draws: &Vec<usize>) -> (r: Vec<String>)
        requires
            forall|k: int| 0 <= k < draws@.len() ==> draws@[k] < self@.len(),
        ensures
            r@.len() == draws@.len(),
            forall|k: int| 0 <= k < draws@.len() ==> #[trigger] r@[k]@ == self@[draws@[k] as int],
    {
        let mut out: Vec<String> = Vec::new();
        let mut k: usize = 0;
        while k < draws.len()
            invariant
                k <= draws@.len(),
                forall|k: int| 0 <= k < draws@.len() ==> draws@[k] < self@.len(),
                out@.len() == k,
                forall|j: int| 0 <= j < k ==> #[trigger] out@[j]@ == self@[draws@[j] as int],
            decreases draws@.len() - k,
        {
            out.push(self.current_pool[draws[k]].clone());
            k = k + 1;
        }
        out
    }

    /// `amount` independent uniform draws with replacement, without delay; `None`
    /// when the pool is empty.
    pub fn pick(&self, amount: usize) -> (r: Option<Vec<String>>)
        ensures
            r is None <==> self@.len() == 0,
            r matches Some(v) ==> v@.len() == amount && forall|k: int|
                0 <= k < amount ==> self@.contains(#[trigger] v@[k]@),
    {
        if self.current_pool.len() == 0 {
            return None;
        }
        let mut out: Vec<String> = Vec::new();
        let mut k: usize = 0;
        while k < amount
            invariant
                k <= amount,
                self@.len() > 0,
                out@.len() == k,
                forall|j: int| 0 <= j < k ==> self@.contains(#[trigger] out@[j]@),
            decreases amount - k,
        {
            if let Some(i) = self.draw_index() {
                out.push(self.current_pool[i].clone());
                assert(self@[i as int] == out@[k as int]@);
            }
            k = k + 1;
        }
        Some(out)
    }
}

/// The pause before the next frame of a spin, in milliseconds.
pub fn frame_delay_ms() -> (r: u64)
    ensures
        FRAME_MIN_MS <= r < FRAME_END_MS,
{
    random_u64(FRAME_MIN_MS, FRAME_END_MS)
}

/// One spin of an animated pick: it lasts a random whole number of seconds,
/// and each frame shows a new draw; the entry shown last is the pick.
pub struct Spin {
    /// How long the spin lasts, in milliseconds.
    pub duration_ms: u64,
    /// The entry shown by the latest frame, if any frame was drawn.
    pub current: Option<String>,
}

impl Spin {
    /// A new spin, of one or two seconds, with nothing shown yet.
    pub fn start() -> (r: Spin)
        ensures
            r.current is None,
            r.duration_ms == 1000 || r.duration_ms == 2000,
    {
        let secs = random_usize(SPIN_MIN_SECS, SPIN_END_SECS);
        Spin { duration_ms: (secs as u64) * 1000, current: None }
    }

    /// Whether another frame is due after `elapsed_ms` milliseconds: until the
    /// spin's time is up, and in any case until one frame was drawn.
    pub fn spinning(&self, elapsed_ms: u64) -> (r: bool)
        ensures
            r == (self.current is None || elapsed_ms < self.duration_ms),
    {
        self.current.is_none() || elapsed_ms < self.duration_ms
    }

    /// Draws the next frame: a new uniform draw from the pool, which the spin
    /// now shows. Returns it, or `None` and changes nothing when the pool is empty.
    pub fn frame(&mut self, pool: &Config) -> (r: Option<String>)
        ensures
            final(self).duration_ms == old(self).duration_ms,
            r is None <==> pool@.len() == 0,
            r is None ==> *final(self) == *old(self),
            r matches Some(s) ==> pool@.contains(s@) && final(self).current == Some(s),
    {
        match pool.draw_index() {
            Some(i) => {
                let s = pool.current_pool[i].clone();
                assert(pool@[i as int] == s@);
                self.current = Some(s.clone());
                Some(s)
            },
            None => None,
        }
    }

    /// The entry that the spin settled on, once it is over.
    pub fn settled(&self) -> (r: Option<String>)
        ensures
            r == self.current,
    {
        self.current.clone()
    }
}

} // verus!
