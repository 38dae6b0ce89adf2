//! Toast notifications: transient messages that expire after a duration
//! chosen by their level, kept in a first-in first-out queue of at most ten
//! (pushing past the cap evicts the oldest).

use std::time::{Duration, Instant};
use vstd::prelude::*;

use crate::text::IntoText;

verus! {

#[verifier::external_type_specification]
#[verifier::external_body]
pub struct ExInstant(Instant);

/// `Instant::clone`: `Instant` is `Copy`, so a clone is the same instant.
pub assume_specification[ <Instant as Clone>::clone ](t: &Instant) -> (r: Instant)
    ensures
        r == *t,
;

/// `Duration::clone`: `Duration` is `Copy`, so a clone is the same duration.
pub assume_specification[ <Duration as Clone>::clone ](d: &Duration) -> (r: Duration)
    ensures
        r == *d,
;

/// The number of nanoseconds a duration holds (`Duration::as_nanos`).
pub uninterp spec fn duration_nanos(d: Duration) -> u128;

/// `Duration::from_secs`: a duration of `secs` whole seconds, that is
/// `secs * 10^9` nanoseconds.
#[verifier::external_body]
fn duration_from_secs(secs: u64) -> (d: Duration)
    ensures
        duration_nanos(d) == secs * 1_000_000_000,
{
    Duration::from_secs(secs)
}

/// `Duration::as_nanos`: the total number of nanoseconds the duration holds.
#[verifier::external_body]
fn duration_as_nanos(d: &Duration) -> (r: u128)
    ensures
        r == duration_nanos(*d),
{
    d.as_nanos()
}

/// `Instant::now`: the current instant (nothing is known of its value).
#[verifier::external_body]
fn instant_now() -> Instant {
    Instant::now()
}

/// `Instant::elapsed`: the time since `t` (it depends on the clock, so
/// nothing is stated of it).
#[verifier::external_body]
fn instant_elapsed(t: &Instant) -> Duration {
    t.elapsed()
}

/// Severity level of a toast, in increasing order of severity.
#[derive(Debug, Clone, Copy, PartialEq, Eq, PartialOrd, Ord, Structural)]
pub enum ToastLevel {
    /// Informational message.
    Info,
    /// An operation completed.
    Success,
    /// A non-critical warning.
    Warning,
    /// A critical error.
    Error,
}

/// How long a toast of the given level stays, in seconds: 8 for an error,
/// 3 otherwise.
pub open spec fn level_secs(level: ToastLevel) -> u64 {
    match level {
        ToastLevel::Error => 8,
        _ => 3,
    }
}

/// A single toast.
#[derive(Debug)]
pub struct Toast {
    /// Severity level.
    pub level: ToastLevel,
    /// Message text.
    pub message: String,
    /// When the toast was created.
    pub created_at: Instant,
    /// How long the toast stays before it expires.
    pub duration: Duration,
}

/// A toast of the given level and message with its level's duration.
pub open spec fn is_toast_for(t: Toast, level: ToastLevel, message: Seq<char>) -> bool {
    &&& t.level == level
    &&& t.message@ == message
    &&& duration_nanos(t.duration) == level_secs(level) * 1_000_000_000
}

impl Toast {
    /// A toast created now, lasting 3 seconds (8 for an error).
    pub fn new(level: ToastLevel, message: String) -> (r: Self)
        ensures
            is_toast_for(r, level, message@),
    {
        let secs: u64 = match level {
            ToastLevel::Info | ToastLevel::Success | ToastLevel::Warning => 3,
            ToastLevel::Error => 8,
        };
        let duration = duration_from_secs(secs);
        Toast { level, message, created_at: instant_now(), duration }
    }

    /// Whether a toast `elapsed` after its creation has expired: at or past
    /// its duration.
    pub fn expired_after(&self, elapsed: &Duration) -> (r: bool)
        ensures
            r == (duration_nanos(*elapsed) >= duration_nanos(self.duration)),
    {
        duration_as_nanos(elapsed) >= duration_as_nanos(&self.duration)
    }

    /// Whether the toast has reached its duration by now: the time elapsed
    /// since its creation (read from the clock) is at least its duration.
    pub fn is_expired(&self) -> (r: bool)
        ensures
            exists|elapsed: Duration|
                r == (#[trigger] duration_nanos(elapsed) >= duration_nanos(self.duration)),
    {
        let elapsed = instant_elapsed(&self.created_at);
        self.expired_after(&elapsed)
    }
}

/// The toasts of `s` whose flag in `drop` is false, in order.
pub open spec fn retained(s: Seq<Toast>, drop: Seq<bool>) -> Seq<Toast>
    decreases s.len(),
{
    if s.len() == 0 || drop.len() == 0 {
        Seq::empty()
    } else {
        let rest = retained(s.drop_last(), drop.drop_last());
        if drop.last() {
            rest
        } else {
            rest.push(s.last())
        }
    }
}

/// What is retained is no longer than what it was taken from.
pub proof fn lemma_retained_len(s: Seq<Toast>, drop: Seq<bool>)
    ensures
        retained(s, drop).len() <= s.len(),
    decreases s.len(),
{
    if s.len() > 0 && drop.len() > 0 {
        lemma_retained_len(s.drop_last(), drop.drop_last());
    }
}

/// The queue after queueing `t`: appended at the back, and the oldest
/// evicted when the queue was full.
pub open spec fn pushed(q: Seq<Toast>, t: Toast) -> Seq<Toast> {
    if q.len() < MAX_TOASTS {
        q.push(t)
    } else {
        q.drop_first().push(t)
    }
}

/// The queue after queueing each of `ts` in turn.
pub open spec fn pushed_all(q: Seq<Toast>, ts: Seq<Toast>) -> Seq<Toast>
    decreases ts.len(),
{
    if ts.len() == 0 {
        q
    } else {
        pushed(pushed_all(q, ts.drop_last()), ts.last())
    }
}

/// A queue that starts empty holds the last ten toasts queued, oldest
/// first: first in, first out, and never more than the cap.
pub proof fn lemma_queue_keeps_latest(ts: Seq<Toast>)
    ensures
        pushed_all(Seq::empty(), ts) == (if ts.len() <= MAX_TOASTS {
            ts
        } else {
            ts.subrange(ts.len() - MAX_TOASTS, ts.len() as int)
        }),
    decreases ts.len(),
{
    if ts.len() > 0 {
        let init = ts.drop_last();
        lemma_queue_keeps_latest(init);
        let q = pushed_all(Seq::empty(), init);
        if init.len() < MAX_TOASTS {
            assert(q.push(ts.last()) =~= ts);
        } else if init.len() == MAX_TOASTS {
            assert(q.drop_first().push(ts.last()) =~= ts.subrange(ts.len() - MAX_TOASTS, ts.len() as int));
        } else {
            assert(q.drop_first().push(ts.last()) =~= ts.subrange(ts.len() - MAX_TOASTS, ts.len() as int));
        }
    }
}

/// Most toasts kept at once.
pub const MAX_TOASTS: usize = 10;

impl Clone for Toast {
    fn clone(&self) -> (r: Self)
        ensures
            r == *self,
    {
        Toast {
            level: self.level,
            message: self.message.clone(),
            created_at: self.created_at.clone(),
            duration: self.duration.clone(),
        }
    }
}

/// A first-in first-out queue of toasts, capped at [`MAX_TOASTS`].
#[derive(Debug)]
pub struct ToastManager {
    toasts: Vec<Toast>,
}

impl View for ToastManager {
    type V = Seq<Toast>;

    closed spec fn view(&self) -> Seq<Toast> {
        self.toasts@
    }
}

impl ToastManager {
    /// Never more than the cap.
    #[verifier::type_invariant]
    spec fn within_cap(self) -> bool {
        self.toasts@.len() <= MAX_TOASTS
    }

    /// An empty queue.
    pub fn new() -> (r: Self)
        ensures
            r@ == Seq::<Toast>::empty(),
    {
        ToastManager { toasts: Vec::new() }
    }

    /// Number of queued toasts.
    pub fn len(&self) -> (r: usize)
        ensures
            r == self@.len(),
            r <= MAX_TOASTS,
    {
        proof {
            use_type_invariant(self);
        }
        self.toasts.len()
    }

    /// Drop the toasts that have expired by now, keeping the others in order
    /// (which ones have expired depends on the clock).
    pub fn prune_expired(&mut self)
        ensures
            exists|expired: Seq<bool>|
                expired.len() == old(self)@.len() && final(self)@ == retained(old(self)@, expired),
    {
        let mut flags: Vec<bool> = Vec::new();
        let mut i: usize = 0;
        while i < self.toasts.len()
            invariant
                flags@.len() == i,
                i <= self.toasts@.len(),
            decreases self.toasts@.len() - i,
        {
            flags.push(self.toasts[i].is_expired());
            i = i + 1;
        }
        let ghost before = self@;
        self.remove_expired(&flags);
        assert(flags@.len() == before.len() && self@ == retained(before, flags@));
    }

    /// Whether no toast is queued.
    pub fn is_empty(&self) -> (r: bool)
        ensures
            r == (self@.len() == 0),
    {
        self.toasts.len() == 0
    }

    /// Queue a toast of the given level and message at the back; when the
    /// queue was full the oldest toast is evicted.
    pub fn push<T: IntoText>(&mut self, level: ToastLevel, message: T)
        ensures
            final(self)@.len() > 0,
            is_toast_for(final(self)@.last(), level, message.text_view()),
            final(self)@ == pushed(old(self)@, final(self)@.last()),
    {
        let toast = Toast::new(level, message.into_text());
        self.push_toast(toast);
    }

    /// Queue a given toast at the back; when the queue was full the oldest
    /// toast is evicted.
    pub fn push_toast(&mut self, toast: Toast)
        ensures
            final(self)@ == pushed(old(self)@, toast),
    {
        proof {
            use_type_invariant(&*self);
        }
        let mut q: Vec<Toast> = Vec::new();
        std::mem::swap(&mut q, &mut self.toasts);
        let ghost before = q@;
        q.push(toast);
        if q.len() > MAX_TOASTS {
            q.remove(0);
            assert(q@ =~= before.drop_first().push(toast));
        }
        self.toasts = q;
    }

    /// Take the oldest toast off the queue, if any.
    pub fn pop(&mut self) -> (r: Option<Toast>)
        ensures
            old(self)@.len() == 0 ==> r is None && final(self)@ == old(self)@,
            old(self)@.len() > 0 ==> r == Some(old(self)@[0]) && final(self)@ == old(
                self,
            )@.drop_first(),
    {
        proof {
            use_type_invariant(&*self);
        }
        if self.toasts.len() == 0 {
            None
        } else {
            let mut q: Vec<Toast> = Vec::new();
            std::mem::swap(&mut q, &mut self.toasts);
            let first = q.remove(0);
            self.toasts = q;
            Some(first)
        }
    }

    /// The queued toasts, oldest first.
    pub fn toasts(&self) -> (r: &Vec<Toast>)
        ensures
            r@ == self@,
    {
        &self.toasts
    }

    /// Drop every toast for which `expired` holds, keeping the others in
    /// order; `expired[i]` is the verdict on the `i`-th queued toast.
    pub fn remove_expired(&mut self, expired: &Vec<bool>)
        requires
            expired@.len() == old(self)@.len(),
        ensures
            final(self)@ == retained(old(self)@, expired@),
    {
        proof {
            use_type_invariant(&*self);
        }
        let mut q: Vec<Toast> = Vec::new();
        std::mem::swap(&mut q, &mut self.toasts);
        let mut kept: Vec<Toast> = Vec::new();
        let n = q.len();
        let ghost orig = q@;
        let mut i: usize = 0;
        while q.len() > 0
            invariant
                q@ == orig.subrange(i as int, n as int),
                n == orig.len(),
                i <= n,
                expired@.len() == n,
                n <= MAX_TOASTS,
                kept@ == retained(orig.take(i as int), expired@.take(i as int)),
                kept@.len() <= i,
            decreases q@.len(),
        {
            proof {
                lemma_retained_len(orig.take(i as int), expired@.take(i as int));
            }
            let ghost prev = kept@;
            let t = q.remove(0);
            assert(t == orig[i as int]);
            if !expired[i] {
                kept.push(t);
            }
            proof {
                let s1 = orig.take(i + 1);
                let d1 = expired@.take(i + 1);
                assert(s1.drop_last() =~= orig.take(i as int));
                assert(d1.drop_last() =~= expired@.take(i as int));
            }
            i = i + 1;
        }
        assert(orig.take(n as int) =~= orig);
        assert(expired@.take(n as int) =~= expired@);
        self.toasts = kept;
    }
}

impl Clone for ToastManager {
    fn clone(&self) -> (r: Self)
        ensures
            r@ == self@,
    {
        proof {
            use_type_invariant(self);
        }
        let mut v: Vec<Toast> = Vec::new();
        let mut i: usize = 0;
        while i < self.toasts.len()
            invariant
                i <= self.toasts@.len(),
                self.toasts@.len() <= MAX_TOASTS,
                v@ == self.toasts@.take(i as int),
            decreases self.toasts@.len() - i,
        {
            v.push(self.toasts[i].clone());
            i = i + 1;
            assert(v@ =~= self.toasts@.take(i as int));
        }
        assert(v@ =~= self.toasts@);
        ToastManager { toasts: v }
    }
}

impl Default for ToastManager {
    fn default() -> (r: Self)
        ensures
            r@ == Seq::<Toast>::empty(),
    {
        ToastManager::new()
    }
}

} // verus!
