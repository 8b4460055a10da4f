//! One value that tells the time and waits.
//!
//! The retry loops read elapsed time and wait through a single clock, so the two
//! cannot disagree. [`Clock`] tells the time; [`SyncClock`] adds a wait that
//! blocks. [`VirtualClock`] is the clock for tests: a wait moves its time on
//! instead of sleeping.

use crate::duration::{saturated, Duration, MAX_NANOS};
use vstd::prelude::*;

verus! {

/// Tells the time since a fixed origin.
///
/// Readings should never go back. The loops do not rely on it: they hold elapsed
/// time to the highest reading so far.
pub trait Clock: Sized {
    /// Whether a reading may give `now` and leave the clock as `post`. A type
    /// that does not say leaves it open.
    open spec fn reads(&self, post: Self, now: Duration) -> bool {
        true
    }

    /// The time since the clock's origin.
    fn now(&mut self) -> (r: Duration)
        ensures
            (*old(self)).reads(*final(self), r),
    ;
}

/// Adds a wait that blocks.
pub trait SyncClock: Clock {
    /// Whether a wait of `dur` may leave the clock as `post`. A type that does
    /// not say leaves it open.
    open spec fn sleeps(&self, dur: Duration, post: Self) -> bool {
        true
    }

    /// Waits for `dur`. Afterwards the time reflects the wait.
    fn wait(&mut self, dur: Duration)
        ensures
            (*old(self)).sleeps(dur, *final(self)),
    ;
}

/// Reads `clock` once `done` is at hand.
pub fn take_reading_after<Cl: Clock, X>(clock: &mut Cl, done: &X) -> (r: Duration)
    ensures
        (*old(clock)).reads(*final(clock), r),
{
    clock.now()
}

/// Whether `now` was read off `clock` once `done` was at hand. What comes of other work is
/// at hand only when that work is over, so this says in which order the two went.
pub open spec fn read_after<Cl: Clock, X>(clock: Cl, done: X, now: Duration) -> bool {
    exists|lent: &mut Cl| #[trigger]
        call_ensures(take_reading_after::<Cl, X>, (lent, &done), now) && *lent == clock
}

/// Waits for `dur` on `clock` once `done` is at hand.
pub fn wait_after<Cl: SyncClock, X>(clock: &mut Cl, done: &X, dur: Duration)
    ensures
        (*old(clock)).sleeps(dur, *final(clock)),
{
    clock.wait(dur)
}

/// Whether `clock` waited for `dur` once `done` was at hand.
pub open spec fn waited_after<Cl: SyncClock, X>(clock: Cl, done: X, dur: Duration) -> bool {
    exists|lent: &mut Cl| #[trigger]
        call_ensures(wait_after::<Cl, X>, (lent, &done, dur), ()) && *lent == clock
}

/// A borrowed clock is a clock, so that a caller can keep it for later.
///
/// What a loop did to a clock that it was lent in this way is not tied to the caller's
/// clock afterwards. A proof that speaks of it passes the clock by value, or goes
/// through [`run_loop`](crate::engine::run::run_loop), which borrows the clock itself.
impl<C: Clock> Clock for &mut C {
    open spec fn reads(&self, post: Self, now: Duration) -> bool {
        (**self).reads(*post, now)
    }

    fn now(&mut self) -> Duration {
        (**self).now()
    }
}

impl<C: SyncClock> SyncClock for &mut C {
    open spec fn sleeps(&self, dur: Duration, post: Self) -> bool {
        (**self).sleeps(dur, *post)
    }

    fn wait(&mut self, dur: Duration) {
        (**self).wait(dur)
    }
}

/// Stands where no clock has been chosen yet. It is no [`Clock`]: a program that
/// has an operating system brings one, and everyone else chooses with `.clock(..)`.
#[derive(Clone, Copy, Debug, PartialEq, Eq, Structural)]
pub struct SystemClock;

/// A closure as a clock that tells the time.
pub struct ClockFn<K: Fn() -> Duration> {
    read: K,
}

impl<K: Fn() -> Duration> ClockFn<K> {
    #[verifier::type_invariant]
    spec fn readable(self) -> bool {
        call_requires(self.read, ())
    }

    /// The closure.
    pub closed spec fn read(self) -> K {
        self.read
    }

    /// A clock that reads what `read` gives.
    pub fn new(read: K) -> (r: ClockFn<K>)
        requires
            call_requires(read, ()),
        ensures
            r.read() == read,
    {
        ClockFn { read }
    }
}

impl<K: Fn() -> Duration> Clock for ClockFn<K> {
    open spec fn reads(&self, post: Self, now: Duration) -> bool {
        post == *self && call_ensures(self.read(), (), now)
    }

    fn now(&mut self) -> Duration {
        proof {
            use_type_invariant(&*self);
        }
        (self.read)()
    }
}

/// A clock whose time moves only when told to.
#[derive(Debug)]
pub struct VirtualClock {
    now: Duration,
    waits: Vec<Duration>,
}

impl VirtualClock {
    /// Where the clock stands.
    pub closed spec fn time(self) -> Duration {
        self.now
    }

    /// Every wait so far, in order.
    pub closed spec fn log(self) -> Seq<Duration> {
        self.waits@
    }

    /// Whether this is `before` with its time moved on by `dur`.
    pub open spec fn is_after(self, before: VirtualClock, dur: Duration) -> bool {
        self.time()@ == saturated((before.time()@ + dur@) as int)
    }

    /// A clock at zero that has not waited.
    pub fn new() -> (r: VirtualClock)
        ensures
            r.time()@ == 0,
            r.log() == Seq::<Duration>::empty(),
    {
        VirtualClock { now: Duration::zero(), waits: Vec::new() }
    }

    /// Moves the time on by `dur` without a wait, as a slow operation would. The
    /// time stays at the longest representable span once it gets there.
    pub fn advance(&mut self, dur: Duration)
        ensures
            final(self).is_after(*old(self), dur),
            final(self).log() == old(self).log(),
    {
        self.now = self.now.saturating_add(dur);
    }

    /// Every wait so far, in order. Later waits do not change what was returned.
    pub fn waits(&self) -> (r: Vec<Duration>)
        ensures
            r@ == self.log(),
    {
        let r = self.waits.clone();
        assert(r@ =~= self.waits@);
        r
    }

    /// Moves the time on by `dur` and records it as a wait.
    fn record_wait(&mut self, dur: Duration)
        ensures
            final(self).is_after(*old(self), dur),
            final(self).log() == old(self).log().push(dur),
    {
        self.advance(dur);
        self.waits.push(dur);
    }
}

impl Default for VirtualClock {
    fn default() -> (r: VirtualClock)
        ensures
            r.time()@ == 0,
            r.log() == Seq::<Duration>::empty(),
    {
        VirtualClock::new()
    }
}

impl Clock for VirtualClock {
    open spec fn reads(&self, post: Self, now: Duration) -> bool {
        post == *self && now == self.time()
    }

    fn now(&mut self) -> Duration {
        self.now
    }
}

impl SyncClock for VirtualClock {
    open spec fn sleeps(&self, dur: Duration, post: Self) -> bool {
        post.is_after(*self, dur) && post.log() == self.log().push(dur)
    }

    fn wait(&mut self, dur: Duration) {
        self.record_wait(dur)
    }
}

/// A wait on a [`VirtualClock`] that takes effect when it is first polled, and
/// once only.
#[derive(Clone, Copy, Debug, PartialEq, Eq, Structural)]
pub struct VirtualWait {
    dur: Duration,
    advanced: bool,
}

impl VirtualWait {
    /// How long the wait is.
    pub closed spec fn dur(self) -> Duration {
        self.dur
    }

    /// Whether the wait has taken effect.
    pub closed spec fn advanced(self) -> bool {
        self.advanced
    }

    /// A wait of `dur` that has not taken effect.
    pub fn new(dur: Duration) -> (r: VirtualWait)
        ensures
            r.dur() == dur,
            !r.advanced(),
    {
        VirtualWait { dur, advanced: false }
    }

    /// Lets the wait take effect on `clock`, unless it already has.
    pub fn poll(&mut self, clock: &mut VirtualClock)
        ensures
            final(self).dur() == old(self).dur(),
            final(self).advanced(),
            if old(self).advanced() {
                *final(clock) == *old(clock)
            } else {
                (*old(clock)).sleeps(old(self).dur(), *final(clock))
            },
    {
        if !self.advanced {
            self.advanced = true;
            clock.record_wait(self.dur);
        }
    }
}

/// On a virtual clock, what is waited shows in the time: readings before and after
/// a wait lie exactly the wait apart, up to the longest representable span, and
/// the wait is recorded last.
pub proof fn wait_shows_in_the_time(
    before: VirtualClock,
    read: VirtualClock,
    slept: VirtualClock,
    after: VirtualClock,
    dur: Duration,
    earlier: Duration,
    now: Duration,
)
    requires
        before.reads(read, earlier),
        read.sleeps(dur, slept),
        slept.reads(after, now),
    ensures
        now@ == saturated((earlier@ + dur@) as int),
        after.log() == before.log().push(dur),
{
}

/// A virtual clock starts at zero with nothing waited. Moving it on moves its time and logs
/// nothing; a wait moves its time by as much and is logged; a reading tells its time and
/// changes nothing. The time stops at the longest representable span.
pub proof fn virtual_time_moves_as_told(
    fresh: VirtualClock,
    moved: &mut VirtualClock,
    waited: &mut VirtualClock,
    read: &mut VirtualClock,
    dur: Duration,
    now: Duration,
    waits: Vec<Duration>,
)
    requires
        call_ensures(VirtualClock::new, (), fresh),
        call_ensures(VirtualClock::advance, (moved, dur), ()),
        call_ensures(<VirtualClock as SyncClock>::wait, (waited, dur), ()),
        call_ensures(<VirtualClock as Clock>::now, (read,), now),
        call_ensures(VirtualClock::waits, (&*old(read),), waits),
    ensures
        fresh.time()@ == 0,
        fresh.log().len() == 0,
        old(moved).time()@ + dur@ <= MAX_NANOS ==> final(moved).time()@ == old(moved).time()@
            + dur@,
        old(moved).time()@ + dur@ > MAX_NANOS ==> final(moved).time()@ == MAX_NANOS,
        final(moved).log() == old(moved).log(),
        old(waited).time()@ + dur@ <= MAX_NANOS ==> final(waited).time()@ == old(waited).time()@
            + dur@,
        old(waited).time()@ + dur@ > MAX_NANOS ==> final(waited).time()@ == MAX_NANOS,
        final(waited).log() == old(waited).log().push(dur),
        now == old(read).time(),
        *final(read) == *old(read),
        waits@ == old(read).log(),
{
}

/// A wait on a virtual clock takes effect once: the first poll waits for all of it, and
/// later ones leave the clock alone.
pub proof fn virtual_wait_takes_effect_once(
    dur: Duration,
    made: VirtualWait,
    first: &mut VirtualWait,
    again: &mut VirtualWait,
    clock: &mut VirtualClock,
    later: &mut VirtualClock,
)
    requires
        call_ensures(VirtualWait::new, (dur,), made),
        *old(first) == made,
        call_ensures(VirtualWait::poll, (first, clock), ()),
        *old(again) == *final(first),
        call_ensures(VirtualWait::poll, (again, later), ()),
    ensures
        final(clock).log() == old(clock).log().push(dur),
        old(clock).time()@ + dur@ <= MAX_NANOS ==> final(clock).time()@ == old(clock).time()@
            + dur@,
        *final(later) == *old(later),
{
}

/// A lent clock reads and waits as the clock itself.
pub proof fn lent_clock_is_the_clock<C: SyncClock>(
    lent: &mut C,
    after: &mut C,
    now: Duration,
    dur: Duration,
)
    ensures
        Clock::reads(&lent, after, now) == (*old(lent)).reads(*old(after), now),
        SyncClock::sleeps(&lent, dur, after) == (*old(lent)).sleeps(dur, *old(after)),
{
}

/// A reading or a wait after something is a call with that at hand.
pub proof fn what_comes_after_is_called_after<Cl: SyncClock, X>(
    clock: Cl,
    done: X,
    now: Duration,
    dur: Duration,
)
    requires
        read_after(clock, done, now),
        waited_after(clock, done, dur),
    ensures
        exists|lent: &mut Cl| #[trigger]
            call_ensures(take_reading_after::<Cl, X>, (lent, &done), now) && *lent == clock,
        exists|lent: &mut Cl| #[trigger]
            call_ensures(wait_after::<Cl, X>, (lent, &done, dur), ()) && *lent == clock,
{
}

} // verus!
