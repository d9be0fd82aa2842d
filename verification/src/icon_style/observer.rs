//! The decisions of the style observer.
//!
//! No notification centre posts a change of the Icon & widget style; KVO on
//! the global domain is the only event source that fires. Its callback runs
//! while CFPreferences holds its own lock, so it must never read a
//! preference: it only decides whether to enqueue a deferred pass. The
//! deferred pass and a periodic forced-sync pass then read the style and
//! reconcile it against the one last applied.
//!
//! The host performs each step: it registers the observations, schedules the
//! timer, reads the live style and calls the caller back. This module holds
//! the state those steps consult and decides each of them.

use vstd::prelude::*;
use vstd::std_specs::cmp::PartialEqSpec;

use crate::interval::Interval;
use crate::text::str_eq;
use crate::icon_style::token::ICON_APPEARANCE_KEY;
use crate::icon_style::widget_style::{
    differ_in_token_or_tint_presence, same_style, same_token_without_tint, StyleModel, WidgetStyle,
};

verus! {

/// The global-domain keys whose changes drive a widget-style surface.
///
/// All three fire KVO on `NSUserDefaults.standard`. The theme colour is
/// written to `AppleAccentColor`, not to `AppleIconAppearanceTintColor`.
pub const WATCHED_KEYS: &'static [&'static str; 3] = &[
    ICON_APPEARANCE_KEY,
    "AppleAccentColor",
    "AppleInterfaceStyle",
];

/// Whether `key` is one of [`WATCHED_KEYS`].
pub open spec fn is_watched_key(key: Seq<char>) -> bool {
    key == ICON_APPEARANCE_KEY@ || key == "AppleAccentColor"@ || key == "AppleInterfaceStyle"@
}

/// The shortest interval the forced-sync pass runs at, in milliseconds.
///
/// A timer treats an interval of zero as 0.1 ms, and each tick is a forced
/// preference sync plus a workspace read: at zero that is ~9600 ticks a
/// second and ~6% of a core.
pub const RECONCILE_FLOOR_MILLIS: u64 = 50;

/// The interval of the recommended forced-sync pass, in milliseconds; with
/// it a preference change was measured arriving within a second.
pub const RECONCILE_DEFAULT_MILLIS: u64 = 750;

/// How hard to work at noticing a change.
#[derive(Debug, Clone, Copy, PartialEq, Eq, Structural)]
#[non_exhaustive]
pub enum Reconcile {
    /// KVO only, with no forced sync. Not recommended, and may never deliver:
    /// without the forced sync this process does not re-read the global
    /// domain, so a change written by another process can go unnoticed.
    KvoOnly,
    /// Also force a preference sync on this interval, raised to a 50 ms
    /// floor.
    Every(Interval),
}

impl Default for Reconcile {
    /// `Every(750ms)`.
    fn default() -> (r: Reconcile)
        ensures
            r matches Reconcile::Every(d) && d@ == RECONCILE_DEFAULT_MILLIS * 1_000_000,
    {
        Reconcile::Every(Interval::from_millis(RECONCILE_DEFAULT_MILLIS))
    }
}

/// The length, in nanoseconds, of the timer a reconcile setting schedules,
/// or `None` for no timer.
pub open spec fn timer_length(reconcile: Reconcile) -> Option<nat> {
    match reconcile {
        Reconcile::KvoOnly => None,
        Reconcile::Every(d) => Some(
            if d@ < RECONCILE_FLOOR_MILLIS * 1_000_000 {
                (RECONCILE_FLOOR_MILLIS * 1_000_000) as nat
            } else {
                d@
            },
        ),
    }
}

impl Reconcile {
    /// The interval of the forced-sync timer this setting schedules, clamped
    /// to the 50 ms floor; `None` for [`Reconcile::KvoOnly`].
    pub fn timer_interval(self) -> (interval: Option<Interval>)
        ensures
            match (interval, timer_length(self)) {
                (Some(d), Some(n)) => d@ == n,
                (None, None) => true,
                _ => false,
            },
    {
        match self {
            Reconcile::KvoOnly => None,
            Reconcile::Every(d) => Some(d.at_least(Interval::from_millis(RECONCILE_FLOOR_MILLIS))),
        }
    }
}

/// Whether a KVO callback for `key_path` enqueues a deferred reconcile.
pub open spec fn enqueues_for(key_path: Option<Seq<char>>) -> bool {
    match key_path {
        Some(k) => is_watched_key(k),
        None => false,
    }
}

/// Whether a KVO callback for `key_path` should enqueue a deferred reconcile.
///
/// This is the whole of the callback's decision: it only enqueues, and never
/// reads a preference, because it runs under CFPreferences' own lock and a
/// read from inside it re-enters that lock and aborts the process.
pub fn enqueue_on_change(key_path: Option<&str>) -> (enqueue: bool)
    ensures
        enqueue == enqueues_for(
            match key_path {
                Some(k) => Some(k@),
                None => None,
            },
        ),
{
    match key_path {
        None => false,
        Some(key) => {
            proof {
                reveal_strlit("AppleAccentColor");
                reveal_strlit("AppleInterfaceStyle");
            }
            let mut i: usize = 0;
            while i < 3
                invariant
                    0 <= i <= 3,
                    key_path == Some(key),
                    forall|j: int| 0 <= j < i ==> (#[trigger] WATCHED_KEYS@[j])@ != key@,
                decreases 3 - i,
            {
                assert(WATCHED_KEYS@[0] == ICON_APPEARANCE_KEY);
                assert(WATCHED_KEYS@[1]@ == "AppleAccentColor"@);
                assert(WATCHED_KEYS@[2]@ == "AppleInterfaceStyle"@);
                let candidate = WATCHED_KEYS[i];
                assert(candidate == WATCHED_KEYS@[i as int]);
                if str_eq(candidate, key) {
                    assert(i == 0 || i == 1 || i == 2);
                    return true;
                }
                i = i + 1;
            }
            assert(WATCHED_KEYS@[0]@ != key@);
            assert(WATCHED_KEYS@[1]@ != key@);
            assert(WATCHED_KEYS@[2]@ != key@);
            false
        },
    }
}

/// The abstract state of the observer: the style last applied, whether it
/// still delivers, and the interval of its forced-sync timer if one runs.
pub struct ObserverModel<C> {
    /// The style most recently delivered to the caller.
    pub applied: StyleModel<C>,
    /// Cleared once the observer is dropped; no pass runs after that.
    pub alive: bool,
    /// The forced-sync timer's interval, while one is scheduled.
    pub timer: Option<Interval>,
}

/// A dropped observer never runs another pass, and holds no timer.
pub proof fn law_shut_down_is_final<C>(m: ObserverModel<C>)
    ensures
        !pass_runs(shut_down(m)),
        shut_down(m).timer is None,
        shut_down(shut_down(m)) == shut_down(m),
{
}

/// The KVO path always delivers what it read; the timer path delivers only a
/// change, so a tick that reads the style already applied is silent.
pub proof fn law_forced_pass_delivers_and_unchanged_tick_is_silent<C: PartialEq>(
    m: ObserverModel<C>,
    want: StyleModel<C>,
)
    ensures
        delivers(m, want, true),
        same_style(m.applied, want) ==> !delivers(m, want, false),
        !same_style(m.applied, want) ==> delivers(m, want, false),
{
}

/// The observer after a run of passes, each given as the style it read and
/// whether it delivered it.
pub open spec fn after_passes<C>(m: ObserverModel<C>, passes: Seq<(StyleModel<C>, bool)>) -> ObserverModel<C>
    decreases passes.len(),
{
    if passes.len() == 0 {
        m
    } else {
        let last = passes.last();
        reconciled(after_passes(m, passes.drop_last()), last.0, last.1)
    }
}

/// The style most recently delivered in a run of passes, or `initial`, the
/// one the caller was primed with, when none delivered.
pub open spec fn last_delivered<C>(initial: StyleModel<C>, passes: Seq<(StyleModel<C>, bool)>) -> StyleModel<C>
    decreases passes.len(),
{
    if passes.len() == 0 {
        initial
    } else if passes.last().1 {
        passes.last().0
    } else {
        last_delivered(initial, passes.drop_last())
    }
}

/// Whatever passes have run, the applied style (what `current` reports) is
/// the one last delivered to the caller, or the one it was primed with at
/// construction; passes change nothing else, and dropping the observer
/// keeps it.
pub proof fn law_applied_is_last_delivered<C>(m: ObserverModel<C>, passes: Seq<(StyleModel<C>, bool)>)
    ensures
        after_passes(m, passes).applied == last_delivered(m.applied, passes),
        after_passes(m, passes).alive == m.alive,
        after_passes(m, passes).timer == m.timer,
        shut_down(after_passes(m, passes)).applied == last_delivered(m.applied, passes),
    decreases passes.len(),
{
    if passes.len() > 0 {
        law_applied_is_last_delivered(m, passes.drop_last());
    }
}

/// The forced-sync timer never runs faster than the 50 ms floor, and an
/// interval at or above it is kept as asked; `KvoOnly` schedules none.
pub proof fn law_timer_respects_floor(r: Reconcile)
    ensures
        timer_length(r) matches Some(n) ==> n >= RECONCILE_FLOOR_MILLIS * 1_000_000,
        r matches Reconcile::Every(d) ==> (d@ >= RECONCILE_FLOOR_MILLIS * 1_000_000 ==> timer_length(r)
            == Some(d@)),
        r == Reconcile::KvoOnly ==> timer_length(r) is None,
{
}

/// The state behind a style observer.
///
/// Seeded with the live style at construction, so "the observer exists but
/// has never observed anything" is unrepresentable.
#[derive(Debug)]
pub struct ObserverState<C> {
    applied: WidgetStyle<C>,
    alive: bool,
    timer: Option<Interval>,
}

impl<C> View for ObserverState<C> {
    type V = ObserverModel<C>;

    closed spec fn view(&self) -> ObserverModel<C> {
        ObserverModel { applied: self.applied@, alive: self.alive, timer: self.timer }
    }
}

/// Whether a deferred or timer-driven pass still runs in state `m`.
pub open spec fn pass_runs<C>(m: ObserverModel<C>) -> bool {
    m.alive
}

/// Whether a pass that read `want` delivers it to the caller: always when
/// forced (the KVO path), otherwise only when it differs from the style last
/// applied (the timer path).
pub open spec fn delivers<C: PartialEq>(m: ObserverModel<C>, want: StyleModel<C>, force: bool) -> bool {
    force || !same_style(m.applied, want)
}

/// The observer after a pass that read `want` and did (`deliver`) or did
/// not deliver it: a delivered style becomes the applied one, and nothing
/// else changes.
pub open spec fn reconciled<C>(m: ObserverModel<C>, want: StyleModel<C>, deliver: bool) -> ObserverModel<C> {
    if deliver {
        ObserverModel { applied: want, ..m }
    } else {
        m
    }
}

/// The observer after it has been dropped.
pub open spec fn shut_down<C>(m: ObserverModel<C>) -> ObserverModel<C> {
    ObserverModel { alive: false, timer: None, ..m }
}

impl<C> ObserverState<C> {
    /// The state of a new observer: `initial` is the live style read once at
    /// construction, which the caller is primed with immediately.
    pub fn new(reconcile: Reconcile, initial: WidgetStyle<C>) -> (state: ObserverState<C>)
        ensures
            state@.applied == initial@,
            state@.alive,
            match (state@.timer, timer_length(reconcile)) {
                (Some(d), Some(n)) => d@ == n,
                (None, None) => true,
                _ => false,
            },
    {
        ObserverState { applied: initial, alive: true, timer: reconcile.timer_interval() }
    }

    /// The most recently applied style, which the caller was last called
    /// with.
    pub fn applied(&self) -> (style: &WidgetStyle<C>)
        ensures
            style@ == self@.applied,
    {
        &self.applied
    }

    /// The interval of the forced-sync timer, while one is scheduled.
    pub fn timer(&self) -> (timer: Option<Interval>)
        ensures
            timer == self@.timer,
    {
        self.timer
    }

    /// Whether the observer still delivers.
    pub fn is_alive(&self) -> (alive: bool)
        ensures
            alive == self@.alive,
    {
        self.alive
    }

    /// Whether a pass (the deferred half of a KVO callback, or a timer tick)
    /// should read the style now. A pass already enqueued when the observer
    /// was dropped still runs on the next run-loop turn; this is what makes
    /// it a no-op.
    pub fn pass_should_run(&self) -> (run: bool)
        ensures
            run == pass_runs(self@),
    {
        self.alive
    }

    /// Reconcile the style a pass read against the one last applied.
    ///
    /// Returns whether to call the caller back with the new applied style.
    /// The style is recorded as applied before the call-out, so a callback
    /// that re-enters sees it, and a panicking callback cannot leave the
    /// observer claiming a style it never applied.
    pub fn reconcile(&mut self, want: WidgetStyle<C>, force: bool) -> (deliver: bool)
        where
            C: PartialEq,
        ensures
            force ==> deliver,
            differ_in_token_or_tint_presence(old(self)@.applied, want@) ==> deliver,
            !force && same_token_without_tint(old(self)@.applied, want@) ==> !deliver,
            <C as PartialEqSpec>::obeys_eq_spec() ==> deliver == delivers(old(self)@, want@, force),
            final(self)@ == reconciled(old(self)@, want@, deliver),
    {
        if !force && self.applied == want {
            return false;
        }
        self.applied = want;
        true
    }

    /// Stop the observer, as dropping it does: no pass runs afterwards.
    /// Returns the timer interval that was scheduled, so the host knows to
    /// invalidate it.
    pub fn shut_down(&mut self) -> (timer: Option<Interval>)
        ensures
            timer == old(self)@.timer,
            final(self)@ == shut_down(old(self)@),
    {
        self.alive = false;
        let timer = self.timer;
        self.timer = None;
        timer
    }
}

impl<C: Clone> ObserverState<C> {
    /// The most recently observed style, cloned: cheap, and safe to call
    /// from inside the callback.
    pub fn current(&self) -> (style: WidgetStyle<C>)
        ensures
            style@.token == self@.applied.token,
            style@.tint is Some == self@.applied.tint is Some,
            style@.tint matches Some(c) ==> vstd::pervasive::cloned(self@.applied.tint.unwrap(), c),
    {
        self.applied.clone()
    }
}

} // verus!
