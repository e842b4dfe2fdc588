//! The two indicator lights: what to show on each, and the pin steps that show it.
//!
//! Times are in milliseconds.

use vstd::prelude::*;

verus! {

/// A blinking pattern.
#[derive(Debug, Clone, Copy, PartialEq, Eq, Structural)]
pub struct LoopingIndication {
    /// How long the light is on in each blink, in milliseconds.
    pub time_on: u64,
    /// How long the light is off after each blink, in milliseconds.
    pub time_off: u64,
    /// The number of blinks.
    pub count: u8,
}

/// What one light shows.
#[derive(Debug, Clone, Copy, PartialEq, Eq, Structural)]
pub enum Indication {
    /// On for this many milliseconds, then off.
    SingleFire(u64),
    /// Blinking.
    Looping(LoopingIndication),
    /// Off.
    Off,
}

/// What the left and the right light show.
#[derive(Debug, Clone, Copy, PartialEq, Eq, Structural)]
pub struct IndicatorAction {
    pub left: Indication,
    pub right: Indication,
}

/// A single fire of the given length, or off.
pub open spec fn fire_or_off(duration: Option<u64>) -> Indication {
    match duration {
        Some(d) => Indication::SingleFire(d),
        None => Indication::Off,
    }
}

impl IndicatorAction {
    /// Each light fires once for its duration, or stays off when it has none.
    pub fn single_fire(left: Option<u64>, right: Option<u64>) -> (r: Self)
        ensures
            r.left == fire_or_off(left),
            r.right == fire_or_off(right),
    {
        let left = match left {
            Some(d) => Indication::SingleFire(d),
            None => Indication::Off,
        };
        let right = match right {
            Some(d) => Indication::SingleFire(d),
            None => Indication::Off,
        };
        IndicatorAction { left, right }
    }
}

/// The MQTT connection is down: the right light blinks three times, briefly on.
pub fn mqtt_connection_error() -> (r: IndicatorAction)
    ensures
        r == (IndicatorAction {
            left: Indication::Off,
            right: Indication::Looping(LoopingIndication { time_on: 100, time_off: 500, count: 3 }),
        }),
{
    IndicatorAction {
        left: Indication::Off,
        right: Indication::Looping(LoopingIndication { time_on: 100, time_off: 500, count: 3 }),
    }
}

/// The WiFi connection failed: the right light blinks three times, long on.
pub fn wifi_connection_failed() -> (r: IndicatorAction)
    ensures
        r == (IndicatorAction {
            left: Indication::Off,
            right: Indication::Looping(LoopingIndication { time_on: 500, time_off: 100, count: 3 }),
        }),
{
    IndicatorAction {
        left: Indication::Off,
        right: Indication::Looping(LoopingIndication { time_on: 500, time_off: 100, count: 3 }),
    }
}

/// An action was sent: the right light fires briefly.
pub fn action_sent() -> (r: IndicatorAction)
    ensures
        r == (IndicatorAction { left: Indication::Off, right: Indication::SingleFire(100) }),
{
    IndicatorAction { left: Indication::Off, right: Indication::SingleFire(100) }
}

/// What happens when a wait is cut short by a cancellation.
#[derive(Debug, Clone, Copy, PartialEq, Eq, Structural)]
pub enum OnCancel {
    /// Go on with the next step.
    Proceed,
    /// Turn the light off and stop.
    OffAndStop,
    /// Stop.
    Stop,
}

/// One step in showing an indication on a light.
#[derive(Debug, Clone, Copy, PartialEq, Eq, Structural)]
pub enum PinStep {
    /// Turn the light on.
    On,
    /// Turn the light off.
    Off,
    /// Wait this many milliseconds, unless a cancellation comes first.
    Wait(u64, OnCancel),
}

/// The steps of one blink.
pub open spec fn blink_steps(l: LoopingIndication) -> Seq<PinStep> {
    seq![
        PinStep::On,
        PinStep::Wait(l.time_on, OnCancel::OffAndStop),
        PinStep::Off,
        PinStep::Wait(l.time_off, OnCancel::Stop),
    ]
}

/// The steps of `n` blinks.
pub open spec fn blinks(l: LoopingIndication, n: nat) -> Seq<PinStep>
    decreases n,
{
    if n == 0 {
        Seq::empty()
    } else {
        blinks(l, (n - 1) as nat) + blink_steps(l)
    }
}

/// The steps that show an indication: off sets the light off; a single fire turns it on,
/// waits (a cancellation ends the wait early) and turns it off; a blinking pattern turns it
/// on and off `count` times, and a cancellation ends it with the light off.
pub open spec fn indication_steps(ind: Indication) -> Seq<PinStep> {
    match ind {
        Indication::Off => seq![PinStep::Off],
        Indication::SingleFire(d) => seq![PinStep::On, PinStep::Wait(d, OnCancel::Proceed), PinStep::Off],
        Indication::Looping(l) => blinks(l, l.count as nat),
    }
}

/// The levels written to the light when running `steps` from `i`, with the wait at index
/// `cancelled` (if it is one) cut short by a cancellation.
pub open spec fn levels_written(steps: Seq<PinStep>, i: int, cancelled: int) -> Seq<bool>
    decreases steps.len() - i,
{
    if i < 0 || i >= steps.len() {
        Seq::empty()
    } else {
        match steps[i] {
            PinStep::On => seq![true] + levels_written(steps, i + 1, cancelled),
            PinStep::Off => seq![false] + levels_written(steps, i + 1, cancelled),
            PinStep::Wait(_, on_cancel) => if i == cancelled {
                match on_cancel {
                    OnCancel::Proceed => levels_written(steps, i + 1, cancelled),
                    OnCancel::OffAndStop => seq![false],
                    OnCancel::Stop => Seq::empty(),
                }
            } else {
                levels_written(steps, i + 1, cancelled)
            },
        }
    }
}

proof fn lemma_blinks_index(l: LoopingIndication, n: nat, k: int)
    requires
        0 <= k < 4 * n,
    ensures
        blinks(l, n).len() == 4 * n,
        blinks(l, n)[k] == blink_steps(l)[k % 4],
    decreases n,
{
    if n > 0 {
        let prev = (n - 1) as nat;
        lemma_blinks_len(l, prev);
        if k < 4 * prev {
            lemma_blinks_index(l, prev, k);
        } else {
            assert(k % 4 == k - 4 * prev);
        }
    }
}

proof fn lemma_blinks_len(l: LoopingIndication, n: nat)
    ensures
        blinks(l, n).len() == 4 * n,
    decreases n,
{
    if n > 0 {
        lemma_blinks_len(l, (n - 1) as nat);
    }
}

proof fn lemma_blinks_end_off(l: LoopingIndication, n: nat, i: int, cancelled: int)
    requires
        0 <= i <= 4 * n,
    ensures
        levels_written(blinks(l, n), i, cancelled).len() > 0 ==> levels_written(blinks(l, n), i, cancelled).last() == false,
        i < 4 * n && (i % 4 == 1 || i % 4 == 2) ==> levels_written(blinks(l, n), i, cancelled).len() > 0,
    decreases 4 * n - i,
{
    lemma_blinks_len(l, n);
    let s = blinks(l, n);
    if i < 4 * n {
        lemma_blinks_index(l, n, i);
        lemma_blinks_end_off(l, n, i + 1, cancelled);
        assert((i + 1) % 4 == if i % 4 == 3 { 0 } else { i % 4 + 1 });
        let rest = levels_written(s, i + 1, cancelled);
        if i % 4 == 0 || i % 4 == 2 {
            let b = i % 4 == 0;
            assert(levels_written(s, i, cancelled) == seq![b] + rest);
            if rest.len() > 0 {
                assert((seq![b] + rest).last() == rest.last());
            }
        }
    }
}

/// Whatever an indication shows, and whichever wait a cancellation cuts short, the last level
/// written to the light is off.
pub proof fn lemma_indication_ends_off(ind: Indication, cancelled: int)
    ensures
        levels_written(indication_steps(ind), 0, cancelled).len() > 0 ==> levels_written(indication_steps(ind), 0, cancelled).last() == false,
{
    match ind {
        Indication::Off => {
            let s = indication_steps(ind);
            assert(levels_written(s, 0, cancelled) == seq![false] + levels_written(s, 1, cancelled));
            assert(levels_written(s, 1, cancelled) == Seq::<bool>::empty());
            assert(levels_written(s, 0, cancelled) =~= seq![false]);
        },
        Indication::SingleFire(d) => {
            let s = indication_steps(ind);
            assert(levels_written(s, 3, cancelled) == Seq::<bool>::empty());
            assert(levels_written(s, 2, cancelled) =~= seq![false]);
            assert(levels_written(s, 1, cancelled) =~= seq![false]);
            assert(levels_written(s, 0, cancelled) =~= seq![true, false]);
        },
        Indication::Looping(l) => {
            lemma_blinks_end_off(l, l.count as nat, 0, cancelled);
        },
    }
}

/// The milliseconds that `steps` wait, with no cancellation, while the light is at level
/// `level`; the light starts at `lit`.
pub open spec fn time_at_level(steps: Seq<PinStep>, lit: bool, level: bool) -> nat
    decreases steps.len(),
{
    if steps.len() == 0 {
        0
    } else {
        match steps[0] {
            PinStep::On => time_at_level(steps.drop_first(), true, level),
            PinStep::Off => time_at_level(steps.drop_first(), false, level),
            PinStep::Wait(ms, _) => (if lit == level { ms as nat } else { 0 }) + time_at_level(
                steps.drop_first(),
                lit,
                level,
            ),
        }
    }
}

/// The level of the light after running `steps` with no cancellation, from `lit`.
pub open spec fn level_after(steps: Seq<PinStep>, lit: bool) -> bool
    decreases steps.len(),
{
    if steps.len() == 0 {
        lit
    } else {
        match steps[0] {
            PinStep::On => level_after(steps.drop_first(), true),
            PinStep::Off => level_after(steps.drop_first(), false),
            PinStep::Wait(_, _) => level_after(steps.drop_first(), lit),
        }
    }
}

proof fn lemma_time_at_level_concat(a: Seq<PinStep>, b: Seq<PinStep>, lit: bool, level: bool)
    ensures
        time_at_level(a + b, lit, level) == time_at_level(a, lit, level) + time_at_level(
            b,
            level_after(a, lit),
            level,
        ),
        level_after(a + b, lit) == level_after(b, level_after(a, lit)),
    decreases a.len(),
{
    if a.len() == 0 {
        assert(a + b =~= b);
    } else {
        assert((a + b).drop_first() =~= a.drop_first() + b);
        assert((a + b)[0] == a[0]);
        match a[0] {
            PinStep::On => lemma_time_at_level_concat(a.drop_first(), b, true, level),
            PinStep::Off => lemma_time_at_level_concat(a.drop_first(), b, false, level),
            PinStep::Wait(_, _) => lemma_time_at_level_concat(a.drop_first(), b, lit, level),
        }
    }
}

proof fn lemma_blinks_times(l: LoopingIndication, n: nat)
    ensures
        time_at_level(blinks(l, n), false, true) == n * l.time_on,
        time_at_level(blinks(l, n), false, false) == n * l.time_off,
        level_after(blinks(l, n), false) == false,
    decreases n,
{
    if n > 0 {
        let prev = (n - 1) as nat;
        lemma_blinks_times(l, prev);
        lemma_time_at_level_concat(blinks(l, prev), blink_steps(l), false, true);
        lemma_time_at_level_concat(blinks(l, prev), blink_steps(l), false, false);
        let b = blink_steps(l);
        let b1 = b.drop_first();
        let b2 = b1.drop_first();
        let b3 = b2.drop_first();
        let b4 = b3.drop_first();
        assert(b1 =~= seq![PinStep::Wait(l.time_on, OnCancel::OffAndStop), PinStep::Off, PinStep::Wait(l.time_off, OnCancel::Stop)]);
        assert(b2 =~= seq![PinStep::Off, PinStep::Wait(l.time_off, OnCancel::Stop)]);
        assert(b3 =~= seq![PinStep::Wait(l.time_off, OnCancel::Stop)]);
        assert(b4 =~= Seq::<PinStep>::empty());
        assert(time_at_level(b4, false, true) == 0);
        assert(time_at_level(b3, false, true) == 0);
        assert(time_at_level(b2, true, true) == 0);
        assert(time_at_level(b1, true, true) == l.time_on);
        assert(time_at_level(b, false, true) == l.time_on);
        assert(time_at_level(b4, false, false) == 0);
        assert(time_at_level(b3, false, false) == l.time_off);
        assert(time_at_level(b2, true, false) == l.time_off);
        assert(time_at_level(b1, true, false) == l.time_off);
        assert(time_at_level(b, false, false) == l.time_off);
        assert(level_after(b4, false) == false);
        assert(level_after(b3, false) == false);
        assert(level_after(b2, true) == false);
        assert(level_after(b1, true) == false);
        assert(level_after(b, false) == false);
        assert(prev * l.time_on + l.time_on == n * l.time_on) by (nonlinear_arith)
            requires
                prev + 1 == n,
        ;
        assert(prev * l.time_off + l.time_off == n * l.time_off) by (nonlinear_arith)
            requires
                prev + 1 == n,
        ;
    }
}

/// Left to run, an indication keeps the light on and off for as long as it asks: a single
/// fire of `d` keeps it on for `d` and then off; a blinking pattern keeps it on for `count`
/// times `time_on` and off for `count` times `time_off`, and ends with it off; off keeps it
/// off and waits for nothing.
pub proof fn lemma_indication_times(ind: Indication)
    ensures
        match ind {
            Indication::SingleFire(d) => {
                &&& time_at_level(indication_steps(ind), false, true) == d
                &&& time_at_level(indication_steps(ind), false, false) == 0
                &&& level_after(indication_steps(ind), false) == false
            },
            Indication::Looping(l) => {
                &&& time_at_level(indication_steps(ind), false, true) == l.count * l.time_on
                &&& time_at_level(indication_steps(ind), false, false) == l.count * l.time_off
                &&& level_after(indication_steps(ind), false) == false
            },
            Indication::Off => {
                &&& time_at_level(indication_steps(ind), false, true) == 0
                &&& time_at_level(indication_steps(ind), false, false) == 0
                &&& level_after(indication_steps(ind), true) == false
            },
        },
{
    match ind {
        Indication::SingleFire(d) => {
            let s = indication_steps(ind);
            let s1 = s.drop_first();
            let s2 = s1.drop_first();
            let s3 = s2.drop_first();
            assert(s1 =~= seq![PinStep::Wait(d, OnCancel::Proceed), PinStep::Off]);
            assert(s2 =~= seq![PinStep::Off]);
            assert(s3 =~= Seq::<PinStep>::empty());
            assert(time_at_level(s3, false, true) == 0);
            assert(time_at_level(s2, true, true) == 0);
            assert(time_at_level(s1, true, true) == d);
            assert(time_at_level(s3, false, false) == 0);
            assert(time_at_level(s2, true, false) == 0);
            assert(time_at_level(s1, true, false) == 0);
            assert(level_after(s3, false) == false);
            assert(level_after(s2, true) == false);
            assert(level_after(s1, true) == false);
            assert(time_at_level(s, false, true) == d);
            assert(time_at_level(s, false, false) == 0);
            assert(level_after(s, false) == false);
        },
        Indication::Looping(l) => {
            lemma_blinks_times(l, l.count as nat);
        },
        Indication::Off => {
            let s = indication_steps(ind);
            let s1 = s.drop_first();
            assert(s1 =~= Seq::<PinStep>::empty());
            assert(time_at_level(s1, false, true) == 0);
            assert(time_at_level(s1, false, false) == 0);
            assert(level_after(s1, false) == false);
            assert(time_at_level(s, false, true) == 0);
            assert(time_at_level(s, false, false) == 0);
            assert(level_after(s, true) == false);
        },
    }
}

/// The steps that show `indication` on one light.
pub fn indication_program(indication: &Indication) -> (r: Vec<PinStep>)
    ensures
        r@ == indication_steps(*indication),
{
    let mut steps: Vec<PinStep> = Vec::new();
    match indication {
        Indication::Off => {
            steps.push(PinStep::Off);
        },
        Indication::SingleFire(d) => {
            steps.push(PinStep::On);
            steps.push(PinStep::Wait(*d, OnCancel::Proceed));
            steps.push(PinStep::Off);
        },
        Indication::Looping(l) => {
            let mut n: u8 = 0;
            while n < l.count
                invariant
                    n <= l.count,
                    steps@ == blinks(*l, n as nat),
                decreases l.count - n,
            {
                steps.push(PinStep::On);
                steps.push(PinStep::Wait(l.time_on, OnCancel::OffAndStop));
                steps.push(PinStep::Off);
                steps.push(PinStep::Wait(l.time_off, OnCancel::Stop));
                n = n + 1;
                assert(steps@ =~= blinks(*l, n as nat));
            }
        },
    }
    steps
}

} // verus!
