//! The hardware's bookkeeping that doesn't need the instruments: giving up
//! on a failing poll, the canned systems that let the application run with
//! no rig attached, and the conditions the procedure waits on.
use crate::host::power_supply::Polarity;
use vstd::prelude::*;

verus! {

/// How many polls in a row may fail before the hardware is given up on.
///
/// A serial timeout mid-run shouldn't end a forty-minute pump-down, so a
/// single failure is only logged and retried. But persistent failure means
/// the rig is no longer under control, and the filament shouldn't stay
/// powered.
pub const POLL_FAILURE_TOLERANCE: u32 = 3;

/// The number of failures at the end of `outcomes`, the results of the
/// polls so far (`true` for success).
pub open spec fn trailing_failures(outcomes: Seq<bool>) -> nat
    decreases outcomes.len(),
{
    if outcomes.len() == 0 || outcomes.last() {
        0
    } else {
        trailing_failures(outcomes.drop_last()) + 1
    }
}

/// Counts the polls in a row that have failed.
pub struct PollFailures {
    failures: u32,
}

impl View for PollFailures {
    type V = nat;

    /// The number of polls in a row that have failed.
    closed spec fn view(&self) -> nat {
        self.failures as nat
    }
}

impl PollFailures {
    /// No poll has failed yet.
    pub fn new() -> (r: Self)
        ensures
            r@ == 0,
    {
        PollFailures { failures: 0 }
    }

    /// Takes in whether a poll succeeded, returning whether the hardware
    /// should be given up on: a success clears the count, and a failure
    /// gives up once `POLL_FAILURE_TOLERANCE` polls in a row have failed.
    pub fn record(&mut self, succeeded: bool) -> (give_up: bool)
        requires
            old(self)@ < POLL_FAILURE_TOLERANCE,
        ensures
            final(self)@ == (if succeeded {
                0
            } else {
                old(self)@ + 1
            }),
            give_up == (final(self)@ >= POLL_FAILURE_TOLERANCE),
    {
        if succeeded {
            self.failures = 0;
        } else {
            self.failures += 1;
        }
        self.failures >= POLL_FAILURE_TOLERANCE
    }
}

/// The count after `outcomes`, from none.
pub open spec fn count_after(outcomes: Seq<bool>) -> nat
    decreases outcomes.len(),
{
    if outcomes.len() == 0 {
        0
    } else if outcomes.last() {
        0
    } else {
        count_after(outcomes.drop_last()) + 1
    }
}

/// At least `k` polls in a row have failed at the end of `outcomes` exactly
/// when the last `k` outcomes are all failures.
proof fn lemma_trailing_failures(outcomes: Seq<bool>, k: nat)
    ensures
        trailing_failures(outcomes) >= k <==> (outcomes.len() >= k && forall|i: int|
            outcomes.len() - k <= i < outcomes.len() ==> !#[trigger] outcomes[i]),
    decreases k,
{
    if k > 0 && outcomes.len() > 0 {
        let rest = outcomes.drop_last();
        lemma_trailing_failures(rest, (k - 1) as nat);
        if outcomes.len() >= k && forall|i: int|
            outcomes.len() - k <= i < outcomes.len() ==> !#[trigger] outcomes[i] {
            assert(!outcomes[outcomes.len() - 1]);
            assert forall|i: int| rest.len() - (k - 1) <= i < rest.len() implies !#[trigger] rest[i] by {
                assert(rest[i] == outcomes[i]);
            }
        }
        if trailing_failures(outcomes) >= k {
            assert forall|i: int| outcomes.len() - k <= i < outcomes.len() implies !#[trigger] outcomes[i] by {
                if i < outcomes.len() - 1 {
                    assert(rest[i] == outcomes[i]);
                }
            }
        }
    }
}

/// The count is the number of polls in a row that have failed, so the
/// hardware is given up on exactly when the last `POLL_FAILURE_TOLERANCE`
/// polls all failed.
pub proof fn lemma_count_is_trailing_failures(outcomes: Seq<bool>)
    ensures
        count_after(outcomes) == trailing_failures(outcomes),
        count_after(outcomes) >= POLL_FAILURE_TOLERANCE <==> (outcomes.len() >= POLL_FAILURE_TOLERANCE
            && forall|i: int|
            outcomes.len() - POLL_FAILURE_TOLERANCE <= i < outcomes.len() ==> !#[trigger] outcomes[i]),
    decreases outcomes.len(),
{
    if outcomes.len() > 0 {
        lemma_count_is_trailing_failures(outcomes.drop_last());
    }
    lemma_trailing_failures(outcomes, POLL_FAILURE_TOLERANCE as nat);
}

/// The rotation speed the canned TMP reports, and its target, in hertz.
pub const TMP_ROTATION_SPEED_HERTZ: u16 = 1500;

/// The vacuum system with canned readings: what `set_tmp_running` has been
/// given is what a snapshot shows, instantly.
#[derive(Debug)]
pub struct MockVacuumSystem {
    /// What `set_tmp_running` has been given.
    tmp_running: bool,
}

impl Default for MockVacuumSystem {
    /// A TMP that hasn't been started.
    fn default() -> (r: Self)
        ensures
            !r.running_spec(),
    {
        MockVacuumSystem { tmp_running: false }
    }
}

impl MockVacuumSystem {
    /// Whether `set_tmp_running` was last given `true`.
    pub closed spec fn running_spec(&self) -> bool {
        self.tmp_running
    }

    /// Whether `set_tmp_running` was last given `true`.
    pub fn tmp_running(&self) -> (r: bool)
        ensures
            r == self.running_spec(),
    {
        self.tmp_running
    }

    /// Turns the TMP on or off. Turning it on is refused unless the chamber
    /// pressure is below the TMP's maximum backing pressure; returns whether
    /// the request was accepted.
    pub fn set_tmp_running(&mut self, running: bool, pressure_below_maximum: bool) -> (accepted: bool)
        ensures
            accepted == (!running || pressure_below_maximum),
            accepted ==> final(self).running_spec() == running,
            !accepted ==> final(self).running_spec() == old(self).running_spec(),
    {
        if running && !pressure_below_maximum {
            return false;
        }
        self.tmp_running = running;
        true
    }

    /// The TMP's current and target rotation speeds in hertz: the current
    /// speed follows what `set_tmp_running` was given, instantly, since
    /// there's no physics here.
    pub fn rotation_speeds(&self) -> (r: (u16, u16))
        ensures
            r.0 == (if self.running_spec() {
                TMP_ROTATION_SPEED_HERTZ
            } else {
                0
            }),
            r.1 == TMP_ROTATION_SPEED_HERTZ,
    {
        let current = if self.tmp_running {
            TMP_ROTATION_SPEED_HERTZ
        } else {
            0
        };
        (current, TMP_ROTATION_SPEED_HERTZ)
    }
}

/// The output and relay state of the filament supply with canned readings,
/// which keeps the rule that the relays only switch with the output off.
#[derive(Clone, Copy, Debug, PartialEq, Eq, Structural)]
pub struct FilamentSwitches {
    pub output_enabled: bool,
    pub polarity: Polarity,
}

impl Default for FilamentSwitches {
    /// The output off and the relays de-energised.
    fn default() -> (r: Self)
        ensures
            r == (FilamentSwitches { output_enabled: false, polarity: Polarity::Nil }),
    {
        FilamentSwitches { output_enabled: false, polarity: Polarity::Nil }
    }
}

impl FilamentSwitches {
    /// Enables or disables the output.
    pub fn set_output_enabled(&mut self, enabled: bool)
        ensures
            *final(self) == (FilamentSwitches { output_enabled: enabled, ..*old(self) }),
    {
        self.output_enabled = enabled;
    }

    /// Switches the relays to `polarity`, returning whether that was
    /// allowed: switching them while the output is enabled would arc their
    /// contacts, so it's refused and nothing changes.
    pub fn set_polarity(&mut self, polarity: Polarity) -> (switched: bool)
        ensures
            switched == !old(self).output_enabled,
            switched ==> *final(self) == (FilamentSwitches { polarity, ..*old(self) }),
            !switched ==> *final(self) == *old(self),
    {
        if self.output_enabled {
            return false;
        }
        self.polarity = polarity;
        true
    }

    /// Puts the switches into a safe state: the output off and the relays
    /// de-energised.
    pub fn enter_safe_state(&mut self)
        ensures
            *final(self) == (FilamentSwitches { output_enabled: false, polarity: Polarity::Nil }),
    {
        self.output_enabled = false;
        self.polarity = Polarity::Nil;
    }
}

/// Whether the TMP has reached speed: its current rotation speed is at
/// least its target.
pub fn tmp_at_speed(current: u16, target: u16) -> (r: bool)
    ensures
        r == (current >= target),
{
    current >= target
}

/// Whether the TMP has come to rest.
pub fn tmp_stopped(current: u16) -> (r: bool)
    ensures
        r == (current == 0),
{
    current == 0
}

} // verus!

verus! {

/// Why starting the TMP was refused.
#[derive(Clone, Copy, Debug, PartialEq, Eq, Structural)]
pub enum StartRefusal {
    /// The pressure wasn't in millibar, the unit the TMP's limit is in, so
    /// the comparison would be meaningless.
    WrongUnit(crate::host::adc::PressureUnit),
    /// The chamber pressure was at or above the TMP's maximum backing
    /// pressure.
    PressureTooHigh,
}

/// Whether the TMP may be started, given the unit of the latest pressure
/// reading and whether it is below the TMP's maximum backing pressure.
/// Starting the TMP against too high a backing pressure can destroy it, so
/// this is checked rather than trusted to the caller; stopping it is always
/// allowed.
pub fn check_tmp_start(running: bool, unit: crate::host::adc::PressureUnit, pressure_below_maximum: bool) -> (r: Result<(), StartRefusal>)
    ensures
        !running ==> r is Ok,
        running && unit != crate::host::adc::PressureUnit::Millibar ==> r == Err::<(), StartRefusal>(
            StartRefusal::WrongUnit(unit),
        ),
        running && unit == crate::host::adc::PressureUnit::Millibar ==> r == (if pressure_below_maximum {
            Ok::<(), StartRefusal>(())
        } else {
            Err::<(), StartRefusal>(StartRefusal::PressureTooHigh)
        }),
{
    if !running {
        return Ok(());
    }
    match unit {
        crate::host::adc::PressureUnit::Millibar => {},
        _ => return Err(StartRefusal::WrongUnit(unit)),
    }
    if pressure_below_maximum {
        Ok(())
    } else {
        Err(StartRefusal::PressureTooHigh)
    }
}

} // verus!
