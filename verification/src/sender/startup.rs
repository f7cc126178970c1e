//! What the sender does between bringing up its radio and starting its tasks.
use vstd::prelude::*;

use crate::packet::Address;
use crate::sender::radio::RadioPacket;

verus! {

/// How often the boot announcement is repeated after the first one, in case the receiver is not
/// listening yet.
pub const BOOT_RETRIES: usize = 3;

/// Pause after each boot announcement.
pub const BOOT_PAUSE_MS: u64 = 2000;

/// The sender's own address: a jumper to 3.3 V selects 3, no jumper leaves 1, so that two senders
/// can share a receiver.
pub fn own_address(jumper_high: bool) -> (address: Address)
    ensures
        address == Address::Unicast(
            if jumper_high {
                3
            } else {
                1
            },
        ),
{
    if jumper_high {
        Address::Unicast(3)
    } else {
        Address::Unicast(1)
    }
}

/// A step of the start-up. What comes of a step does not change the steps after it.
#[derive(Clone, Copy, Debug, PartialEq, Eq, Structural)]
pub enum StartupStep {
    /// Raise the transmit power to its maximum.
    BoostPower,
    /// Put the radio to sleep.
    Sleep,
    /// Send a packet.
    Send(RadioPacket),
    /// Wait for so many milliseconds.
    Pause(u64),
}

/// The steps of the start-up: full power, sleep, and then the announcements, each followed by
/// sleep and a pause.
pub open spec fn startup_steps() -> Seq<StartupStep> {
    seq![StartupStep::BoostPower, StartupStep::Sleep] + Seq::new(
        (3 * (1 + BOOT_RETRIES)) as nat,
        |i: int|
            if i % 3 == 0 {
                StartupStep::Send(RadioPacket::Boot)
            } else if i % 3 == 1 {
                StartupStep::Sleep
            } else {
                StartupStep::Pause(2000)
            },
    )
}

/// The step at an index, or `None` once the tasks are to be started.
pub fn startup_step(index: usize) -> (step: Option<StartupStep>)
    ensures
        step == (if index < startup_steps().len() {
            Some(startup_steps()[index as int])
        } else {
            None
        }),
{
    if index == 0 {
        Some(StartupStep::BoostPower)
    } else if index == 1 {
        Some(StartupStep::Sleep)
    } else if index < 2 + 3 * (1 + BOOT_RETRIES) {
        let part: usize = (index - 2) % 3;
        if part == 0 {
            Some(StartupStep::Send(RadioPacket::Boot))
        } else if part == 1 {
            Some(StartupStep::Sleep)
        } else {
            Some(StartupStep::Pause(BOOT_PAUSE_MS))
        }
    } else {
        None
    }
}

/// Whether the radio is awake after the first `n` steps, if it is ahead of them.
pub open spec fn awake_after_steps(before: bool, n: nat) -> bool
    decreases n,
{
    if n == 0 {
        before
    } else {
        match startup_steps()[n - 1] {
            StartupStep::Send(_) => true,
            StartupStep::Sleep => false,
            StartupStep::BoostPower | StartupStep::Pause(_) => awake_after_steps(
                before,
                (n - 1) as nat,
            ),
        }
    }
}

/// The radio sleeps through every pause of the start-up, and when the tasks start.
pub proof fn law_startup_leaves_radio_asleep(before: bool, n: nat)
    requires
        n <= startup_steps().len(),
        n < startup_steps().len() ==> startup_steps()[n as int] is Pause,
    ensures
        !awake_after_steps(before, n),
{
    reveal_with_fuel(awake_after_steps, 3);
}

/// The start-up raises the power and puts the radio to sleep; four times then, once and three
/// retries, it announces the boot, puts the radio to sleep and waits for two seconds. Nothing
/// comes after that.
pub proof fn law_boot_is_announced(index: usize, step: Option<StartupStep>)
    requires
        call_ensures(startup_step, (index,), step),
    ensures
        step is None <==> index >= 14,
        step == Some(StartupStep::BoostPower) <==> index == 0,
        step == Some(StartupStep::Send(RadioPacket::Boot)) <==> index == 2 || index == 5 || index
            == 8 || index == 11,
        step == Some(StartupStep::Sleep) <==> index == 1 || index == 3 || index == 6 || index == 9
            || index == 12,
        step == Some(StartupStep::Pause(2000)) <==> index == 4 || index == 7 || index == 10 || index
            == 13,
{
}

} // verus!
