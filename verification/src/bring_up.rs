//! Bringing up the radio at power-up, on either board.
use vstd::prelude::*;

verus! {

/// Network that the boards talk on.
pub const NETWORK_ID: u8 = 42;

/// Carrier frequency.
pub const FREQUENCY_HZ: u32 = 915_000_000;

/// Pause between a fault and the stop, which gives the log time to get out.
pub const FAULT_PAUSE_MS: u64 = 5000;

/// What bringing up the radio asks for next.
#[derive(Clone, Copy, Debug, PartialEq, Eq, Structural)]
pub enum BringUpAction {
    /// Reset the radio and check its version.
    Reset,
    /// Apply the configuration for this network and frequency.
    Configure { network_id: u8, frequency_hz: u32 },
    /// Go on: the radio is ready.
    Proceed,
    /// Give up after so many milliseconds.
    Halt(u64),
}

/// How far the radio has been brought up.
#[derive(Clone, Copy, Debug, PartialEq, Eq, Structural)]
pub enum BringUp {
    Resetting,
    Configuring,
    Ready,
    Faulted,
}

impl BringUp {
    /// The stage after an attempt at this one: each stage that worked leads to the next, the
    /// first that did not ends the matter.
    pub open spec fn next(self, ok: bool) -> BringUp {
        match self {
            BringUp::Resetting if ok => BringUp::Configuring,
            BringUp::Configuring if ok => BringUp::Ready,
            BringUp::Resetting | BringUp::Configuring => BringUp::Faulted,
            BringUp::Ready | BringUp::Faulted => self,
        }
    }

    /// The reset comes first.
    pub fn new() -> (stage: Self)
        ensures
            stage == BringUp::Resetting,
    {
        BringUp::Resetting
    }

    /// What to do next.
    pub fn action(&self) -> (action: BringUpAction)
        ensures
            action == (match *self {
                BringUp::Resetting => BringUpAction::Reset,
                BringUp::Configuring => BringUpAction::Configure {
                    network_id: 42,
                    frequency_hz: 915_000_000,
                },
                BringUp::Ready => BringUpAction::Proceed,
                BringUp::Faulted => BringUpAction::Halt(5000),
            }),
    {
        match self {
            BringUp::Resetting => BringUpAction::Reset,
            BringUp::Configuring => BringUpAction::Configure {
                network_id: NETWORK_ID,
                frequency_hz: FREQUENCY_HZ,
            },
            BringUp::Ready => BringUpAction::Proceed,
            BringUp::Faulted => BringUpAction::Halt(FAULT_PAUSE_MS),
        }
    }

    /// Takes in whether the action worked.
    pub fn advance(&mut self, ok: bool)
        ensures
            *final(self) == old(self).next(ok),
    {
        *self = match *self {
            BringUp::Resetting => {
                if ok {
                    BringUp::Configuring
                } else {
                    BringUp::Faulted
                }
            },
            BringUp::Configuring => {
                if ok {
                    BringUp::Ready
                } else {
                    BringUp::Faulted
                }
            },
            BringUp::Ready => BringUp::Ready,
            BringUp::Faulted => BringUp::Faulted,
        };
    }
}

/// The board goes on only if both the reset and the configuration worked, and stops otherwise.
pub proof fn law_faults_stop_the_board(reset: bool, configured: bool)
    ensures
        BringUp::Resetting.next(reset).next(configured) == (if reset && configured {
            BringUp::Ready
        } else {
            BringUp::Faulted
        }),
{
}

/// Bringing up the radio, attempt by attempt: a reset that worked leads to the configuration, a
/// configuration that worked lets the board go on, a fault of either stops it, and what is settled
/// stays so.
pub proof fn law_bring_up_goes_on_or_stops(
    stage: &mut BringUp,
    ok: bool,
    action: BringUpAction,
    after: BringUpAction,
)
    requires
        call_ensures(BringUp::action, (&*old(stage),), action),
        call_ensures(BringUp::advance, (stage, ok), ()),
        call_ensures(BringUp::action, (&*final(stage),), after),
    ensures
        action == BringUpAction::Reset && ok ==> after == (BringUpAction::Configure {
            network_id: 42,
            frequency_hz: 915_000_000,
        }),
        action is Configure && ok ==> after == BringUpAction::Proceed,
        (action == BringUpAction::Reset || action is Configure) && !ok ==> after
            == BringUpAction::Halt(5000),
        action == BringUpAction::Proceed || action is Halt ==> after == action && *final(stage)
            == *old(stage),
        action == BringUpAction::Reset <==> *old(stage) == BringUp::Resetting,
        action == BringUpAction::Proceed <==> *old(stage) == BringUp::Ready,
        action == BringUpAction::Halt(5000) <==> *old(stage) == BringUp::Faulted,
{
}

} // verus!
