//! Whether gears are being dropped, and the start signal that turns it on.

use vstd::prelude::*;

verus! {

#[verifier::external_type_specification]
#[verifier::external_body]
#[verifier::reject_recursive_types(T)]
pub struct ExReceiver<T>(crossbeam::channel::Receiver<T>);

#[verifier::external_type_specification]
#[verifier::external_body]
pub struct ExTryRecvError(crossbeam::channel::TryRecvError);

/// Relies on crossbeam's `Receiver::try_recv`: it takes a message if one is
/// waiting and never blocks. Whether one is waiting depends on other threads,
/// so nothing is promised of the result.
pub assume_specification<T>[ crossbeam::channel::Receiver::<T>::try_recv ](
    receiver: &crossbeam::channel::Receiver<T>,
) -> Result<T, crossbeam::channel::TryRecvError>;

/// Whether dropping has started. Until the start signal comes it has not.
#[derive(Clone, Copy, Debug, PartialEq, Eq, Structural)]
pub enum DropState {
    Enabled,
    Disabled,
}

impl Default for DropState {
    fn default() -> (s: DropState)
        ensures
            s == DropState::Disabled,
    {
        DropState::Disabled
    }
}

/// The state after a poll of the start channel: a disabled dropper is enabled
/// once a start message was received; an enabled one stays enabled.
pub open spec fn state_after(current: DropState, received: bool) -> DropState {
    if received {
        DropState::Enabled
    } else {
        current
    }
}

/// The receiving end of the channel on which the start signal arrives.
#[verifier::reject_recursive_types(T)]
pub struct StartReceiver<T>(pub crossbeam::channel::Receiver<T>);

/// The state that follows `current` when a start message was (`received`) or
/// was not taken from the channel.
pub fn next_state(current: DropState, received: bool) -> (next: DropState)
    ensures
        next == state_after(current, received),
{
    if received {
        DropState::Enabled
    } else {
        current
    }
}

/// While dropping is disabled, takes a start message from the channel if one
/// is waiting and enables dropping. An enabled dropper does not read the
/// channel and stays enabled.
pub fn handle_state_change(current: DropState, start_receiver: &StartReceiver<bool>) -> (next:
    DropState)
    ensures
        current == DropState::Enabled ==> next == DropState::Enabled,
        next == state_after(current, true) || next == state_after(current, false),
{
    match current {
        DropState::Enabled => DropState::Enabled,
        DropState::Disabled => {
            let received = start_receiver.0.try_recv().is_ok();
            next_state(current, received)
        },
    }
}

} // verus!
