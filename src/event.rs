//! An edge-triggered event channel and the dispatcher that the interrupt
//! runs on it.
use vstd::prelude::*;
use crate::cell::SharedResourceCell;

verus! {

/// State of an edge-triggered event source.
#[derive(Clone, Copy, Debug, PartialEq, Eq, Structural)]
pub enum ChannelState {
    Armed,
    Triggered,
}

/// One event source; a falling edge on its input triggers it, and only an
/// explicit reset arms it again.
pub struct EventChannel {
    state: ChannelState,
}

/// What the dispatcher reports on the debug channel.
#[derive(Clone, Copy, Debug, PartialEq, Eq, Structural)]
pub enum Notification {
    ButtonPressed,
}

impl Notification {
    /// The log line for this notification.
    pub fn message(&self) -> (r: &'static str)
        ensures
            r@ == "Button A pressed!"@,
    {
        "Button A pressed!"
    }
}

impl View for EventChannel {
    type V = ChannelState;

    closed spec fn view(&self) -> ChannelState {
        self.state
    }
}

impl EventChannel {
    /// A channel that is armed.
    pub fn new() -> (r: EventChannel)
        ensures
            r@ == ChannelState::Armed,
    {
        EventChannel { state: ChannelState::Armed }
    }

    /// A channel in the state read from the hardware's event flag.
    pub fn observed(triggered: bool) -> (r: EventChannel)
        ensures
            r@ == (if triggered {
                ChannelState::Triggered
            } else {
                ChannelState::Armed
            }),
    {
        EventChannel { state: if triggered { ChannelState::Triggered } else { ChannelState::Armed } }
    }

    /// The hardware edge: the channel is triggered, whatever it was.
    pub fn edge(&mut self)
        ensures
            final(self)@ == ChannelState::Triggered,
    {
        self.state = ChannelState::Triggered;
    }

    /// Whether an edge has been seen since the last reset.
    pub fn is_event_triggered(&self) -> (r: bool)
        ensures
            r <==> self@ == ChannelState::Triggered,
    {
        self.state == ChannelState::Triggered
    }

    /// Arms the channel again.
    pub fn reset_events(&mut self)
        ensures
            final(self)@ == ChannelState::Armed,
    {
        self.state = ChannelState::Armed;
    }
}

/// Handles one interrupt on a channel: a triggered channel yields one
/// notification and is armed again; an armed one yields nothing.
pub fn service(channel: &mut EventChannel) -> (note: Option<Notification>)
    ensures
        old(channel)@ == ChannelState::Triggered ==> note == Some(Notification::ButtonPressed),
        old(channel)@ == ChannelState::Armed ==> note is None,
        final(channel)@ == ChannelState::Armed,
{
    let pressed = channel.is_event_triggered();
    channel.reset_events();
    if pressed {
        Some(Notification::ButtonPressed)
    } else {
        None
    }
}

/// The interrupt handler's work, run while the caller holds the critical
/// section: nothing happens while no channel is installed; otherwise the
/// installed channel is serviced.
pub fn dispatch(cell: &mut SharedResourceCell<EventChannel>) -> (note: Option<Notification>)
    ensures
        old(cell)@ is None ==> note is None && final(cell)@ is None,
        old(cell)@ is Some ==> final(cell)@ is Some && final(cell)@->0@ == ChannelState::Armed,
        old(cell)@ is Some && old(cell)@->0@ == ChannelState::Triggered ==> note == Some(
            Notification::ButtonPressed,
        ),
        old(cell)@ is Some && old(cell)@->0@ == ChannelState::Armed ==> note is None,
{
    match cell.get_mut() {
        Some(channel) => service(channel),
        None => None,
    }
}

} // verus!
