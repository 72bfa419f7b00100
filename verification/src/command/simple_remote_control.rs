use vstd::prelude::*;

use crate::command::command::Command;

verus! {

/// A remote control with a single slot: it holds one command and fires it
/// when the button is pressed.
pub struct SimpleRemoteControl<C: Command> {
    slot: C,
}

impl<C: Command> SimpleRemoteControl<C> {
    /// The command currently in the slot.
    pub closed spec fn spec_slot(&self) -> C {
        self.slot
    }

    /// A control with `command` in its slot.
    pub fn new(command: C) -> (r: SimpleRemoteControl<C>)
        ensures
            r.spec_slot() == command,
    {
        SimpleRemoteControl { slot: command }
    }

    /// Replaces the slot's command; the old one is dropped.
    pub fn set_command(&mut self, command: C)
        ensures
            final(self).spec_slot() == command,
    {
        self.slot = command;
    }

    /// Fires the held command. Its effect lives in whatever state the command
    /// shares with the caller.
    pub fn button_was_pressed(&mut self) {
        self.slot.execute()
    }
}

} // verus!
