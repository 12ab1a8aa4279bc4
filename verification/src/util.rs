//! Which optional sets of shell commands are on offer.

use vstd::prelude::*;

verus! {

/// The optional command sets that a shell includes.
#[derive(Clone, Copy, Debug, PartialEq, Eq, Structural)]
pub struct CommandSets {
    /// Commands for devices in developer mode.
    pub dev: bool,
    /// Commands for devices started from removable media.
    pub usb: bool,
}

impl Default for CommandSets {
    fn default() -> (sets: CommandSets)
        ensures
            sets == (CommandSets { dev: false, usb: false }),
    {
        CommandSets { dev: false, usb: false }
    }
}

pub fn set_dev_commands_included(sets: &mut CommandSets, value: bool)
    ensures
        *final(sets) == (CommandSets { dev: value, ..*old(sets) }),
{
    sets.dev = value;
}

pub fn set_usb_commands_included(sets: &mut CommandSets, value: bool)
    ensures
        *final(sets) == (CommandSets { usb: value, ..*old(sets) }),
{
    sets.usb = value;
}

pub fn dev_commands_included(sets: &CommandSets) -> (included: bool)
    ensures
        included == sets.dev,
{
    sets.dev
}

pub fn usb_commands_included(sets: &CommandSets) -> (included: bool)
    ensures
        included == sets.usb,
{
    sets.usb
}

} // verus!
