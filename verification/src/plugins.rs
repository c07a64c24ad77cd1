//! The rules of the chain of plugins that is run on a packet.
//!
//! Plugins are run in order. Each may offer hooks for chat messages; what
//! the last hook of a plugin returns tells whether the chain goes on to the
//! next plugin. Loading and calling the plugins is the caller's part.

use crate::Packet;
use vstd::prelude::*;

verus! {

/// Returned by a hook that has nothing to say.
pub const HOOK_NO_OPINION: u32 = 0;

/// Returned by a hook that wants the next plugin to run.
pub const HOOK_CONTINUE: u32 = 1;

/// Returned by a hook that wants the chain to stop.
pub const HOOK_HALT: u32 = 2;

/// What follows a plugin in the chain.
#[derive(Clone, Copy, Debug, PartialEq, Eq, Structural)]
pub enum ChainStep {
    /// The next plugin is run.
    Next,
    /// No further plugin is run.
    Halt,
}

/// Whether the hooks of a plugin are called for `packet`: they are for chat
/// messages only.
pub fn runs_hooks(packet: &Packet) -> (b: bool)
    ensures
        b == (packet is ChatMessage),
{
    matches!(packet, Packet::ChatMessage(_))
}

/// What a call of a hook counts as: the number it returned, or no opinion
/// where the call failed.
pub fn hook_code(returned: Option<u32>) -> (code: u32)
    ensures
        code == match returned {
            Some(c) => c,
            None => HOOK_NO_OPINION,
        },
{
    match returned {
        Some(c) => c,
        None => HOOK_NO_OPINION,
    }
}

/// What follows a plugin whose last hook counted as `code`: the chain stops
/// on [`HOOK_HALT`] and goes on after every other number.
pub fn chain_step(code: u32) -> (step: ChainStep)
    ensures
        step == if code == HOOK_HALT {
            ChainStep::Halt
        } else {
            ChainStep::Next
        },
{
    if code == HOOK_HALT {
        ChainStep::Halt
    } else {
        ChainStep::Next
    }
}

} // verus!
