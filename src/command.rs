//! The command line: the vocabulary of complete buffers and the host actions
//! they name.
use vstd::prelude::*;

verus! {

/// A request that the engine hands to its host.
#[derive(Debug, Clone, Copy, PartialEq, Eq, Structural)]
pub enum HostAction {
    Save,
    Quit,
    SaveQuit,
}

/// The action that a complete command buffer names, if any.
pub open spec fn command_action(b: Seq<char>) -> Option<HostAction> {
    if b == seq![':', 'w'] {
        Some(HostAction::Save)
    } else if b == seq![':', 'q'] {
        Some(HostAction::Quit)
    } else if b == seq![':', 'w', 'q'] {
        Some(HostAction::SaveQuit)
    } else {
        None
    }
}

/// Maps a complete command buffer to the action that it names.
pub fn parse_command(b: &Vec<char>) -> (r: Option<HostAction>)
    ensures
        r == command_action(b@),
{
    if b.len() == 2 && b[0] == ':' && b[1] == 'w' {
        assert(b@ =~= seq![':', 'w']);
        Some(HostAction::Save)
    } else if b.len() == 2 && b[0] == ':' && b[1] == 'q' {
        assert(b@ =~= seq![':', 'q']);
        Some(HostAction::Quit)
    } else if b.len() == 3 && b[0] == ':' && b[1] == 'w' && b[2] == 'q' {
        assert(b@ =~= seq![':', 'w', 'q']);
        Some(HostAction::SaveQuit)
    } else {
        proof {
            if b@ == seq![':', 'w'] || b@ == seq![':', 'q'] || b@ == seq![':', 'w', 'q'] {
                assert(b@.len() >= 2 && b@[0] == ':');
            }
        }
        None
    }
}

} // verus!
