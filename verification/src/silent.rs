//! The silent mode, which installs without a window.

use vstd::prelude::*;

use crate::message::{InstallMessage, MessageView};

verus! {

/// Says whether the silent mode is asked for on the command line.
pub fn is_silent(args: &Vec<String>) -> (silent: bool)
    ensures
        silent == exists|i: int| 0 <= i < args@.len() && (#[trigger] args@[i])@ == "--silent"@,
{
    let flag = "--silent".to_string();
    let mut i: usize = 0;
    while i < args.len()
        invariant
            i <= args@.len(),
            flag@ == "--silent"@,
            forall|j: int| 0 <= j < i ==> (#[trigger] args@[j])@ != "--silent"@,
        decreases args@.len() - i,
    {
        if args[i] == flag {
            return true;
        }
        i = i + 1;
    }
    false
}

/// The exit code that a message calls for, if it ends the program.
pub open spec fn exit_code_of(message: MessageView) -> Option<i32> {
    match message {
        MessageView::Completed => Some(0),
        MessageView::Error(_) => Some(1),
        _ => None,
    }
}

/// The exit code of the silent mode on the messages of a run: the first
/// message that calls for one decides, and without one it is 0.
pub open spec fn silent_outcome(messages: Seq<MessageView>) -> i32
    decreases messages.len(),
{
    if messages.len() == 0 {
        0
    } else {
        match exit_code_of(messages[0]) {
            Some(code) => code,
            None => silent_outcome(messages.skip(1)),
        }
    }
}

/// The exit code that a message calls for, if it ends the program.
pub fn exit_code(message: &InstallMessage) -> (code: Option<i32>)
    ensures
        code == exit_code_of(message@),
{
    match message {
        InstallMessage::Completed => Some(0),
        InstallMessage::Error(_) => Some(1),
        _ => None,
    }
}

} // verus!
