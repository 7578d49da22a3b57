use vstd::prelude::*;

use crate::command::Command;

verus! {

/// Whether a request that carries the authorization header `header` (if
/// any) may be served: only when the header is the shared secret itself.
pub fn authorized(header: Option<&str>, secret: &str) -> (r: bool)
    ensures
        r == match header {
            Some(h) => h@ == secret@,
            None => false,
        },
{
    match header {
        Some(h) => h.to_owned() == secret.to_owned(),
        None => false,
    }
}

/// Whether a command may be sent over the network: queries go through
/// their own request, and the wake-up and memory buttons are not offered.
pub fn remote_allowed(command: &Command) -> (r: bool)
    ensures
        r == !(*command is Query || *command is WakeUp || *command is Memory),
{
    match *command {
        Command::Query | Command::WakeUp | Command::Memory => false,
        _ => true,
    }
}

} // verus!
