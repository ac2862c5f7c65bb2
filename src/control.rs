//! Messages that steer the camera loop from outside.

use vstd::prelude::*;

verus! {

/// The message that stops the camera loop: the ASCII text `terminate`.
pub open spec fn terminate_command() -> Seq<u8> {
    seq![116u8, 101u8, 114u8, 109u8, 105u8, 110u8, 97u8, 116u8, 101u8]
}

/// Whether `msg` is the command that stops the camera loop.
pub fn is_terminate(msg: &[u8]) -> (r: bool)
    ensures
        r == (msg@ == terminate_command()),
{
    let command: [u8; 9] = [116u8, 101u8, 114u8, 109u8, 105u8, 110u8, 97u8, 116u8, 101u8];
    assert(command@ =~= terminate_command());
    if msg.len() != 9 {
        return false;
    }
    let mut i: usize = 0;
    while i < 9
        invariant
            i <= 9,
            msg@.len() == 9,
            command@ == terminate_command(),
            forall|j: int| 0 <= j < i ==> msg@[j] == command@[j],
        decreases 9 - i,
    {
        if msg[i] != command[i] {
            return false;
        }
        i = i + 1;
    }
    assert(msg@ =~= terminate_command());
    true
}

} // verus!
