//! Judging the replies of property reads and writes, resolving the default
//! input device, and the canonical mute value.
use vstd::prelude::*;

verus! {

/// Byte size of every scalar property handled here (a device id, a mute flag).
pub const SCALAR_SIZE: u32 = 4;

/// What the audio subsystem reported for one scalar read: its status code
/// (`0` on success), the reply size it reported back, and the value that
/// came with it. The value means nothing unless the status is `0` and the
/// size is the one that was asked for.
#[derive(Clone, Copy, Debug, PartialEq, Eq)]
pub struct ReadReply {
    pub status: i32,
    pub size: u32,
    pub value: u32,
}

/// Why a scalar read cannot be used.
#[derive(Clone, Copy, Debug, PartialEq, Eq)]
pub enum ReadError {
    /// The subsystem reported this nonzero status.
    Status(i32),
    /// The reply size differs from the size that was asked for.
    SizeMismatch { expected: u32, actual: u32 },
}

/// The value of a read reply, or why it cannot be used: the status is
/// judged first, then the size.
pub open spec fn read_outcome(reply: ReadReply, expected_size: u32) -> Result<u32, ReadError> {
    if reply.status != 0 {
        Err(ReadError::Status(reply.status))
    } else if reply.size != expected_size {
        Err(ReadError::SizeMismatch { expected: expected_size, actual: reply.size })
    } else {
        Ok(reply.value)
    }
}

pub fn check_read(reply: ReadReply, expected_size: u32) -> (r: Result<u32, ReadError>)
    ensures
        r == read_outcome(reply, expected_size),
{
    if reply.status != 0 {
        Err(ReadError::Status(reply.status))
    } else if reply.size != expected_size {
        Err(ReadError::SizeMismatch { expected: expected_size, actual: reply.size })
    } else {
        Ok(reply.value)
    }
}

/// `Ok(())` for a write whose status is `0`, else the status.
pub fn check_write(status: i32) -> (r: Result<(), i32>)
    ensures
        r == (if status == 0 { Ok::<(), i32>(()) } else { Err(status) }),
{
    if status == 0 {
        Ok(())
    } else {
        Err(status)
    }
}

/// The device named by a reply to the default input device query: present
/// only when the read succeeded with a scalar of the right size and the id
/// is not the reserved id `0`.
pub open spec fn resolved_device(reply: ReadReply) -> Option<u32> {
    if reply.status == 0 && reply.size == SCALAR_SIZE && reply.value != 0 {
        Some(reply.value)
    } else {
        None
    }
}

/// Resolves the default input device from the reply to its query.
pub fn resolve_default_input_device(reply: ReadReply) -> (r: Option<u32>)
    ensures
        r == resolved_device(reply),
        r is Some <==> (reply.status == 0 && reply.size == SCALAR_SIZE && reply.value != 0),
        r is Some ==> r == Some(reply.value),
{
    match check_read(reply, SCALAR_SIZE) {
        Ok(id) => {
            if id != 0 {
                Some(id)
            } else {
                None
            }
        },
        Err(_) => None,
    }
}

/// A mute flag as `0` (unmuted) or `1` (muted): any nonzero value is muted.
pub open spec fn canonical_mute(value: u32) -> u32 {
    if value != 0 {
        1
    } else {
        0
    }
}

/// The mute flag to write after reading `current`: the canonical opposite.
pub open spec fn toggled(current: u32) -> u32 {
    if current != 0 {
        0
    } else {
        1
    }
}

pub fn toggled_mute_value(current: u32) -> (r: u32)
    ensures
        r == toggled(current),
        current != 0 ==> r == 0,
        current == 0 ==> r == 1,
        r == 1 - canonical_mute(current),
{
    if current != 0 {
        0
    } else {
        1
    }
}

} // verus!
