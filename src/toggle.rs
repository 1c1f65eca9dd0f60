//! The toggle protocol as a state machine: resolve the default input device,
//! read its mute flag, write back the canonical opposite.
//!
//! The caller performs each `Request` against the audio subsystem and hands
//! the matching `Reply` to `ToggleState::step`, until a `Request::Finish`
//! comes out.
use vstd::prelude::*;
use crate::accessor::{
    check_read, check_write, read_outcome, resolve_default_input_device, resolved_device,
    toggled, toggled_mute_value, ReadError, ReadReply, SCALAR_SIZE,
};
use crate::address::{default_input_device_spec, input_mute_spec, PropertyAddress, SYSTEM_OBJECT};

verus! {

/// Why a toggle did not complete.
#[derive(Clone, Copy, Debug, PartialEq, Eq)]
pub enum ToggleError {
    /// No default input device could be resolved.
    NoDeviceFound,
    /// Reading the mute flag gave this nonzero status; nothing was written.
    ReadFailed(i32),
    /// Writing the new mute flag gave this nonzero status; the device's mute
    /// state is unknown afterwards.
    WriteFailed(i32),
    /// The mute read replied with a size other than the scalar's.
    SizeMismatch { expected: u32, actual: u32 },
}

/// The next thing the caller must do against the audio subsystem.
#[derive(Clone, Copy, Debug, PartialEq, Eq)]
pub enum Request {
    /// Read the scalar property `address` of `object`, with a buffer of `size` bytes.
    Read { object: u32, address: PropertyAddress, size: u32 },
    /// Write `value`, a scalar of `SCALAR_SIZE` bytes, to `address` of `object`.
    Write { object: u32, address: PropertyAddress, value: u32 },
    /// The protocol is over: the mute state now set (`true` = muted), or why not.
    Finish(Result<bool, ToggleError>),
}

/// What the audio subsystem answered to the last request.
#[derive(Clone, Copy, Debug, PartialEq, Eq)]
pub enum Reply {
    Read(ReadReply),
    Write { status: i32 },
}

/// Where a toggle stands.
#[derive(Clone, Copy, Debug, PartialEq, Eq)]
pub enum ToggleState {
    /// Waiting for the reply to the default input device query.
    ResolvingDevice,
    /// `device` is resolved; waiting for the reply to its mute read.
    DeviceResolved { device: u32 },
    /// The mute flag was read; waiting for the reply to writing `new_value`.
    ValueRead { device: u32, new_value: u32 },
    /// The write succeeded; `muted` is the state now set.
    Toggled { muted: bool },
    /// The toggle stopped with this error.
    Failed(ToggleError),
}

/// The request that a state waits on the answer of, or the final report.
pub open spec fn pending(state: ToggleState) -> Request {
    match state {
        ToggleState::ResolvingDevice => Request::Read {
            object: SYSTEM_OBJECT,
            address: default_input_device_spec(),
            size: SCALAR_SIZE,
        },
        ToggleState::DeviceResolved { device } => Request::Read {
            object: device,
            address: input_mute_spec(),
            size: SCALAR_SIZE,
        },
        ToggleState::ValueRead { device, new_value } => Request::Write {
            object: device,
            address: input_mute_spec(),
            value: new_value,
        },
        ToggleState::Toggled { muted } => Request::Finish(Ok(muted)),
        ToggleState::Failed(e) => Request::Finish(Err(e)),
    }
}

/// The state after a failure, with the report that goes with it.
pub open spec fn fail(e: ToggleError) -> (ToggleState, Request) {
    (ToggleState::Failed(e), Request::Finish(Err(e)))
}

/// The state and request after `reply` comes in while in `state`. A reply
/// of the wrong kind, or one in a final state, changes nothing.
pub open spec fn next(state: ToggleState, reply: Reply) -> (ToggleState, Request) {
    match (state, reply) {
        (ToggleState::ResolvingDevice, Reply::Read(r)) => match resolved_device(r) {
            Some(device) => {
                let s = ToggleState::DeviceResolved { device };
                (s, pending(s))
            },
            None => fail(ToggleError::NoDeviceFound),
        },
        (ToggleState::DeviceResolved { device }, Reply::Read(r)) => match read_outcome(
            r,
            SCALAR_SIZE,
        ) {
            Ok(v) => {
                let s = ToggleState::ValueRead { device, new_value: toggled(v) };
                (s, pending(s))
            },
            Err(ReadError::Status(st)) => fail(ToggleError::ReadFailed(st)),
            Err(ReadError::SizeMismatch { expected, actual }) => fail(
                ToggleError::SizeMismatch { expected, actual },
            ),
        },
        (ToggleState::ValueRead { device, new_value }, Reply::Write { status }) => {
            if status == 0 {
                let s = ToggleState::Toggled { muted: new_value == 1 };
                (s, pending(s))
            } else {
                fail(ToggleError::WriteFailed(status))
            }
        },
        _ => (state, pending(state)),
    }
}

/// Whether `reply` is of the kind that `state` waits for.
pub open spec fn answers(state: ToggleState, reply: Reply) -> bool {
    match state {
        ToggleState::ResolvingDevice | ToggleState::DeviceResolved { .. } => reply is Read,
        ToggleState::ValueRead { .. } => reply is Write,
        _ => false,
    }
}

/// Starts a toggle: the first request is the default input device query.
pub fn begin_toggle() -> (r: (ToggleState, Request))
    ensures
        r.0 == ToggleState::ResolvingDevice,
        r.1 == pending(ToggleState::ResolvingDevice),
{
    let s = ToggleState::ResolvingDevice;
    (s, s.pending_request())
}

impl ToggleState {
    pub fn pending_request(&self) -> (r: Request)
        ensures
            r == pending(*self),
    {
        match *self {
            ToggleState::ResolvingDevice => Request::Read {
                object: SYSTEM_OBJECT,
                address: PropertyAddress::default_input_device(),
                size: SCALAR_SIZE,
            },
            ToggleState::DeviceResolved { device } => Request::Read {
                object: device,
                address: PropertyAddress::input_mute(),
                size: SCALAR_SIZE,
            },
            ToggleState::ValueRead { device, new_value } => Request::Write {
                object: device,
                address: PropertyAddress::input_mute(),
                value: new_value,
            },
            ToggleState::Toggled { muted } => Request::Finish(Ok(muted)),
            ToggleState::Failed(e) => Request::Finish(Err(e)),
        }
    }

    /// Whether the state is final: nothing more is asked of the caller.
    pub fn is_finished(&self) -> (r: bool)
        ensures
            r == (pending(*self) is Finish),
    {
        match *self {
            ToggleState::Toggled { .. } | ToggleState::Failed(_) => true,
            _ => false,
        }
    }

    pub fn answers(&self, reply: &Reply) -> (r: bool)
        ensures
            r == answers(*self, *reply),
    {
        match (*self, *reply) {
            (ToggleState::ResolvingDevice, Reply::Read(_)) => true,
            (ToggleState::DeviceResolved { .. }, Reply::Read(_)) => true,
            (ToggleState::ValueRead { .. }, Reply::Write { .. }) => true,
            _ => false,
        }
    }

    /// Takes in the reply to the pending request; gives the new state and
    /// the request that it waits on.
    pub fn step(self, reply: Reply) -> (r: (ToggleState, Request))
        ensures
            r == next(self, reply),
            r.1 == pending(r.0),
            !answers(self, reply) ==> r.0 == self,
    {
        match (self, reply) {
            (ToggleState::ResolvingDevice, Reply::Read(rr)) => {
                match resolve_default_input_device(rr) {
                    Some(device) => {
                        let s = ToggleState::DeviceResolved { device };
                        (s, s.pending_request())
                    },
                    None => {
                        let e = ToggleError::NoDeviceFound;
                        (ToggleState::Failed(e), Request::Finish(Err(e)))
                    },
                }
            },
            (ToggleState::DeviceResolved { device }, Reply::Read(rr)) => {
                match check_read(rr, SCALAR_SIZE) {
                    Ok(v) => {
                        let s = ToggleState::ValueRead { device, new_value: toggled_mute_value(v) };
                        (s, s.pending_request())
                    },
                    Err(ReadError::Status(st)) => {
                        let e = ToggleError::ReadFailed(st);
                        (ToggleState::Failed(e), Request::Finish(Err(e)))
                    },
                    Err(ReadError::SizeMismatch { expected, actual }) => {
                        let e = ToggleError::SizeMismatch { expected, actual };
                        (ToggleState::Failed(e), Request::Finish(Err(e)))
                    },
                }
            },
            (ToggleState::ValueRead { device, new_value }, Reply::Write { status }) => {
                match check_write(status) {
                    Ok(()) => {
                        let s = ToggleState::Toggled { muted: new_value == 1 };
                        (s, s.pending_request())
                    },
                    Err(st) => {
                        let e = ToggleError::WriteFailed(st);
                        (ToggleState::Failed(e), Request::Finish(Err(e)))
                    },
                }
            },
            _ => (self, self.pending_request()),
        }
    }
}

} // verus!
