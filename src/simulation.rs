//! A model of the audio subsystem that answers the toggle protocol's
//! requests, and what the protocol does when run against it.
use vstd::prelude::*;
use crate::accessor::{canonical_mute, ReadReply, SCALAR_SIZE};
use crate::address::{default_input_device_spec, input_mute_spec, SYSTEM_OBJECT};
use crate::toggle::{next, pending, Reply, Request, ToggleError, ToggleState};

verus! {

/// A modelled audio subsystem: how it answers the default device query, the
/// mute read and the mute write, and the device's current mute flag.
pub struct SimulatedAudio {
    pub resolve_status: i32,
    pub default_device: u32,
    pub read_status: i32,
    pub read_size: u32,
    pub mute: u32,
    pub write_status: i32,
}

/// The modelled subsystem's reply to `req`, and its state afterwards. Only a
/// successful write changes it.
pub open spec fn answer(sim: SimulatedAudio, req: Request) -> (Reply, SimulatedAudio) {
    match req {
        Request::Read { object, address, size } => {
            if object == SYSTEM_OBJECT && address == default_input_device_spec() {
                (
                    Reply::Read(
                        ReadReply {
                            status: sim.resolve_status,
                            size: SCALAR_SIZE,
                            value: sim.default_device,
                        },
                    ),
                    sim,
                )
            } else {
                (
                    Reply::Read(
                        ReadReply { status: sim.read_status, size: sim.read_size, value: sim.mute },
                    ),
                    sim,
                )
            }
        },
        Request::Write { value, .. } => {
            if sim.write_status == 0 {
                (Reply::Write { status: 0 }, SimulatedAudio { mute: value, ..sim })
            } else {
                (Reply::Write { status: sim.write_status }, sim)
            }
        },
        Request::Finish(_) => (Reply::Write { status: 0 }, sim),
    }
}

/// Runs the protocol from `state`, whose request is `req`, for at most
/// `fuel` replies: the subsystem's final state and every request handed
/// out, the last one included.
pub open spec fn run_from(state: ToggleState, req: Request, sim: SimulatedAudio, fuel: nat) -> (
    SimulatedAudio,
    Seq<Request>,
)
    decreases fuel,
{
    if fuel == 0 || req is Finish {
        (sim, seq![req])
    } else {
        let (reply, sim2) = answer(sim, req);
        let (s2, req2) = next(state, reply);
        let (end, trace) = run_from(s2, req2, sim2, (fuel - 1) as nat);
        (end, seq![req] + trace)
    }
}

/// One whole toggle against the modelled subsystem.
pub open spec fn run_toggle(sim: SimulatedAudio) -> (SimulatedAudio, Seq<Request>) {
    run_from(ToggleState::ResolvingDevice, pending(ToggleState::ResolvingDevice), sim, 3)
}

/// Whether the default device query succeeds with a usable id.
pub open spec fn resolves(sim: SimulatedAudio) -> bool {
    sim.resolve_status == 0 && sim.default_device != 0
}

/// Whether every call of a toggle succeeds.
pub open spec fn all_succeed(sim: SimulatedAudio) -> bool {
    resolves(sim) && sim.read_status == 0 && sim.read_size == SCALAR_SIZE && sim.write_status == 0
}

/// The request that reads the mute flag of `device`.
pub open spec fn mute_read(device: u32) -> Request {
    Request::Read { object: device, address: input_mute_spec(), size: SCALAR_SIZE }
}

/// A successful toggle leaves the canonical opposite of the read flag on the
/// device, and reports it.
pub proof fn lemma_toggle_succeeds(sim: SimulatedAudio)
    requires
        all_succeed(sim),
    ensures
        run_toggle(sim).0 == (SimulatedAudio { mute: (1 - canonical_mute(sim.mute)) as u32, ..sim }),
        run_toggle(sim).1 == seq![
            pending(ToggleState::ResolvingDevice),
            mute_read(sim.default_device),
            Request::Write {
                object: sim.default_device,
                address: input_mute_spec(),
                value: (1 - canonical_mute(sim.mute)) as u32,
            },
            Request::Finish(Ok(sim.mute == 0)),
        ],
{
    reveal_with_fuel(run_from, 4);
}

/// Toggling twice, with nothing else touching the device in between,
/// leaves the mute flag at the canonical form of its first value.
pub proof fn lemma_toggle_twice_restores(sim: SimulatedAudio)
    requires
        all_succeed(sim),
    ensures
        run_toggle(run_toggle(sim).0).0.mute == canonical_mute(sim.mute),
        run_toggle(sim).1.last() == Request::Finish(Ok(sim.mute == 0)),
        run_toggle(run_toggle(sim).0).1.last() == Request::Finish(Ok(sim.mute != 0)),
{
    lemma_toggle_succeeds(sim);
    let once = run_toggle(sim).0;
    assert(all_succeed(once));
    lemma_toggle_succeeds(once);
}

/// When the mute read fails with a nonzero status, no write is requested,
/// the device is left as it was, and the toggle reports `ReadFailed`.
pub proof fn lemma_no_write_on_read_failure(sim: SimulatedAudio)
    requires
        resolves(sim),
        sim.read_status != 0,
    ensures
        run_toggle(sim).0 == sim,
        run_toggle(sim).1 == seq![
            pending(ToggleState::ResolvingDevice),
            mute_read(sim.default_device),
            Request::Finish(Err(ToggleError::ReadFailed(sim.read_status))),
        ],
        forall|i: int| 0 <= i < run_toggle(sim).1.len() ==> !(run_toggle(sim).1[i] is Write),
{
    reveal_with_fuel(run_from, 4);
    let t = run_toggle(sim).1;
    assert forall|i: int| 0 <= i < t.len() implies !(t[i] is Write) by {
        assert(i == 0 || i == 1 || i == 2);
    }
}

/// When no default input device resolves, the only request is the device
/// query on the system object: the device is neither read nor written, and
/// the toggle reports `NoDeviceFound`.
pub proof fn lemma_no_device_is_no_op(sim: SimulatedAudio)
    requires
        !resolves(sim),
    ensures
        run_toggle(sim).0 == sim,
        run_toggle(sim).1 == seq![
            pending(ToggleState::ResolvingDevice),
            Request::Finish(Err(ToggleError::NoDeviceFound)),
        ],
        forall|i: int|
            0 <= i < run_toggle(sim).1.len() ==> !(run_toggle(sim).1[i] is Write) && (run_toggle(
                sim,
            ).1[i] is Read ==> run_toggle(sim).1[i]->Read_object == SYSTEM_OBJECT),
{
    reveal_with_fuel(run_from, 4);
    let t = run_toggle(sim).1;
    assert forall|i: int| 0 <= i < t.len() implies !(t[i] is Write) && (t[i] is Read
        ==> t[i]->Read_object == SYSTEM_OBJECT) by {
        assert(i == 0 || i == 1);
    }
}

/// A write that reports a nonzero status ends the toggle with `WriteFailed`
/// carrying that status, never with `ReadFailed`.
pub proof fn lemma_write_failure_reported(sim: SimulatedAudio)
    requires
        resolves(sim),
        sim.read_status == 0,
        sim.read_size == SCALAR_SIZE,
        sim.write_status != 0,
    ensures
        run_toggle(sim).0 == sim,
        run_toggle(sim).1.len() == 4,
        run_toggle(sim).1.last() == Request::Finish(Err(ToggleError::WriteFailed(sim.write_status))),
        forall|st: i32| run_toggle(sim).1.last() != Request::Finish(Err(ToggleError::ReadFailed(st))),
{
    reveal_with_fuel(run_from, 4);
}

} // verus!
