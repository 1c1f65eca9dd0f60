use micmute::accessor::{
    check_read, check_write, resolve_default_input_device, toggled_mute_value, ReadError,
    ReadReply, SCALAR_SIZE,
};
use micmute::address::{
    PropertyAddress, ELEMENT_MAIN, SCOPE_GLOBAL, SCOPE_INPUT, SELECTOR_DEFAULT_INPUT_DEVICE,
    SELECTOR_MUTE, SYSTEM_OBJECT,
};
use micmute::toggle::{begin_toggle, Reply, Request, ToggleError, ToggleState};

/// A stand-in for the audio subsystem that counts the calls made on it.
struct FakeAudio {
    resolve_status: i32,
    default_device: u32,
    read_status: i32,
    read_size: u32,
    mute: u32,
    write_status: i32,
    system_reads: usize,
    device_reads: usize,
    writes: usize,
}

impl FakeAudio {
    fn with_device(device: u32, mute: u32) -> FakeAudio {
        FakeAudio {
            resolve_status: 0,
            default_device: device,
            read_status: 0,
            read_size: 4,
            mute,
            write_status: 0,
            system_reads: 0,
            device_reads: 0,
            writes: 0,
        }
    }

    fn perform(&mut self, req: Request) -> Reply {
        match req {
            Request::Read { object, address, size } => {
                assert_eq!(size, 4);
                if object == SYSTEM_OBJECT {
                    assert_eq!(address, PropertyAddress::default_input_device());
                    self.system_reads += 1;
                    Reply::Read(ReadReply {
                        status: self.resolve_status,
                        size: 4,
                        value: self.default_device,
                    })
                } else {
                    assert_eq!(object, self.default_device);
                    assert_eq!(address, PropertyAddress::input_mute());
                    self.device_reads += 1;
                    Reply::Read(ReadReply {
                        status: self.read_status,
                        size: self.read_size,
                        value: self.mute,
                    })
                }
            }
            Request::Write { object, address, value } => {
                assert_eq!(object, self.default_device);
                assert_eq!(address, PropertyAddress::input_mute());
                self.writes += 1;
                if self.write_status == 0 {
                    self.mute = value;
                }
                Reply::Write { status: self.write_status }
            }
            Request::Finish(_) => panic!("a finished toggle asks for nothing"),
        }
    }

    fn toggle(&mut self) -> Result<bool, ToggleError> {
        let (mut state, mut req) = begin_toggle();
        loop {
            if let Request::Finish(outcome) = req {
                assert!(state.is_finished());
                return outcome;
            }
            let reply = self.perform(req);
            assert!(state.answers(&reply));
            let (s, r) = state.step(reply);
            state = s;
            req = r;
        }
    }
}

fn read_reply(status: i32, value: u32) -> ReadReply {
    ReadReply { status, size: SCALAR_SIZE, value }
}

#[test]
fn addresses_are_the_documented_triples() {
    let d = PropertyAddress::default_input_device();
    assert_eq!(d.selector, SELECTOR_DEFAULT_INPUT_DEVICE);
    assert_eq!(d.selector, u32::from_be_bytes(*b"dIn "));
    assert_eq!(d.scope, u32::from_be_bytes(*b"glob"));
    assert_eq!(d.scope, SCOPE_GLOBAL);
    assert_eq!(d.element, ELEMENT_MAIN);
    let m = PropertyAddress::input_mute();
    assert_eq!(m.selector, SELECTOR_MUTE);
    assert_eq!(m.selector, u32::from_be_bytes(*b"mute"));
    assert_eq!(m.scope, SCOPE_INPUT);
    assert_eq!(m.scope, u32::from_be_bytes(*b"inpt"));
    assert_eq!(m.element, 0);
}

#[test]
fn resolver_success_with_nonzero_id() {
    assert_eq!(resolve_default_input_device(read_reply(0, 42)), Some(42));
}

#[test]
fn resolver_zero_id_is_absence() {
    assert_eq!(resolve_default_input_device(read_reply(0, 0)), None);
}

#[test]
fn resolver_failed_status_is_absence() {
    assert_eq!(resolve_default_input_device(read_reply(-1, 42)), None);
}

#[test]
fn resolver_wrong_size_is_absence() {
    let reply = ReadReply { status: 0, size: 2, value: 42 };
    assert_eq!(resolve_default_input_device(reply), None);
}

#[test]
fn canonicalization_of_nonzero_reads() {
    assert_eq!(toggled_mute_value(1), 0);
    assert_eq!(toggled_mute_value(2), 0);
    assert_eq!(toggled_mute_value(255), 0);
    assert_eq!(toggled_mute_value(0xFFFF_FFFF), 0);
}

#[test]
fn canonicalization_of_zero_read() {
    assert_eq!(toggled_mute_value(0), 1);
}

#[test]
fn check_read_judges_status_before_size() {
    assert_eq!(check_read(ReadReply { status: 0, size: 4, value: 7 }, 4), Ok(7));
    assert_eq!(
        check_read(ReadReply { status: 5, size: 2, value: 7 }, 4),
        Err(ReadError::Status(5))
    );
    assert_eq!(
        check_read(ReadReply { status: 0, size: 8, value: 7 }, 4),
        Err(ReadError::SizeMismatch { expected: 4, actual: 8 })
    );
}

#[test]
fn check_write_passes_status_on() {
    assert_eq!(check_write(0), Ok(()));
    assert_eq!(check_write(-50), Err(-50));
}

#[test]
fn toggle_mutes_an_unmuted_device() {
    let mut os = FakeAudio::with_device(73, 0);
    assert_eq!(os.toggle(), Ok(true));
    assert_eq!(os.mute, 1);
    assert_eq!((os.system_reads, os.device_reads, os.writes), (1, 1, 1));
}

#[test]
fn toggle_writes_canonical_zero_for_any_nonzero_flag() {
    let mut os = FakeAudio::with_device(73, 255);
    assert_eq!(os.toggle(), Ok(false));
    assert_eq!(os.mute, 0);
}

#[test]
fn toggle_twice_restores_the_flag() {
    let mut os = FakeAudio::with_device(73, 0);
    assert_eq!(os.toggle(), Ok(true));
    assert_eq!(os.mute, 1);
    assert_eq!(os.toggle(), Ok(false));
    assert_eq!(os.mute, 0);
    assert_eq!(os.writes, 2);
}

#[test]
fn toggle_twice_canonicalizes_a_nonzero_flag() {
    let mut os = FakeAudio::with_device(9, 2);
    os.toggle().unwrap();
    os.toggle().unwrap();
    assert_eq!(os.mute, 1);
}

#[test]
fn read_failure_writes_nothing() {
    let mut os = FakeAudio::with_device(73, 1);
    os.read_status = -3;
    assert_eq!(os.toggle(), Err(ToggleError::ReadFailed(-3)));
    assert_eq!(os.device_reads, 1);
    assert_eq!(os.writes, 0);
    assert_eq!(os.mute, 1);
}

#[test]
fn no_device_makes_no_device_calls() {
    let mut os = FakeAudio::with_device(0, 1);
    assert_eq!(os.toggle(), Err(ToggleError::NoDeviceFound));
    assert_eq!((os.system_reads, os.device_reads, os.writes), (1, 0, 0));

    let mut os = FakeAudio::with_device(73, 1);
    os.resolve_status = 1;
    assert_eq!(os.toggle(), Err(ToggleError::NoDeviceFound));
    assert_eq!((os.system_reads, os.device_reads, os.writes), (1, 0, 0));
}

#[test]
fn write_failure_is_reported_as_write_failed() {
    let mut os = FakeAudio::with_device(73, 0);
    os.write_status = -7;
    let outcome = os.toggle();
    assert_eq!(outcome, Err(ToggleError::WriteFailed(-7)));
    assert_ne!(outcome, Err(ToggleError::ReadFailed(-7)));
    assert_eq!(os.writes, 1);
}

#[test]
fn size_mismatch_on_mute_read_aborts() {
    let mut os = FakeAudio::with_device(73, 0);
    os.read_size = 2;
    assert_eq!(
        os.toggle(),
        Err(ToggleError::SizeMismatch { expected: 4, actual: 2 })
    );
    assert_eq!(os.writes, 0);
}

#[test]
fn reply_of_wrong_kind_changes_nothing() {
    let (state, req) = begin_toggle();
    assert!(!state.answers(&Reply::Write { status: 0 }));
    let (s, r) = state.step(Reply::Write { status: 0 });
    assert_eq!(s, ToggleState::ResolvingDevice);
    assert_eq!(r, req);
}

#[test]
fn finished_state_repeats_its_report() {
    let state = ToggleState::Toggled { muted: true };
    assert!(state.is_finished());
    let (s, r) = state.step(Reply::Read(read_reply(0, 5)));
    assert_eq!(s, state);
    assert_eq!(r, Request::Finish(Ok(true)));
}

#[test]
fn step_sequence_of_a_successful_toggle() {
    let (s0, r0) = begin_toggle();
    assert_eq!(
        r0,
        Request::Read {
            object: SYSTEM_OBJECT,
            address: PropertyAddress::default_input_device(),
            size: 4
        }
    );
    let (s1, r1) = s0.step(Reply::Read(read_reply(0, 42)));
    assert_eq!(s1, ToggleState::DeviceResolved { device: 42 });
    assert_eq!(
        r1,
        Request::Read { object: 42, address: PropertyAddress::input_mute(), size: 4 }
    );
    let (s2, r2) = s1.step(Reply::Read(read_reply(0, 1)));
    assert_eq!(s2, ToggleState::ValueRead { device: 42, new_value: 0 });
    assert_eq!(
        r2,
        Request::Write { object: 42, address: PropertyAddress::input_mute(), value: 0 }
    );
    let (s3, r3) = s2.step(Reply::Write { status: 0 });
    assert_eq!(s3, ToggleState::Toggled { muted: false });
    assert_eq!(r3, Request::Finish(Ok(false)));
}
