//! Property addresses: which property of which sub-unit of an audio object.
use vstd::prelude::*;

verus! {

/// Handle of the process-wide system audio object.
pub const SYSTEM_OBJECT: u32 = 1;

/// Selector `'dIn '`: the system's default input device.
pub const SELECTOR_DEFAULT_INPUT_DEVICE: u32 = 0x6449_6E20;

/// Selector `'mute'`: a device's mute flag.
pub const SELECTOR_MUTE: u32 = 0x6D75_7465;

/// Scope `'glob'`: the object as a whole.
pub const SCOPE_GLOBAL: u32 = 0x676C_6F62;

/// Scope `'inpt'`: the input (capture) side of a device.
pub const SCOPE_INPUT: u32 = 0x696E_7074;

/// Element `0`: the main element, the aggregate of all channels.
pub const ELEMENT_MAIN: u32 = 0;

/// The triple that names one property: its kind (`selector`), its signal
/// direction (`scope`) and its channel (`element`).
#[derive(Clone, Copy, Debug, PartialEq, Eq)]
pub struct PropertyAddress {
    pub selector: u32,
    pub scope: u32,
    pub element: u32,
}

/// The address of the system object's default input device property.
pub open spec fn default_input_device_spec() -> PropertyAddress {
    PropertyAddress {
        selector: SELECTOR_DEFAULT_INPUT_DEVICE,
        scope: SCOPE_GLOBAL,
        element: ELEMENT_MAIN,
    }
}

/// The address of a device's mute flag on its input side, main element.
pub open spec fn input_mute_spec() -> PropertyAddress {
    PropertyAddress { selector: SELECTOR_MUTE, scope: SCOPE_INPUT, element: ELEMENT_MAIN }
}

impl PropertyAddress {
    pub fn default_input_device() -> (r: PropertyAddress)
        ensures
            r == default_input_device_spec(),
    {
        PropertyAddress {
            selector: SELECTOR_DEFAULT_INPUT_DEVICE,
            scope: SCOPE_GLOBAL,
            element: ELEMENT_MAIN,
        }
    }

    pub fn input_mute() -> (r: PropertyAddress)
        ensures
            r == input_mute_spec(),
    {
        PropertyAddress { selector: SELECTOR_MUTE, scope: SCOPE_INPUT, element: ELEMENT_MAIN }
    }
}

} // verus!
