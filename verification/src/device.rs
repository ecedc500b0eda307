//! Device-kind classification of raw pointer events.

use vstd::prelude::*;
use vstd::string::StringExecFns;

verus! {

/// The kind of input device a raw pointer event originated from.
///
/// The host reports the device through a free-form type string; everything
/// that is neither a mouse nor a touch contact (pen input, unrecognized
/// devices) degrades to `Other` and is silently dropped by every dispatch
/// routine.
#[derive(Clone, Copy, Debug, PartialEq, Eq, Structural)]
pub enum DeviceKind {
    Mouse,
    Touch,
    Other,
}

/// What `classify` returns for a given host-reported pointer-type string.
pub open spec fn spec_classify(pointer_type: Seq<char>) -> DeviceKind {
    if pointer_type == "mouse"@ {
        DeviceKind::Mouse
    } else if pointer_type == "touch"@ {
        DeviceKind::Touch
    } else {
        DeviceKind::Other
    }
}

/// Maps the host-reported pointer-type string to a device kind: `Mouse` for
/// exactly `"mouse"`, `Touch` for exactly `"touch"`, `Other` for anything
/// else. Total and side-effect free.
pub fn classify(pointer_type: &str) -> (kind: DeviceKind)
    ensures
        kind == spec_classify(pointer_type@),
{
    let t = String::from_str(pointer_type);
    if t == String::from_str("mouse") {
        DeviceKind::Mouse
    } else if t == String::from_str("touch") {
        DeviceKind::Touch
    } else {
        DeviceKind::Other
    }
}

} // verus!
