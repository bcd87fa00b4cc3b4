//! Validation and decoding of notification payloads.
//!
//! The trampoline that the native layer invokes must never unwind and must
//! tolerate hostile shapes: a null context, a null payload, a foreign event
//! tag, a declared length other than the fixed integer width.  The decision
//! of whether to dispatch, and with which decoded value, is pure logic and
//! lives here; the trampoline itself only gathers the raw arguments and
//! forwards the decision's value to the stored closure.

use vstd::prelude::*;

verus! {

/// The event tag that announces a changed power setting.
pub const SETTING_CHANGE_EVENT: u32 = 0x8013;

/// The number of payload bytes that carry a setting value.
pub const SETTING_VALUE_WIDTH: u32 = 4;

/// A tagged setting-change payload as the native layer delivers it: a
/// declared byte length and the bytes of the variable-length data region.
/// The two need not agree; `data` holds the bytes that are actually there.
pub struct SettingPayload {
    pub data_length: u32,
    pub data: Vec<u8>,
}

/// The value stored least-significant byte first in the first four bytes.
pub open spec fn word_value(bytes: Seq<u8>) -> int
    recommends
        bytes.len() >= 4,
{
    bytes[0] + bytes[1] * 0x100 + bytes[2] * 0x10000 + bytes[3] * 0x1000000
}

/// The value a payload's data region decodes to: the stored word when all
/// four bytes are there, and zero on a shortfall, so that a truncated
/// region never faults the trampoline.
pub open spec fn payload_value(data: Seq<u8>) -> int {
    if data.len() >= 4 {
        word_value(data)
    } else {
        0
    }
}

/// Decode a payload's data region.
pub fn decode_setting_value(data: &Vec<u8>) -> (r: u32)
    ensures
        r == payload_value(data@),
{
    if data.len() >= 4 {
        let b0 = data[0] as u32;
        let b1 = data[1] as u32;
        let b2 = data[2] as u32;
        let b3 = data[3] as u32;
        b0 + b1 * 0x100 + b2 * 0x10000 + b3 * 0x1000000
    } else {
        0
    }
}

/// Whether a setting-change delivery is dispatched to the stored closure:
/// only when the event tag is the setting-change tag, the context and the
/// payload were both present, and the declared length is exactly the fixed
/// integer width.
pub open spec fn setting_dispatches(
    event_tag: u32,
    context_present: bool,
    payload_present: bool,
    data_length: u32,
) -> bool {
    &&& event_tag == SETTING_CHANGE_EVENT
    &&& context_present
    &&& payload_present
    &&& data_length == SETTING_VALUE_WIDTH
}

/// Decide a setting-change delivery: `Some(value)` exactly when the
/// delivery dispatches, and `None` for every malformed shape, which is
/// skipped without effect.
pub fn setting_dispatch(
    event_tag: u32,
    context_present: bool,
    payload: Option<&SettingPayload>,
) -> (r: Option<u32>)
    ensures
        (match payload {
            Some(p) => r == (if setting_dispatches(event_tag, context_present, true, p.data_length) {
                Some(payload_value(p.data@) as u32)
            } else {
                None::<u32>
            }),
            None => r == None::<u32>,
        }),
{
    match payload {
        Some(p) => {
            if event_tag == SETTING_CHANGE_EVENT && context_present
                && p.data_length == SETTING_VALUE_WIDTH {
                Some(decode_setting_value(&p.data))
            } else {
                None
            }
        },
        None => None,
    }
}

/// Decide a mode-change delivery: the mode value is passed through exactly
/// when the context was present; a null context is never dispatched.
pub fn mode_dispatch(context_present: bool, mode: i32) -> (r: Option<i32>)
    ensures
        r == (if context_present {
            Some(mode)
        } else {
            None::<i32>
        }),
{
    if context_present {
        Some(mode)
    } else {
        None
    }
}

} // verus!
