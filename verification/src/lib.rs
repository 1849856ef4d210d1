//! Supervision core of a device-emulation hub: the decisions behind a fake
//! fingerprint reader, a fake webcam and a fake keyboard, kept free of I/O so
//! that every rule can be stated and proved.

use vstd::prelude::*;

pub mod biometry_server;
pub mod diagnostics;
pub mod hotkey;
pub mod locator;
pub mod patient;
pub mod process_handle;
pub mod protocol;
pub mod remote;
pub mod text;
pub mod webcam_emulator;

verus! {

/// The text of the refusal that `wsq_to_png_base64` always gives.
pub open spec fn wsq_unsupported_text() -> Seq<char> {
    "WSQ conversion not supported in current build"@
}

/// Converts a base64 WSQ fingerprint image to a base64 PNG. This build has no
/// WSQ decoder, so every input is refused with the same message.
pub fn wsq_to_png_base64(wsq_b64: &str) -> (r: Result<String, String>)
    ensures
        r matches Err(e) && e@ == wsq_unsupported_text(),
{
    Err("WSQ conversion not supported in current build".to_string())
}

} // verus!
