//! What the desktop client's commands exchange: its audio-device listing
//! and the payload of a hotkey registration request. Registering the
//! hotkey itself is a windowing-system concern outside the library.

use vstd::prelude::*;

verus! {

/// One audio input device.
#[derive(Debug, Clone)]
pub struct AudioDevice {
    /// The device's identifier.
    pub id: String,
    /// The device's display name.
    pub name: String,
    /// Whether it is the system default.
    pub is_default: bool,
}

/// Lists the available audio input devices. Device enumeration through the
/// system is not wired in; the listing holds exactly the default device.
pub fn get_audio_devices() -> (r: Result<Vec<AudioDevice>, String>)
    ensures
        r matches Ok(v) && v@.len() == 1 && v@[0].id@ == "default"@ && v@[0].name@
            == "Микрофон по умолчанию"@ && v@[0].is_default,
{
    let mut devices: Vec<AudioDevice> = Vec::new();
    devices.push(
        AudioDevice {
            id: "default".to_owned(),
            name: "Микрофон по умолчанию".to_owned(),
            is_default: true,
        },
    );
    Ok(devices)
}

/// What a hotkey registration request carries.
pub struct HotkeyPayload {
    /// The shortcut to register, in its textual form.
    pub shortcut: String,
    /// The action the shortcut triggers.
    pub action: String,
}

} // verus!
