//! The audio devices that a recording can take sound from.

use vstd::prelude::*;

verus! {

/// An audio device.
#[derive(Debug, PartialEq, Eq)]
pub struct AudioDevice {
    pub id: String,
    pub name: String,
    /// `microphone`, `speaker` or `system`.
    pub device_type: String,
}

/// An audio device as the contracts see it.
pub struct Device {
    pub id: Seq<char>,
    pub name: Seq<char>,
    pub device_type: Seq<char>,
}

impl View for AudioDevice {
    type V = Device;

    open spec fn view(&self) -> Device {
        Device { id: self.id@, name: self.name@, device_type: self.device_type@ }
    }
}

/// Views of a list of devices, in order.
pub open spec fn devices_view(devices: Seq<AudioDevice>) -> Seq<Device> {
    devices.map_values(|device: AudioDevice| device@)
}

/// The devices that are always offered.
pub open spec fn standard_devices() -> Seq<Device> {
    seq![
        Device { id: "builtin-mic"@, name: "Built-in Microphone"@, device_type: "microphone"@ },
        Device { id: "builtin-output"@, name: "Built-in Output"@, device_type: "speaker"@ },
        Device { id: "system-audio"@, name: "System Audio"@, device_type: "system"@ },
        Device { id: "airpods-pro"@, name: "AirPods Pro"@, device_type: "microphone"@ },
    ]
}

/// Lists audio devices.
#[derive(Debug, Clone, Copy)]
pub struct AudioManager;

impl AudioManager {
    fn device(id: &str, name: &str, device_type: &str) -> (device: AudioDevice)
        ensures
            device@ == (Device { id: id@, name: name@, device_type: device_type@ }),
    {
        AudioDevice { id: id.to_owned(), name: name.to_owned(), device_type: device_type.to_owned() }
    }

    /// The audio devices on offer: the built-in microphone and output, the
    /// system's sound, and a headset.
    pub fn get_available_audio_devices() -> (devices: Vec<AudioDevice>)
        ensures
            devices_view(devices@) == standard_devices(),
    {
        let mut devices = Vec::new();
        devices.push(Self::device("builtin-mic", "Built-in Microphone", "microphone"));
        devices.push(Self::device("builtin-output", "Built-in Output", "speaker"));
        devices.push(Self::device("system-audio", "System Audio", "system"));
        devices.push(Self::device("airpods-pro", "AirPods Pro", "microphone"));
        proof {
            assert(devices_view(devices@) =~= standard_devices());
        }
        devices
    }

    /// Identifier of the microphone to prefer: the built-in one.
    pub fn get_preferred_microphone_device() -> (id: Option<String>)
        ensures
            id matches Some(text) && text@ == "builtin-mic"@,
    {
        Some("builtin-mic".to_owned())
    }
}

} // verus!
