//! The device catalog: plain snapshots of what the host audio
//! subsystem reports, and the queries the rest of the library makes
//! against one snapshot.
//!
//! A snapshot is valid only for the lifetime of one enumeration call;
//! re-querying the host produces a fresh one. Devices carry no identity
//! beyond their name, so lookups resolve ties deterministically to the
//! first match in enumeration order.

use vstd::prelude::*;
use crate::config::{StreamConfig, SupportedConfigRange, ranges_wf};
use crate::errors::AudioError;
use crate::text::str_eq;

verus! {

/// A direction a device may support.
#[derive(Clone, Copy, Debug, PartialEq, Eq, Structural)]
pub enum Direction {
    /// Capture: audio flows from the device into the process.
    Input,
    /// Playback: audio flows from the process to the device.
    Output,
}

/// Read-only snapshot of one enumerated device.
#[derive(Clone, Debug)]
pub struct DeviceInfo {
    /// The device's name, as the host reports it.
    pub name: String,
    /// Default capture configuration, when the device has one.
    pub default_input: Option<StreamConfig>,
    /// Default playback configuration, when the device has one.
    pub default_output: Option<StreamConfig>,
    /// Supported capture configurations.
    pub input_configs: Vec<SupportedConfigRange>,
    /// Supported playback configurations.
    pub output_configs: Vec<SupportedConfigRange>,
    /// The host's reason when the capture-configuration query failed.
    pub input_query_error: Option<String>,
    /// The host's reason when the playback-configuration query failed.
    pub output_query_error: Option<String>,
}

impl DeviceInfo {
    /// A snapshot is well formed when every recorded configuration is,
    /// and a failed query left no configurations behind.
    pub open spec fn wf(self) -> bool {
        &&& ranges_wf(self.input_configs@)
        &&& ranges_wf(self.output_configs@)
        &&& (self.default_input matches Some(c) ==> c.wf())
        &&& (self.default_output matches Some(c) ==> c.wf())
        &&& (self.input_query_error is Some ==> self.input_configs@.len() == 0)
        &&& (self.output_query_error is Some ==> self.output_configs@.len() == 0)
    }

    /// The supported configurations recorded for `dir`.
    pub open spec fn spec_configs(self, dir: Direction) -> Seq<SupportedConfigRange> {
        match dir {
            Direction::Input => self.input_configs@,
            Direction::Output => self.output_configs@,
        }
    }

    /// The default configuration recorded for `dir`.
    pub open spec fn spec_default(self, dir: Direction) -> Option<StreamConfig> {
        match dir {
            Direction::Input => self.default_input,
            Direction::Output => self.default_output,
        }
    }

    /// The query failure recorded for `dir`.
    pub open spec fn spec_query_error(self, dir: Direction) -> Option<String> {
        match dir {
            Direction::Input => self.input_query_error,
            Direction::Output => self.output_query_error,
        }
    }

    /// Whether the snapshot shows the device capable of `dir`: it
    /// reports a default or at least one supported configuration in
    /// that direction.
    pub open spec fn spec_capable(self, dir: Direction) -> bool {
        self.spec_default(dir) is Some || self.spec_configs(dir).len() > 0
    }

    /// Decides direction capability from the snapshot.
    pub fn capable(&self, dir: Direction) -> (r: bool)
        ensures
            r == self.spec_capable(dir),
    {
        match dir {
            Direction::Input => self.default_input.is_some() || self.input_configs.len() > 0,
            Direction::Output => self.default_output.is_some() || self.output_configs.len() > 0,
        }
    }

    /// The supported configurations of this device for `dir`.
    ///
    /// A recorded host query failure surfaces as `DeviceQueryFailed`
    /// with the host's reason; a device without the capability fails
    /// with `UnsupportedDirection`.
    pub fn supported_configs(&self, dir: Direction) -> (r: Result<Vec<SupportedConfigRange>, AudioError>)
        ensures
            match r {
                Ok(configs) => {
                    &&& self.spec_query_error(dir) is None
                    &&& self.spec_capable(dir)
                    &&& configs@ == self.spec_configs(dir)
                },
                Err(e) => match e {
                    AudioError::DeviceQueryFailed(reason) => {
                        &&& self.spec_query_error(dir) matches Some(r0) && reason@ == r0@
                    },
                    AudioError::UnsupportedDirection => {
                        &&& self.spec_query_error(dir) is None
                        &&& !self.spec_capable(dir)
                    },
                    _ => false,
                },
            },
    {
        let query_error = match dir {
            Direction::Input => &self.input_query_error,
            Direction::Output => &self.output_query_error,
        };
        if let Some(reason) = query_error {
            return Err(AudioError::DeviceQueryFailed(reason.clone()));
        }
        if !self.capable(dir) {
            return Err(AudioError::UnsupportedDirection);
        }
        let configs = match dir {
            Direction::Input => &self.input_configs,
            Direction::Output => &self.output_configs,
        };
        let mut out: Vec<SupportedConfigRange> = Vec::new();
        let mut i: usize = 0;
        while i < configs.len()
            invariant
                0 <= i <= configs.len(),
                out@ == configs@.take(i as int),
            decreases configs.len() - i,
        {
            out.push(configs[i]);
            proof {
                assert(out@ =~= configs@.take(i + 1 as int));
            }
            i = i + 1;
        }
        proof {
            assert(out@ =~= configs@);
        }
        Ok(out)
    }
}

/// All device snapshots in `devices` are well formed.
pub open spec fn devices_wf(devices: Seq<DeviceInfo>) -> bool {
    forall|i: int| 0 <= i < devices.len() ==> devices[i].wf()
}

/// The first index in `devices` whose device is named `name`, if any.
pub open spec fn first_index_named(devices: Seq<DeviceInfo>, name: Seq<char>) -> Option<int>
    decreases devices.len(),
{
    if devices.len() == 0 {
        None
    } else if devices[0].name@ == name {
        Some(0int)
    } else {
        match first_index_named(devices.skip(1), name) {
            Some(i) => Some(i + 1),
            None => None,
        }
    }
}

/// Whether `devices[i]` is the first device matching `name` in
/// direction `dir`: exact name, and the snapshot shows the capability.
pub open spec fn is_first_match(devices: Seq<DeviceInfo>, name: Seq<char>, dir: Direction, i: int) -> bool {
    &&& 0 <= i < devices.len()
    &&& devices[i].name@ == name
    &&& devices[i].spec_capable(dir)
    &&& forall|j: int| 0 <= j < i ==> !(devices[j].name@ == name && devices[j].spec_capable(dir))
}

/// Snapshot of one host enumeration: the host's identity, its devices
/// in enumeration order, and which of them the host reported as the
/// default endpoints.
#[derive(Clone, Debug)]
pub struct AudioDevices {
    /// Identity of the host audio backend.
    pub host_name: String,
    /// The enumerated devices, in enumeration order.
    pub devices: Vec<DeviceInfo>,
    /// Index of the default input device, when the host has one.
    pub default_input: Option<usize>,
    /// Index of the default output device, when the host has one.
    pub default_output: Option<usize>,
}

impl AudioDevices {
    /// A catalog is well formed when its devices are and its default
    /// indices point into the device list.
    pub open spec fn wf(self) -> bool {
        &&& devices_wf(self.devices@)
        &&& (self.default_input matches Some(i) ==> i < self.devices@.len())
        &&& (self.default_output matches Some(i) ==> i < self.devices@.len())
    }

    /// Builds a catalog snapshot from enumerated devices and the names
    /// of the host's default endpoints, resolving each name to the
    /// first device carrying it (names carry no further identity).
    pub fn new(
        host_name: String,
        devices: Vec<DeviceInfo>,
        default_input_name: Option<&str>,
        default_output_name: Option<&str>,
    ) -> (r: AudioDevices)
        requires
            devices_wf(devices@),
        ensures
            r.wf(),
            r.host_name@ == host_name@,
            r.devices@ == devices@,
            match default_input_name {
                Some(n) => match first_index_named(devices@, n@) {
                    Some(i) => r.default_input == Some(i as usize),
                    None => r.default_input is None,
                },
                None => r.default_input is None,
            },
            match default_output_name {
                Some(n) => match first_index_named(devices@, n@) {
                    Some(i) => r.default_output == Some(i as usize),
                    None => r.default_output is None,
                },
                None => r.default_output is None,
            },
    {
        let default_input = match default_input_name {
            Some(n) => find_index_named(&devices, n),
            None => None,
        };
        let default_output = match default_output_name {
            Some(n) => find_index_named(&devices, n),
            None => None,
        };
        AudioDevices { host_name, devices, default_input, default_output }
    }

    /// The host's identity.
    pub fn host_id(&self) -> (r: &String)
        ensures
            r@ == self.host_name@,
    {
        &self.host_name
    }

    /// The devices of this snapshot, in enumeration order.
    pub fn devices(&self) -> (r: &Vec<DeviceInfo>)
        ensures
            r == &self.devices,
    {
        &self.devices
    }

    /// The host's default input device. Fails with `NoDeviceAvailable`
    /// when the host reports none.
    pub fn default_input_device(&self) -> (r: Result<&DeviceInfo, AudioError>)
        requires
            self.wf(),
        ensures
            match r {
                Ok(d) => self.default_input matches Some(i) && d == self.devices@[i as int],
                Err(e) => e == AudioError::NoDeviceAvailable && self.default_input is None,
            },
    {
        match self.default_input {
            Some(i) => Ok(&self.devices[i]),
            None => Err(AudioError::NoDeviceAvailable),
        }
    }

    /// The host's default output device. Fails with `NoDeviceAvailable`
    /// when the host reports none.
    pub fn default_output_device(&self) -> (r: Result<&DeviceInfo, AudioError>)
        requires
            self.wf(),
        ensures
            match r {
                Ok(d) => self.default_output matches Some(i) && d == self.devices@[i as int],
                Err(e) => e == AudioError::NoDeviceAvailable && self.default_output is None,
            },
    {
        match self.default_output {
            Some(i) => Ok(&self.devices[i]),
            None => Err(AudioError::NoDeviceAvailable),
        }
    }

    /// Finds the device named `name` that supports `dir`, resolving
    /// ties to the first match in enumeration order. Fails with
    /// `DeviceNotFound` when no device matches.
    pub fn find_device(&self, name: &str, dir: Direction) -> (r: Result<usize, AudioError>)
        ensures
            match r {
                Ok(i) => is_first_match(self.devices@, name@, dir, i as int),
                Err(e) => {
                    &&& e == AudioError::DeviceNotFound
                    &&& forall|j: int| 0 <= j < self.devices@.len()
                        ==> !(self.devices@[j].name@ == name@ && self.devices@[j].spec_capable(dir))
                },
            },
    {
        let mut i: usize = 0;
        while i < self.devices.len()
            invariant
                0 <= i <= self.devices@.len(),
                forall|j: int| 0 <= j < i
                    ==> !(self.devices@[j].name@ == name@ && self.devices@[j].spec_capable(dir)),
            decreases self.devices@.len() - i,
        {
            let d = &self.devices[i];
            if str_eq(d.name.as_str(), name) && d.capable(dir) {
                return Ok(i);
            }
            i = i + 1;
        }
        Err(AudioError::DeviceNotFound)
    }
}

/// The first index in `devices` whose name equals `name`, scanned in
/// enumeration order.
fn find_index_named(devices: &Vec<DeviceInfo>, name: &str) -> (r: Option<usize>)
    ensures
        match first_index_named(devices@, name@) {
            Some(i) => r == Some(i as usize),
            None => r is None,
        },
        r matches Some(i) ==> i < devices@.len() && devices@[i as int].name@ == name@,
{
    let mut i: usize = 0;
    while i < devices.len()
        invariant
            0 <= i <= devices@.len(),
            forall|j: int| 0 <= j < i ==> devices@[j].name@ != name@,
        decreases devices@.len() - i,
    {
        if str_eq(devices[i].name.as_str(), name) {
            proof {
                lemma_first_index_named_found(devices@, name@, i as int);
            }
            return Some(i);
        }
        i = i + 1;
    }
    proof {
        lemma_first_index_named_missing(devices@, name@);
    }
    None
}

/// When `i` is the first index named `name`, the recursive search
/// returns exactly `i`.
proof fn lemma_first_index_named_found(devices: Seq<DeviceInfo>, name: Seq<char>, i: int)
    requires
        0 <= i < devices.len(),
        devices[i].name@ == name,
        forall|j: int| 0 <= j < i ==> devices[j].name@ != name,
    ensures
        first_index_named(devices, name) == Some(i),
    decreases devices.len(),
{
    if i == 0 {
    } else {
        assert(devices[0].name@ != name);
        lemma_first_index_named_found(devices.skip(1), name, i - 1);
    }
}

/// When no index is named `name`, the recursive search returns `None`.
proof fn lemma_first_index_named_missing(devices: Seq<DeviceInfo>, name: Seq<char>)
    requires
        forall|j: int| 0 <= j < devices.len() ==> devices[j].name@ != name,
    ensures
        first_index_named(devices, name) is None,
    decreases devices.len(),
{
    if devices.len() > 0 {
        lemma_first_index_named_missing(devices.skip(1), name);
    }
}

} // verus!
