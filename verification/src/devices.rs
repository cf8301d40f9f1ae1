//! Free-standing device queries over one catalog snapshot.

use vstd::prelude::*;
use vstd::string::StringExecFns;
use crate::catalog::{AudioDevices, Direction, DeviceInfo};
use crate::errors::AudioError;

verus! {

/// The host's default input device of the snapshot. Fails with
/// `NoDeviceAvailable` when the host reports none.
pub fn default_input_device(catalog: &AudioDevices) -> (r: Result<&DeviceInfo, AudioError>)
    requires
        catalog.wf(),
    ensures
        match r {
            Ok(d) => catalog.default_input matches Some(i) && d == catalog.devices@[i as int],
            Err(e) => e == AudioError::NoDeviceAvailable && catalog.default_input is None,
        },
{
    catalog.default_input_device()
}

/// One line per device of `devices` capable of `dir`, in enumeration
/// order: the device's name followed by a line break.
pub open spec fn names_text(devices: Seq<DeviceInfo>, dir: Direction) -> Seq<char>
    decreases devices.len(),
{
    if devices.len() == 0 {
        Seq::empty()
    } else {
        names_text(devices.drop_last(), dir) + (if devices.last().spec_capable(dir) {
            devices.last().name@ + "\n"@
        } else {
            Seq::<char>::empty()
        })
    }
}

/// Lists the names of the devices of the snapshot capable of `dir`,
/// one per line, in enumeration order.
pub fn device_names_in(catalog: &AudioDevices, dir: Direction) -> (r: String)
    ensures
        r@ == names_text(catalog.devices@, dir),
{
    let mut out = String::new();
    let mut i: usize = 0;
    while i < catalog.devices.len()
        invariant
            0 <= i <= catalog.devices@.len(),
            out@ == names_text(catalog.devices@.take(i as int), dir),
        decreases catalog.devices@.len() - i,
    {
        let d = &catalog.devices[i];
        if d.capable(dir) {
            out.append(d.name.as_str());
            out.append("\n");
        }
        proof {
            let taken = catalog.devices@.take(i + 1 as int);
            assert(taken.drop_last() =~= catalog.devices@.take(i as int));
            assert(taken.last() == catalog.devices@[i as int]);
            assert(out@ =~= names_text(taken, dir));
        }
        i = i + 1;
    }
    proof {
        assert(catalog.devices@.take(catalog.devices@.len() as int) =~= catalog.devices@);
    }
    out
}

/// Lists the names of the capture-capable devices, one per line.
pub fn get_input_devices(catalog: &AudioDevices) -> (r: String)
    ensures
        r@ == names_text(catalog.devices@, Direction::Input),
{
    device_names_in(catalog, Direction::Input)
}

/// Lists the names of the playback-capable devices, one per line.
pub fn get_output_devices(catalog: &AudioDevices) -> (r: String)
    ensures
        r@ == names_text(catalog.devices@, Direction::Output),
{
    device_names_in(catalog, Direction::Output)
}

} // verus!
