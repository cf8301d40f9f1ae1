//! The inventory formatter: a pure rendering of one catalog snapshot
//! into the human-readable device report.
//!
//! The report lists the host's identity, the default endpoints when
//! the host has them (a missing default is omitted, never an error),
//! and then every device in enumeration order — capture sections
//! before playback sections, and nothing printed for a capability a
//! device does not have. A recorded query failure is reported in
//! place of the configurations it kept from being read. The renderer
//! performs no I/O; writing the text anywhere is the caller's
//! business.

use vstd::prelude::*;
use vstd::string::StringExecFns;
use crate::catalog::{AudioDevices, DeviceInfo};
use crate::config::{SampleFormat, StreamConfig, SupportedConfigRange};
use crate::text::{dec_str, fmt_u64};

verus! {

/// The short name of a sample format.
pub open spec fn format_name(f: SampleFormat) -> Seq<char> {
    match f {
        SampleFormat::I16 => "i16"@,
        SampleFormat::U16 => "u16"@,
        SampleFormat::F32 => "f32"@,
    }
}

/// `rate Hz, channels ch, format` for one configuration.
pub open spec fn config_text(c: StreamConfig) -> Seq<char> {
    dec_str(c.sample_rate as nat) + " Hz, "@ + dec_str(c.channels as nat) + " ch, "@
        + format_name(c.format)
}

/// `min-max Hz, channels ch, format` for one supported range.
pub open spec fn range_text(r: SupportedConfigRange) -> Seq<char> {
    dec_str(r.min_sample_rate as nat) + "-"@ + dec_str(r.max_sample_rate as nat) + " Hz, "@
        + dec_str(r.channels as nat) + " ch, "@ + format_name(r.format)
}

/// The first `upto` numbered range lines of a device's section:
/// `    devno.confno. range`, configurations numbered from one.
pub open spec fn numbered_lines(
    ranges: Seq<SupportedConfigRange>,
    devno: nat,
    upto: int,
) -> Seq<char>
    decreases upto,
{
    if upto <= 0 {
        Seq::empty()
    } else {
        numbered_lines(ranges, devno, upto - 1) + "    "@ + dec_str(devno) + "."@ + dec_str(
            upto as nat,
        ) + ". "@ + range_text(ranges[upto - 1]) + "\n"@
    }
}

/// A device's capture or playback section: the default configuration
/// when there is one, the numbered supported configurations when
/// there are any, and the host's reason when the query failed. A
/// device without the capability contributes nothing.
pub open spec fn direction_section(
    label: Seq<char>,
    default: Option<StreamConfig>,
    configs: Seq<SupportedConfigRange>,
    query_error: Option<String>,
    devno: nat,
) -> Seq<char> {
    (match default {
        Some(c) => "  Default "@ + label + " config: "@ + config_text(c) + "\n"@,
        None => Seq::<char>::empty(),
    }) + (if configs.len() > 0 {
        "  Supported "@ + label + " configs:"@ + "\n"@ + numbered_lines(
            configs,
            devno,
            configs.len() as int,
        )
    } else {
        Seq::<char>::empty()
    }) + (match query_error {
        Some(reason) => "  "@ + label + " config query failed: "@ + reason@ + "\n"@,
        None => Seq::<char>::empty(),
    })
}

/// One device's part of the report: its name, then its capture
/// section, then its playback section.
pub open spec fn device_text(d: DeviceInfo, devno: nat) -> Seq<char> {
    "- "@ + d.name@ + "\n"@ + direction_section(
        "input"@,
        d.default_input,
        d.input_configs@,
        d.input_query_error,
        devno,
    ) + direction_section(
        "output"@,
        d.default_output,
        d.output_configs@,
        d.output_query_error,
        devno,
    )
}

/// The parts of the first `upto` devices, in enumeration order,
/// devices numbered from one.
pub open spec fn devices_text(devices: Seq<DeviceInfo>, upto: int) -> Seq<char>
    decreases upto,
{
    if upto <= 0 {
        Seq::empty()
    } else {
        devices_text(devices, upto - 1) + device_text(devices[upto - 1], upto as nat)
    }
}

/// The default-endpoint line for one direction: the device's name, or
/// nothing at all when the host reports no default — never an error.
pub open spec fn default_line(
    label: Seq<char>,
    devices: Seq<DeviceInfo>,
    index: Option<usize>,
) -> Seq<char> {
    match index {
        Some(i) => "Default "@ + label + " device: "@ + devices[i as int].name@ + "\n"@,
        None => Seq::<char>::empty(),
    }
}

/// The whole report of one snapshot.
pub open spec fn report_text(c: AudioDevices) -> Seq<char> {
    "Host: "@ + c.host_name@ + "\n"@ + default_line("input"@, c.devices@, c.default_input)
        + default_line("output"@, c.devices@, c.default_output) + "Devices:"@ + "\n"@
        + devices_text(c.devices@, c.devices@.len() as int)
}

/// Renders one configuration.
fn render_config(c: &StreamConfig) -> (r: String)
    ensures
        r@ == config_text(*c),
{
    let mut s = fmt_u64(c.sample_rate as u64);
    s.append(" Hz, ");
    let ch = fmt_u64(c.channels as u64);
    s.append(ch.as_str());
    s.append(" ch, ");
    s.append(match c.format {
        SampleFormat::I16 => "i16",
        SampleFormat::U16 => "u16",
        SampleFormat::F32 => "f32",
    });
    s
}

/// Renders one supported range.
fn render_range(r: &SupportedConfigRange) -> (s: String)
    ensures
        s@ == range_text(*r),
{
    let mut s = fmt_u64(r.min_sample_rate as u64);
    s.append("-");
    let mx = fmt_u64(r.max_sample_rate as u64);
    s.append(mx.as_str());
    s.append(" Hz, ");
    let ch = fmt_u64(r.channels as u64);
    s.append(ch.as_str());
    s.append(" ch, ");
    s.append(match r.format {
        SampleFormat::I16 => "i16",
        SampleFormat::U16 => "u16",
        SampleFormat::F32 => "f32",
    });
    s
}

/// Renders one direction section of one device.
fn render_direction_section(
    label: &str,
    default: &Option<StreamConfig>,
    configs: &Vec<SupportedConfigRange>,
    query_error: &Option<String>,
    devno: u64,
) -> (r: String)
    ensures
        r@ == direction_section(label@, *default, configs@, *query_error, devno as nat),
{
    let mut s = String::new();
    if let Some(c) = default {
        s.append("  Default ");
        s.append(label);
        s.append(" config: ");
        let t = render_config(c);
        s.append(t.as_str());
        s.append("\n");
    }
    if configs.len() > 0 {
        s.append("  Supported ");
        s.append(label);
        s.append(" configs:");
        s.append("\n");
        proof {
            assert(s@ =~= direction_section_head(label@, *default, configs@) + numbered_lines(
                configs@,
                devno as nat,
                0,
            ));
        }
        let mut i: usize = 0;
        while i < configs.len()
            invariant
                0 <= i <= configs@.len(),
                s@ == direction_section_head(label@, *default, configs@)
                    + numbered_lines(configs@, devno as nat, i as int),
            decreases configs@.len() - i,
        {
            s.append("    ");
            let dn = fmt_u64(devno);
            s.append(dn.as_str());
            s.append(".");
            proof {
                assert(i + 1 <= u64::MAX);
            }
            let cn = fmt_u64((i as u64) + 1);
            s.append(cn.as_str());
            s.append(". ");
            let rt = render_range(&configs[i]);
            s.append(rt.as_str());
            s.append("\n");
            proof {
                assert(s@ =~= direction_section_head(label@, *default, configs@) + numbered_lines(
                    configs@,
                    devno as nat,
                    i + 1 as int,
                ));
            }
            i = i + 1;
        }
    }
    if let Some(reason) = query_error {
        s.append("  ");
        s.append(label);
        s.append(" config query failed: ");
        s.append(reason.as_str());
        s.append("\n");
    }
    proof {
        assert(s@ =~= direction_section(label@, *default, configs@, *query_error, devno as nat));
    }
    s
}

/// The part of a direction section that precedes its numbered lines.
pub open spec fn direction_section_head(
    label: Seq<char>,
    default: Option<StreamConfig>,
    configs: Seq<SupportedConfigRange>,
) -> Seq<char> {
    (match default {
        Some(c) => "  Default "@ + label + " config: "@ + config_text(c) + "\n"@,
        None => Seq::<char>::empty(),
    }) + "  Supported "@ + label + " configs:"@ + "\n"@
}

/// Renders the whole inventory report of one snapshot.
#[verifier::rlimit(60)]
pub fn render_inventory(catalog: &AudioDevices) -> (r: String)
    requires
        catalog.wf(),
    ensures
        r@ == report_text(*catalog),
{
    let mut s = String::new();
    s.append("Host: ");
    s.append(catalog.host_name.as_str());
    s.append("\n");
    if let Some(i) = catalog.default_input {
        s.append("Default ");
        s.append("input");
        s.append(" device: ");
        s.append(catalog.devices[i].name.as_str());
        s.append("\n");
    }
    if let Some(i) = catalog.default_output {
        s.append("Default ");
        s.append("output");
        s.append(" device: ");
        s.append(catalog.devices[i].name.as_str());
        s.append("\n");
    }
    s.append("Devices:");
    s.append("\n");
    let ghost head = s@;
    let mut i: usize = 0;
    while i < catalog.devices.len()
        invariant
            catalog.wf(),
            0 <= i <= catalog.devices@.len(),
            head == "Host: "@ + catalog.host_name@ + "\n"@ + default_line(
                "input"@,
                catalog.devices@,
                catalog.default_input,
            ) + default_line("output"@, catalog.devices@, catalog.default_output) + "Devices:"@
                + "\n"@,
            s@ == head + devices_text(catalog.devices@, i as int),
        decreases catalog.devices@.len() - i,
    {
        let d = &catalog.devices[i];
        s.append("- ");
        s.append(d.name.as_str());
        s.append("\n");
        proof {
            assert(i + 1 <= u64::MAX);
        }
        let devno: u64 = (i as u64) + 1;
        let input_section = render_direction_section(
            "input",
            &d.default_input,
            &d.input_configs,
            &d.input_query_error,
            devno,
        );
        s.append(input_section.as_str());
        let output_section = render_direction_section(
            "output",
            &d.default_output,
            &d.output_configs,
            &d.output_query_error,
            devno,
        );
        s.append(output_section.as_str());
        proof {
            assert(s@ =~= head + devices_text(catalog.devices@, i + 1 as int));
        }
        i = i + 1;
    }
    proof {
        assert(s@ =~= report_text(*catalog));
    }
    s
}

/// Whether two device snapshots record the same observations: the
/// same name, defaults, configuration sets and query outcomes.
pub open spec fn device_eqv(a: DeviceInfo, b: DeviceInfo) -> bool {
    &&& a.name@ == b.name@
    &&& a.default_input == b.default_input
    &&& a.default_output == b.default_output
    &&& a.input_configs@ == b.input_configs@
    &&& a.output_configs@ == b.output_configs@
    &&& match (a.input_query_error, b.input_query_error) {
        (None, None) => true,
        (Some(x), Some(y)) => x@ == y@,
        _ => false,
    }
    &&& match (a.output_query_error, b.output_query_error) {
        (None, None) => true,
        (Some(x), Some(y)) => x@ == y@,
        _ => false,
    }
}

/// Whether two catalog snapshots record the same topology.
pub open spec fn snapshot_eqv(a: AudioDevices, b: AudioDevices) -> bool {
    &&& a.host_name@ == b.host_name@
    &&& a.default_input == b.default_input
    &&& a.default_output == b.default_output
    &&& a.devices@.len() == b.devices@.len()
    &&& forall|i: int| 0 <= i < a.devices@.len() ==> device_eqv(
        #[trigger] a.devices@[i],
        b.devices@[i],
    )
}

/// Devices recording the same observations render the same part of
/// the report.
proof fn lemma_device_text_eqv(a: DeviceInfo, b: DeviceInfo, devno: nat)
    requires
        device_eqv(a, b),
    ensures
        device_text(a, devno) == device_text(b, devno),
{
    assert(direction_section("input"@, a.default_input, a.input_configs@, a.input_query_error, devno)
        == direction_section("input"@, b.default_input, b.input_configs@, b.input_query_error, devno));
    assert(direction_section("output"@, a.default_output, a.output_configs@, a.output_query_error, devno)
        == direction_section("output"@, b.default_output, b.output_configs@, b.output_query_error, devno));
}

/// Device lists recording the same observations render the same text.
proof fn lemma_devices_text_eqv(da: Seq<DeviceInfo>, db: Seq<DeviceInfo>, upto: int)
    requires
        upto <= da.len(),
        da.len() == db.len(),
        forall|i: int| 0 <= i < da.len() ==> device_eqv(#[trigger] da[i], db[i]),
    ensures
        devices_text(da, upto) == devices_text(db, upto),
    decreases upto,
{
    if upto > 0 {
        lemma_devices_text_eqv(da, db, upto - 1);
        lemma_device_text_eqv(da[upto - 1], db[upto - 1], upto as nat);
    }
}

/// Enumeration is read-only, and rendering observes nothing but the
/// snapshot: two enumerations of an unchanged topology — the same
/// names, defaults, configuration sets and query outcomes — render
/// character-for-character the same report.
pub proof fn lemma_report_idempotent(a: AudioDevices, b: AudioDevices)
    requires
        a.wf(),
        b.wf(),
        snapshot_eqv(a, b),
    ensures
        report_text(a) == report_text(b),
{
    lemma_devices_text_eqv(a.devices@, b.devices@, a.devices@.len() as int);
    match a.default_input {
        Some(i) => {
            assert(device_eqv(a.devices@[i as int], b.devices@[i as int]));
        },
        None => {},
    }
    match a.default_output {
        Some(i) => {
            assert(device_eqv(a.devices@[i as int], b.devices@[i as int]));
        },
        None => {},
    }
}

/// A host with no default endpoint in a direction contributes no
/// default line at all to the report: the section is omitted rather
/// than failing.
pub proof fn lemma_missing_default_omitted(label: Seq<char>, devices: Seq<DeviceInfo>)
    ensures
        default_line(label, devices, None) == Seq::<char>::empty(),
{
}

} // verus!
