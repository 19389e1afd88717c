//! The device record and its assembly from a directory snapshot.

use vstd::prelude::*;
use vstd::string::StringExecFns;
use crate::UsbError;
use crate::b_class;
use crate::bus_chan;
use crate::configuration;
use crate::manufacturer;
use crate::text;

verus! {

/// Functional category that a class code belongs to, per the USB-IF
/// class-code registry.
#[derive(Clone, Copy, Debug, PartialEq, Eq, Structural)]
pub enum USBClassUsage {
    Device,
    Interface,
    Both,
    Endpoint,
    String,
    DeviceQualifier,
    Unrecognizable,
}

/// A device's functional class: its usage category and a fixed
/// human-readable label.
#[derive(Debug, PartialEq)]
pub struct USBDeviceClass {
    pub usage: USBClassUsage,
    pub description: String,
}

/// Mathematical model of a device class.
pub struct ClassModel {
    pub usage: USBClassUsage,
    pub description: Seq<char>,
}

impl View for USBDeviceClass {
    type V = ClassModel;

    open spec fn view(&self) -> ClassModel {
        ClassModel { usage: self.usage, description: self.description@ }
    }
}

/// One record per enumerated device directory. Every field is written at
/// most once during assembly and only if its source is present.
#[derive(Debug, PartialEq)]
pub struct USBDevice {
    /// Bus and channel number from the directory's own name; absent for a
    /// `port` placeholder directory.
    pub bus_chan: Option<(u8, u8)>,
    /// Class code pair from the `bDeviceClass` attribute file.
    pub b_class: Option<USBDeviceClass>,
    /// The device's self-reported configuration text, verbatim.
    pub name: Option<String>,
    /// Manufacturer identifier, as a `0x`-prefixed two-digit lower-case
    /// hexadecimal value.
    pub manufacturer: Option<String>,
}

/// Mathematical model of a device record.
pub struct DeviceModel {
    pub bus_chan: Option<(u8, u8)>,
    pub b_class: Option<ClassModel>,
    pub name: Option<Seq<char>>,
    pub manufacturer: Option<Seq<char>>,
}

impl View for USBDevice {
    type V = DeviceModel;

    open spec fn view(&self) -> DeviceModel {
        DeviceModel {
            bus_chan: self.bus_chan,
            b_class: match self.b_class {
                Some(c) => Some(c@),
                None => None,
            },
            name: match self.name {
                Some(n) => Some(n@),
                None => None,
            },
            manufacturer: match self.manufacturer {
                Some(m) => Some(m@),
                None => None,
            },
        }
    }
}

/// One immediate child of a device directory: its file name and the bytes
/// read from it.
#[derive(Debug, PartialEq)]
pub struct ChildFile {
    pub name: String,
    pub data: Vec<u8>,
}

/// Mathematical model of a child file.
pub struct ChildModel {
    pub name: Seq<char>,
    pub data: Seq<u8>,
}

impl View for ChildFile {
    type V = ChildModel;

    open spec fn view(&self) -> ChildModel {
        ChildModel { name: self.name@, data: self.data@ }
    }
}

/// One assembly step: a child file named `configuration`, `bDeviceClass`
/// or `manufacturer` writes its record field; any other child is ignored.
pub open spec fn spec_step(m: DeviceModel, c: ChildModel) -> Result<DeviceModel, UsbError> {
    if c.name == "configuration"@ {
        match configuration::spec_name_field(c.data) {
            Ok(n) => Ok(DeviceModel { name: n, ..m }),
            Err(e) => Err(e),
        }
    } else if c.name == "bDeviceClass"@ {
        match b_class::spec_class_field(c.data) {
            Ok(cl) => Ok(DeviceModel { b_class: Some(cl), ..m }),
            Err(e) => Err(e),
        }
    } else if c.name == "manufacturer"@ {
        match manufacturer::spec_manu_field(c.data) {
            Ok(x) => Ok(DeviceModel { manufacturer: Some(x), ..m }),
            Err(e) => Err(e),
        }
    } else {
        Ok(m)
    }
}

/// All assembly steps over the children, in listing order, stopping at the
/// first fatal condition.
pub open spec fn spec_scan(cs: Seq<ChildModel>, m: DeviceModel) -> Result<DeviceModel, UsbError>
    decreases cs.len(),
{
    if cs.len() == 0 {
        Ok(m)
    } else {
        match spec_step(m, cs[0]) {
            Err(e) => Err(e),
            Ok(m2) => spec_scan(cs.drop_first(), m2),
        }
    }
}

/// The record assembled from a directory snapshot: topology from the
/// directory's own name, one field per recognized child file, and the two
/// mandatory attributes (`bDeviceClass`, `manufacturer`) must have been
/// present.
pub open spec fn spec_parse(name: Seq<char>, children: Seq<ChildModel>) -> Result<
    DeviceModel,
    UsbError,
> {
    match bus_chan::spec_topology(name) {
        Err(e) => Err(e),
        Ok(t) => match spec_scan(
            children,
            DeviceModel { bus_chan: t, b_class: None, name: None, manufacturer: None },
        ) {
            Err(e) => Err(e),
            Ok(m) => if m.b_class is None {
                Err(UsbError::IoError)
            } else if m.manufacturer is None {
                Err(UsbError::IoError)
            } else {
                Ok(m)
            },
        },
    }
}

/// Assemble a device record from a device directory snapshot: the
/// directory's own name and its immediate children with the bytes read
/// from each.
pub fn parse(dir_name: &str, children: &Vec<ChildFile>) -> (r: Result<USBDevice, UsbError>)
    ensures
        (match spec_parse(dir_name@, children@.map_values(|c: ChildFile| c@)) {
            Ok(m) => r matches Ok(d) && d@ == m,
            Err(e) => r == Err::<USBDevice, UsbError>(e),
        }),
{
    let ghost cs = children@.map_values(|c: ChildFile| c@);
    let mut dev = USBDevice { bus_chan: None, b_class: None, name: None, manufacturer: None };
    match bus_chan::write(dir_name, &mut dev) {
        Err(e) => {
            return Err(e);
        },
        Ok(_) => {},
    }
    let ghost m0 = dev@;
    let cfg = String::from_str("configuration");
    let cls = String::from_str("bDeviceClass");
    let man = String::from_str("manufacturer");
    let n = children.len();
    proof {
        assert(cs.skip(0) =~= cs);
    }
    let mut i: usize = 0;
    while i < n
        invariant
            n == children@.len(),
            i <= n,
            cs == children@.map_values(|c: ChildFile| c@),
            cfg@ == "configuration"@,
            cls@ == "bDeviceClass"@,
            man@ == "manufacturer"@,
            bus_chan::spec_topology(dir_name@) matches Ok(t) && m0 == (DeviceModel {
                bus_chan: t,
                b_class: None,
                name: None,
                manufacturer: None,
            }),
            spec_scan(cs, m0) == spec_scan(cs.skip(i as int), dev@),
        decreases n - i,
    {
        let c = &children[i];
        proof {
            assert(cs[i as int] == children@[i as int]@);
            assert(cs.skip(i as int)[0] == cs[i as int]);
            assert(cs.skip(i as int).drop_first() =~= cs.skip(i as int + 1));
        }
        let step = if c.name == cfg {
            configuration::retrieve(c.data.as_slice(), &mut dev)
        } else if c.name == cls {
            b_class::write(c.data.as_slice(), &mut dev)
        } else if c.name == man {
            manufacturer::write(c.data.as_slice(), &mut dev)
        } else {
            Ok(())
        };
        match step {
            Err(e) => {
                proof {
                    assert(cs.skip(i as int).len() > 0);
                    assert(spec_step(dev@, cs.skip(i as int)[0]) == Err::<DeviceModel, UsbError>(
                        e,
                    ));
                    assert(spec_scan(cs.skip(i as int), dev@) == Err::<DeviceModel, UsbError>(e));
                }
                return Err(e);
            },
            Ok(_) => {},
        }
        i = i + 1;
    }
    proof {
        assert(cs.skip(n as int) =~= Seq::<ChildModel>::empty());
    }
    if dev.b_class.is_none() {
        return Err(UsbError::IoError);
    }
    if dev.manufacturer.is_none() {
        return Err(UsbError::IoError);
    }
    Ok(dev)
}

/// The child scan writes only the class, name and manufacturer fields: the
/// topology, set once when the record is created, survives assembly
/// unchanged.
pub proof fn lemma_scan_keeps_topology(cs: Seq<ChildModel>, m: DeviceModel)
    ensures
        spec_scan(cs, m) matches Ok(m2) ==> m2.bus_chan == m.bus_chan,
    decreases cs.len(),
{
    if cs.len() > 0 {
        match spec_step(m, cs[0]) {
            Ok(m2) => lemma_scan_keeps_topology(cs.drop_first(), m2),
            Err(_) => {},
        }
    }
}

/// Assembly is a function of the directory snapshot alone: running it
/// twice against an unchanged name and unchanged child files yields
/// identical outcomes.
pub proof fn lemma_parse_deterministic(
    name: Seq<char>,
    children: Seq<ChildModel>,
    r1: Result<DeviceModel, UsbError>,
    r2: Result<DeviceModel, UsbError>,
)
    requires
        r1 == spec_parse(name, children),
        r2 == spec_parse(name, children),
    ensures
        r1 == r2,
{
}

/// The fixed label of each usage category.
pub open spec fn usage_label(u: USBClassUsage) -> Seq<char> {
    match u {
        USBClassUsage::Device => "Device"@,
        USBClassUsage::Interface => "Interface"@,
        USBClassUsage::Both => "Both"@,
        USBClassUsage::Endpoint => "Endpoint"@,
        USBClassUsage::String => "String"@,
        USBClassUsage::DeviceQualifier => "Device Qualifier"@,
        USBClassUsage::Unrecognizable => "Unrecognizable"@,
    }
}

/// The topology line of the rendering.
pub open spec fn spec_topo_line(m: DeviceModel) -> Seq<char> {
    match m.bus_chan {
        None => "Port (no device attached)\n"@,
        Some(bc) => "Bus "@ + text::dec_of(bc.0) + " Channel "@ + text::dec_of(bc.1) + "\n"@,
    }
}

/// The class line of the rendering; empty when the field is absent.
pub open spec fn spec_class_line(m: DeviceModel) -> Seq<char> {
    match m.b_class {
        None => Seq::<char>::empty(),
        Some(c) => "Class: "@ + usage_label(c.usage) + " - "@ + c.description + "\n"@,
    }
}

/// The name line of the rendering; empty when the field is absent.
pub open spec fn spec_name_line(m: DeviceModel) -> Seq<char> {
    match m.name {
        None => Seq::<char>::empty(),
        Some(nm) => "Name: "@ + nm + "\n"@,
    }
}

/// The manufacturer line of the rendering; empty when the field is absent.
pub open spec fn spec_manu_line(m: DeviceModel) -> Seq<char> {
    match m.manufacturer {
        None => Seq::<char>::empty(),
        Some(x) => "Manufacturer: "@ + x + "\n"@,
    }
}

/// The human-readable rendering of a device record: one line for the
/// topology, then one line per present field.
pub open spec fn spec_print(m: DeviceModel) -> Seq<char> {
    spec_topo_line(m) + spec_class_line(m) + spec_name_line(m) + spec_manu_line(m)
}

fn usage_label_str(u: &USBClassUsage) -> (r: &'static str)
    ensures
        r@ == usage_label(*u),
{
    match u {
        USBClassUsage::Device => "Device",
        USBClassUsage::Interface => "Interface",
        USBClassUsage::Both => "Both",
        USBClassUsage::Endpoint => "Endpoint",
        USBClassUsage::String => "String",
        USBClassUsage::DeviceQualifier => "Device Qualifier",
        USBClassUsage::Unrecognizable => "Unrecognizable",
    }
}

/// Render a device record in human-readable form.
#[verifier::rlimit(30)]
pub fn print(dev: &USBDevice) -> (out: String)
    ensures
        out@ == spec_print(dev@),
{
    let mut out = String::new();
    match dev.bus_chan {
        None => {
            out.append("Port (no device attached)\n");
        },
        Some((b, c)) => {
            out.append("Bus ");
            let bs = text::u8_to_dec(b);
            out.append(bs.as_str());
            out.append(" Channel ");
            let chs = text::u8_to_dec(c);
            out.append(chs.as_str());
            out.append("\n");
        },
    }
    proof {
        assert(out@ =~= spec_topo_line(dev@));
    }
    match &dev.b_class {
        None => {},
        Some(c) => {
            out.append("Class: ");
            out.append(usage_label_str(&c.usage));
            out.append(" - ");
            out.append(c.description.as_str());
            out.append("\n");
        },
    }
    proof {
        assert(out@ =~= spec_topo_line(dev@) + spec_class_line(dev@));
    }
    match &dev.name {
        None => {},
        Some(nm) => {
            out.append("Name: ");
            out.append(nm.as_str());
            out.append("\n");
        },
    }
    proof {
        assert(out@ =~= spec_topo_line(dev@) + spec_class_line(dev@) + spec_name_line(dev@));
    }
    match &dev.manufacturer {
        None => {},
        Some(x) => {
            out.append("Manufacturer: ");
            out.append(x.as_str());
            out.append("\n");
        },
    }
    proof {
        assert(out@ =~= spec_print(dev@));
    }
    out
}

} // verus!
