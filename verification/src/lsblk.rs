//! Block devices as the enumeration tool reports them, and the identity that
//! is derived from their vendor strings.

use vstd::prelude::*;
use vstd::string::*;
use crate::text::{lemma_trimmed_is_idempotent, trimmed_option, trimmed_text};

verus! {

/// One storage device of the host, physical or logical.
#[derive(Debug)]
pub struct BlockDevice {
    /// Handle by which the operating system addresses the device.
    pub name: String,
    pub maj_min: String,
    pub rm: bool,
    pub size: String,
    pub ro: bool,
    /// Classification tag; diagnostics are only asked of a `disk`.
    pub block_device_type: String,
    pub model: Option<String>,
    pub serial: Option<String>,
    pub wwn: Option<String>,
    /// Partitions and other nested devices; never traversed.
    pub children: Option<Vec<BlockDevice>>,
}

/// What identifies a block device: the mathematical view of a [`BlockDevice`].
pub struct DeviceIdentity {
    pub name: Seq<char>,
    pub device_type: Seq<char>,
    pub model: Option<Seq<char>>,
    pub serial: Option<Seq<char>>,
    pub wwn: Option<Seq<char>>,
}

/// The characters of an optional string.
pub open spec fn text_of(field: Option<String>) -> Option<Seq<char>> {
    match field {
        Some(s) => Some(s@),
        None => None,
    }
}

impl DeviceIdentity {
    /// The display identity: `model_serial` when both are reported, the model
    /// alone when only it is, the device name in every other case.
    pub open spec fn signature(self) -> Seq<char> {
        match (self.model, self.serial) {
            (Some(model), Some(serial)) => model + "_"@ + serial,
            (Some(model), None) => model,
            _ => self.name,
        }
    }

    /// Whether the device is classified as a physical disk.
    pub open spec fn is_disk(self) -> bool {
        self.device_type == "disk"@
    }

    /// A device always carries a name.
    pub open spec fn well_formed(self) -> bool {
        self.name.len() > 0
    }

    /// The identity with its vendor strings trimmed of surrounding whitespace.
    pub open spec fn normalized(self) -> DeviceIdentity {
        DeviceIdentity {
            name: self.name,
            device_type: self.device_type,
            model: trimmed_option(self.model),
            serial: trimmed_option(self.serial),
            wwn: trimmed_option(self.wwn),
        }
    }
}

impl View for BlockDevice {
    type V = DeviceIdentity;

    open spec fn view(&self) -> DeviceIdentity {
        DeviceIdentity {
            name: self.name@,
            device_type: self.block_device_type@,
            model: text_of(self.model),
            serial: text_of(self.serial),
            wwn: text_of(self.wwn),
        }
    }
}

/// An optional vendor string without the whitespace that surrounds it.
fn trimmed_field(field: &Option<String>) -> (kept: Option<String>)
    ensures
        text_of(kept) == trimmed_option(text_of(*field)),
{
    match field {
        Some(text) => Some(trimmed_text(text.as_str())),
        None => None,
    }
}

/// The signature by cases: model, underscore and serial number where both are
/// reported; the model where only it is; the name where there is no model.
pub proof fn lemma_signature_formula(device: DeviceIdentity)
    ensures
        device.model is Some && device.serial is Some ==> device.signature() == device.model->0 + "_"@
            + device.serial->0,
        device.model is Some && device.serial is None ==> device.signature() == device.model->0,
        device.model is None ==> device.signature() == device.name,
{
}

/// Trimming the vendor strings changes neither the name nor the type of a
/// device, and a second trimming changes nothing.
pub proof fn lemma_normalized_is_stable(device: DeviceIdentity)
    ensures
        device.normalized().name == device.name,
        device.normalized().device_type == device.device_type,
        device.normalized().well_formed() == device.well_formed(),
        device.normalized().normalized() == device.normalized(),
{
    if let Some(model) = device.model {
        lemma_trimmed_is_idempotent(model);
    }
    if let Some(serial) = device.serial {
        lemma_trimmed_is_idempotent(serial);
    }
    if let Some(wwn) = device.wwn {
        lemma_trimmed_is_idempotent(wwn);
    }
}

impl BlockDevice {
    /// Whether this device is `before` with its vendor strings trimmed and
    /// everything else as it was.
    pub open spec fn is_trimmed_form_of(self, before: BlockDevice) -> bool {
        &&& self@ == before@.normalized()
        &&& self.maj_min == before.maj_min
        &&& self.rm == before.rm
        &&& self.size == before.size
        &&& self.ro == before.ro
        &&& self.children == before.children
    }

    /// Trims the model, the serial number and the world wide name of
    /// surrounding whitespace. Nothing else changes.
    pub fn normalize(&mut self)
        ensures
            final(self).is_trimmed_form_of(*old(self)),
    {
        self.model = trimmed_field(&self.model);
        self.serial = trimmed_field(&self.serial);
        self.wwn = trimmed_field(&self.wwn);
    }

    /// The label under which the device is reported.
    pub fn signature(&self) -> (sig: String)
        ensures
            sig@ == self@.signature(),
    {
        match (&self.model, &self.serial) {
            (Some(model), Some(serial)) => {
                let mut sig = model.clone();
                sig.append("_");
                sig.append(serial.as_str());
                sig
            },
            (Some(model), None) => model.clone(),
            _ => self.name.clone(),
        }
    }

    /// Whether the device is classified as a physical disk.
    pub fn is_disk(&self) -> (disk: bool)
        ensures
            disk == self@.is_disk(),
    {
        let disk = String::from_str("disk");
        self.block_device_type == disk
    }
}

/// Trims the vendor strings of every listed device. Nested devices are left
/// as they were reported.
pub fn trim_block_devices(devices: &mut Vec<BlockDevice>)
    ensures
        final(devices).len() == old(devices).len(),
        forall|i: int|
            0 <= i < old(devices).len() ==> (#[trigger] final(devices)[i]).is_trimmed_form_of(old(devices)[i]),
{
    let mut at: usize = 0;
    while at < devices.len()
        invariant
            at <= devices.len(),
            devices.len() == old(devices).len(),
            forall|i: int| 0 <= i < at ==> (#[trigger] devices[i]).is_trimmed_form_of(old(devices)[i]),
            forall|i: int| at <= i < devices.len() ==> (#[trigger] devices[i]) == old(devices)[i],
        decreases devices.len() - at,
    {
        let device = &mut devices[at];
        device.normalize();
        at += 1;
    }
}

} // verus!
