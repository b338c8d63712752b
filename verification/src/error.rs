//! The conditions under which a device yields no temperature.

use vstd::prelude::*;
use vstd::string::*;

verus! {

/// Why a device cannot be reported. Each variant names the device by its
/// signature.
#[derive(Debug)]
pub enum ExporterError {
    UnsupportedDevice(String),
    UnsupportedSMARTAttributeTable(String),
    UnsupportedRootAttribute(String),
}

impl ExporterError {
    /// The signature of the device that the error is about.
    pub open spec fn device(&self) -> Seq<char> {
        match self {
            ExporterError::UnsupportedDevice(device) => device@,
            ExporterError::UnsupportedSMARTAttributeTable(device) => device@,
            ExporterError::UnsupportedRootAttribute(device) => device@,
        }
    }

    /// What follows the device's signature in the error's text.
    pub open spec fn complaint(&self) -> Seq<char> {
        match self {
            ExporterError::UnsupportedDevice(_) => "` is not supported at the moment"@,
            ExporterError::UnsupportedSMARTAttributeTable(_) => "` has an unsupported SMART attributes table"@,
            ExporterError::UnsupportedRootAttribute(_) => "` has an unsupported root temperature attribute"@,
        }
    }

    /// The error's text.
    pub open spec fn description(&self) -> Seq<char> {
        "device `"@ + self.device() + self.complaint()
    }

    /// The error as a line for a person to read.
    pub fn message(&self) -> (text: String)
        ensures
            text@ == self.description(),
    {
        let mut text = String::from_str("device `");
        match self {
            ExporterError::UnsupportedDevice(device) => {
                text.append(device.as_str());
                text.append("` is not supported at the moment");
            },
            ExporterError::UnsupportedSMARTAttributeTable(device) => {
                text.append(device.as_str());
                text.append("` has an unsupported SMART attributes table");
            },
            ExporterError::UnsupportedRootAttribute(device) => {
                text.append(device.as_str());
                text.append("` has an unsupported root temperature attribute");
            },
        }
        text
    }
}

} // verus!
