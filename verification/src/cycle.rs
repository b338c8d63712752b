//! One reporting cycle: what a device's diagnostic output amounts to, the
//! samples collected so far, and their exposition.

use vstd::prelude::*;
use crate::error::ExporterError;
use crate::json::{parse, parsed};
use crate::lsblk::BlockDevice;
use crate::metrics::{append_instance, gauge_header, instance_line, metric_name, new_gauge, render, rendering};
use crate::rule_engine::{extraction, process_rules};

verus! {

/// Why a device contributes no sample to a cycle.
#[derive(Debug)]
pub enum DeviceFailure {
    /// The diagnostic output is not a JSON document.
    MalformedDocument(serde_json::Error),
    /// No rule finds a temperature in the document.
    Unsupported(ExporterError),
}

/// One temperature reading, labelled with the signature of its device.
#[derive(Debug)]
pub struct Sample {
    pub device: String,
    pub temperature: i64,
}

/// The mathematical view of a [`Sample`].
pub struct Reading {
    pub device: Seq<char>,
    pub temperature: int,
}

impl View for Sample {
    type V = Reading;

    open spec fn view(&self) -> Reading {
        Reading { device: self.device@, temperature: self.temperature as int }
    }
}

/// The samples that a cycle has collected, in the order of their devices.
#[derive(Debug)]
pub struct Report {
    pub samples: Vec<Sample>,
}

impl View for Report {
    type V = Seq<Reading>;

    open spec fn view(&self) -> Seq<Reading> {
        Seq::new(self.samples@.len(), |i: int| self.samples@[i]@)
    }
}

/// The name of the exported gauge.
pub open spec fn gauge_name() -> Seq<char> {
    "smartctl_device_temperature"@
}

/// The help text of the exported gauge.
pub open spec fn gauge_help() -> Seq<char> {
    "device temperature as reported by smartctl"@
}

/// The line that reports one reading.
pub open spec fn sample_line(reading: Reading) -> Seq<char> {
    instance_line(gauge_name(), "device"@, reading.device, reading.temperature)
}

/// The exposition of a cycle: the gauge's header, then one line for each
/// reading, in order.
pub open spec fn exposition(readings: Seq<Reading>) -> Seq<char>
    decreases readings.len(),
{
    if readings.len() == 0 {
        gauge_header(gauge_name(), gauge_help())
    } else {
        exposition(readings.drop_last()) + sample_line(readings.last())
    }
}

/// What the engine's result means for a device: the temperature, or the
/// finding that the device is not supported, named by its signature.
pub fn supported(block_device: &BlockDevice, temperature: Option<i64>) -> (outcome: Result<i64, ExporterError>)
    ensures
        match temperature {
            Some(degrees) => outcome == Ok::<i64, ExporterError>(degrees),
            None => {
                &&& outcome matches Err(ExporterError::UnsupportedDevice(device))
                &&& device@ == block_device@.signature()
            },
        },
{
    match temperature {
        Some(degrees) => Ok(degrees),
        None => Err(ExporterError::UnsupportedDevice(block_device.signature())),
    }
}

/// Turns the diagnostic output of one device into its temperature. Output
/// that is no JSON document and a document in which no rule finds a
/// temperature are failures of this device alone.
pub fn process_device(block_device: &BlockDevice, output: &str) -> (outcome: Result<i64, DeviceFailure>)
    ensures
        match parsed(output@) {
            Some(doc) => match extraction(doc) {
                Some(degrees) => outcome == Ok::<i64, DeviceFailure>(degrees),
                None => {
                    &&& outcome matches Err(DeviceFailure::Unsupported(ExporterError::UnsupportedDevice(device)))
                    &&& device@ == block_device@.signature()
                },
            },
            None => outcome matches Err(DeviceFailure::MalformedDocument(_)),
        },
{
    match parse(output) {
        Ok(json) => match supported(block_device, process_rules(block_device, &json)) {
            Ok(degrees) => Ok(degrees),
            Err(error) => Err(DeviceFailure::Unsupported(error)),
        },
        Err(error) => Err(DeviceFailure::MalformedDocument(error)),
    }
}

impl Report {
    /// A cycle that has collected nothing yet.
    pub fn new() -> (report: Report)
        ensures
            report@ == Seq::<Reading>::empty(),
    {
        Report { samples: Vec::new() }
    }

    /// Takes in the outcome of one device. A temperature becomes a sample
    /// under the device's signature, after those already collected. A failure
    /// changes nothing and is handed back for the caller to log.
    pub fn record<E>(&mut self, block_device: &BlockDevice, outcome: Result<i64, E>) -> (skipped: Option<E>)
        ensures
            match outcome {
                Ok(degrees) => {
                    &&& skipped is None
                    &&& final(self)@ == old(self)@.push(
                        Reading { device: block_device@.signature(), temperature: degrees as int },
                    )
                },
                Err(failure) => {
                    &&& skipped == Some(failure)
                    &&& final(self)@ == old(self)@
                },
            },
    {
        match outcome {
            Ok(degrees) => {
                self.samples.push(Sample { device: block_device.signature(), temperature: degrees });
                None
            },
            Err(failure) => Some(failure),
        }
    }

    /// The text that answers a scrape: the gauge's header and one line for
    /// each sample collected.
    pub fn render(&self) -> (text: String)
        ensures
            text@ == exposition(self@),
    {
        let mut metric = new_gauge("smartctl_device_temperature", "device temperature as reported by smartctl");
        let mut at: usize = 0;
        while at < self.samples.len()
            invariant
                at <= self.samples.len(),
                metric_name(metric) == gauge_name(),
                rendering(metric) == exposition(self@.subrange(0, at as int)),
            decreases self.samples.len() - at,
        {
            let sample = &self.samples[at];
            append_instance(&mut metric, "device", sample.device.as_str(), sample.temperature);
            proof {
                let longer = self@.subrange(0, at as int + 1);
                assert(longer.drop_last() =~= self@.subrange(0, at as int));
                assert(longer.last() == sample@);
            }
            at += 1;
        }
        proof {
            assert(self@.subrange(0, at as int) =~= self@);
        }
        render(&metric)
    }
}

} // verus!
