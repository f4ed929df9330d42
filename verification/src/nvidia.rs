//! The adapter that binds the snapshot record to the NVIDIA management
//! library: it resolves device index 0 of an initialized library instance
//! and fills a [`GpuStatusData`] from eleven independent read-only queries.

use crate::gpu_status::{GpuStatusData, MemorySample, RawSample, UtilizationSample};
use vstd::prelude::*;

verus! {

#[verifier::external_type_specification]
#[verifier::external_body]
pub struct ExNvml(nvml_wrapper::Nvml);

#[verifier::external_type_specification]
#[verifier::external_body]
pub struct ExDevice<'nvml>(nvml_wrapper::Device<'nvml>);

/// The one construction-time failure: no usable device could be resolved
/// at index 0 of the management-library instance (no device present,
/// driver unusable, or access denied).
#[derive(Clone, Copy, Debug, PartialEq, Eq, Structural)]
pub enum GpuStatusError {
    DeviceResolution,
}

/// A status probe bound to one device of the NVIDIA management library.
/// It is stateless after construction: it only holds the resolved device
/// handle, which borrows the library instance.
pub struct NvidiaGpuStatus<'a> {
    device: nvml_wrapper::Device<'a>,
}

/// Relies on Nvml::device_by_index: resolves the device at the given
/// index, or fails when the driver, the index or the caller's permissions
/// do not allow it.
#[verifier::external_body]
fn device_at_index_zero(instance: &'static nvml_wrapper::Nvml) -> Option<
    nvml_wrapper::Device<'static>,
> {
    instance.device_by_index(0).ok()
}

/// Relies on Device::utilization_rates: reads the combined GPU and memory
/// utilization counters, both in percent.
#[verifier::external_body]
fn read_utilization(device: &nvml_wrapper::Device<'_>) -> Option<UtilizationSample> {
    device.utilization_rates().ok().map(
        |u| UtilizationSample { gpu: u.gpu, memory: u.memory },
    )
}

/// Relies on Device::memory_info: reads the combined memory counters,
/// in bytes.
#[verifier::external_body]
fn read_memory_info(device: &nvml_wrapper::Device<'_>) -> Option<MemorySample> {
    device.memory_info().ok().map(|m| MemorySample { used: m.used, total: m.total })
}

/// Relies on Device::decoder_utilization: reads the decoder utilization,
/// in percent.
#[verifier::external_body]
fn read_decoder_utilization(device: &nvml_wrapper::Device<'_>) -> Option<u32> {
    device.decoder_utilization().ok().map(|u| u.utilization)
}

/// Relies on Device::encoder_utilization: reads the encoder utilization,
/// in percent.
#[verifier::external_body]
fn read_encoder_utilization(device: &nvml_wrapper::Device<'_>) -> Option<u32> {
    device.encoder_utilization().ok().map(|u| u.utilization)
}

/// Relies on Device::temperature: reads the die temperature sensor, in
/// degrees Celsius.
#[verifier::external_body]
fn read_temperature(device: &nvml_wrapper::Device<'_>) -> Option<u32> {
    device.temperature(nvml_wrapper::enum_wrappers::device::TemperatureSensor::Gpu).ok()
}

/// Relies on Device::power_usage: reads the instantaneous power draw, in
/// milliwatts.
#[verifier::external_body]
fn read_power_usage(device: &nvml_wrapper::Device<'_>) -> Option<u32> {
    device.power_usage().ok()
}

/// Relies on Device::performance_state and PerformanceState::as_c: reads
/// the current performance state and hands back its numeric code. The
/// driver's decoded states carry the codes 0 through 15 and the sentinel
/// code 32, so the result holds no other value.
#[verifier::external_body]
fn read_performance_state(device: &nvml_wrapper::Device<'_>) -> (r: Option<u32>)
    ensures
        r is Some ==> r->0 <= 15 || r->0 == 32,
{
    device.performance_state().ok().map(|p| p.as_c())
}

/// Relies on Device::fan_speed: reads the intended speed of the fan at
/// the given index, in percent of its maximum.
#[verifier::external_body]
fn read_fan_speed(device: &nvml_wrapper::Device<'_>, fan_idx: u32) -> Option<u32> {
    device.fan_speed(fan_idx).ok()
}

/// Relies on Device::pcie_throughput: reads the PCIe throughput counter
/// for one direction, in kilobytes per second.
#[verifier::external_body]
fn read_pcie_throughput(device: &nvml_wrapper::Device<'_>, send: bool) -> Option<u32> {
    let counter = if send {
        nvml_wrapper::enum_wrappers::device::PcieUtilCounter::Send
    } else {
        nvml_wrapper::enum_wrappers::device::PcieUtilCounter::Receive
    };
    device.pcie_throughput(counter).ok()
}

impl NvidiaGpuStatus<'_> {
    /// Bind a probe to device index 0 of an initialized management-library
    /// instance. Fails with [`GpuStatusError::DeviceResolution`] when no
    /// device can be resolved there; on success the probe holds the
    /// resolved device handle and nothing else.
    pub fn new(instance: &'static nvml_wrapper::Nvml) -> (r: Result<Self, GpuStatusError>)
        ensures
            r is Err ==> r->Err_0 == GpuStatusError::DeviceResolution,
    {
        match device_at_index_zero(instance) {
            Some(device) => Ok(NvidiaGpuStatus { device }),
            None => Err(GpuStatusError::DeviceResolution),
        }
    }

    /// Take one normalized snapshot of the bound device.
    ///
    /// The eleven queries are issued independently and each failure only
    /// leaves its own field (or, for a combined query, its two fields)
    /// absent, so the call as a whole always succeeds and the snapshot it
    /// returns is internally consistent.
    pub fn compute(&self) -> (r: Result<GpuStatusData, GpuStatusError>)
        ensures
            r is Ok,
            r->Ok_0.consistent(),
    {
        let device = &self.device;
        let raw = RawSample {
            utilization: read_utilization(device),
            memory: read_memory_info(device),
            dec_util: read_decoder_utilization(device),
            enc_util: read_encoder_utilization(device),
            temp: read_temperature(device),
            power: read_power_usage(device),
            p_state: read_performance_state(device),
            fan_speed: read_fan_speed(device, 0),
            tx: read_pcie_throughput(device, true),
            rx: read_pcie_throughput(device, false),
        };
        Ok(GpuStatusData::from_raw(&raw))
    }
}

} // verus!
