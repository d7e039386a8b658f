//! The parts of wgpu that the library holds or calls.
use vstd::prelude::*;

verus! {

#[verifier::external_type_specification]
#[verifier::external_body]
pub struct ExAdapter(wgpu::Adapter);

#[verifier::external_type_specification]
#[verifier::external_body]
pub struct ExDevice(wgpu::Device);

#[verifier::external_type_specification]
#[verifier::external_body]
pub struct ExQueue(wgpu::Queue);

#[verifier::external_type_specification]
#[verifier::external_body]
pub struct ExBuffer(wgpu::Buffer);

/// Sizes and offsets of buffer copies must be multiples of this many bytes.
pub const COPY_BUFFER_ALIGNMENT: u64 = 4;

/// The largest buffer a [`GpuDevice`] accepts: the `max_buffer_size` of
/// wgpu's default limits, which is what every `GpuDevice` is requested with.
pub const MAX_BUFFER_SIZE: u64 = 268435456;

/// A logical GPU device with its queue, made together by one request with
/// wgpu's default limits. Buffers made from it are only ever written
/// through its own queue.
pub struct GpuDevice {
    pub(crate) device: wgpu::Device,
    pub(crate) queue: wgpu::Queue,
}

/// Relies on wgpu::Adapter::request_device, which yields a device and the
/// queue that belongs to it, or an error; and on pollster::block_on, which
/// waits for that request. A device keeps the limits it was requested with,
/// here wgpu::Limits::default().
#[verifier::external_body]
fn request_device(adapter: &wgpu::Adapter) -> Option<GpuDevice> {
    let descriptor = wgpu::DeviceDescriptor {
        label: Some("GPU device"),
        required_features: wgpu::Features::empty(),
        required_limits: wgpu::Limits::default(),
    };
    let requested = pollster::block_on(adapter.request_device(&descriptor, None));
    requested.ok().map(|(device, queue)| GpuDevice { device, queue })
}

impl GpuDevice {
    /// Requests a device and its queue from `adapter`; `None` when the
    /// adapter refuses.
    pub fn request(adapter: &wgpu::Adapter) -> Option<GpuDevice> {
        request_device(adapter)
    }

    pub fn device(&self) -> &wgpu::Device {
        &self.device
    }

    pub fn queue(&self) -> &wgpu::Queue {
        &self.queue
    }
}

} // verus!
