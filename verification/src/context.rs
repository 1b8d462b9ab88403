//! Devices: the kind of a device and its index.
use vstd::prelude::*;
use crate::base::{EngineCall, EngineReply, EngineValue, Error, CallView, checked};

verus! {

/// The kinds of device the engine knows.
#[derive(Debug, Copy, Clone, PartialEq, Eq, Structural)]
pub enum DeviceType {
    CPU,
    GPU,
    CPUPinned,
    CPUShared,
}

impl DeviceType {
    /// The engine's integer code of the device kind.
    pub open spec fn spec_code(self) -> i32 {
        match self {
            DeviceType::CPU => 1,
            DeviceType::GPU => 2,
            DeviceType::CPUPinned => 3,
            DeviceType::CPUShared => 5,
        }
    }

    /// The device kind that an engine code stands for, if it stands for one.
    pub open spec fn spec_from_code(code: i32) -> Option<DeviceType> {
        if code == 1 {
            Some(DeviceType::CPU)
        } else if code == 2 {
            Some(DeviceType::GPU)
        } else if code == 3 {
            Some(DeviceType::CPUPinned)
        } else if code == 5 {
            Some(DeviceType::CPUShared)
        } else {
            None
        }
    }

    /// The engine's integer code of this device kind.
    pub fn code(self) -> (code: i32)
        ensures
            code == self.spec_code(),
    {
        match self {
            DeviceType::CPU => 1,
            DeviceType::GPU => 2,
            DeviceType::CPUPinned => 3,
            DeviceType::CPUShared => 5,
        }
    }

    /// Reads an engine code as a device kind. A code that names no known
    /// kind is an error that carries the code.
    pub fn from_code(code: i32) -> (kind: Result<DeviceType, Error>)
        ensures
            kind == match Self::spec_from_code(code) {
                Some(k) => Ok::<DeviceType, Error>(k),
                None => Err(Error::UnknownDeviceType { code }),
            },
    {
        match code {
            1 => Ok(DeviceType::CPU),
            2 => Ok(DeviceType::GPU),
            3 => Ok(DeviceType::CPUPinned),
            5 => Ok(DeviceType::CPUShared),
            _ => Err(Error::UnknownDeviceType { code }),
        }
    }
}

/// Every device kind is read back from its own code.
pub proof fn lemma_code_round_trip(kind: DeviceType)
    ensures
        DeviceType::spec_from_code(kind.spec_code()) == Some(kind),
{
}

/// A code that is read as a device kind is the code of that kind.
pub proof fn lemma_from_code_inverts(code: i32)
    ensures
        DeviceType::spec_from_code(code) matches Some(kind) ==> kind.spec_code() == code,
{
}

/// A device: its kind and its index among the devices of that kind.
#[derive(Debug, Copy, Clone, PartialEq, Eq, Structural)]
pub struct Context {
    device_type: DeviceType,
    device_id: i32,
}

impl Context {
    /// The kind of the device.
    pub closed spec fn spec_device_type(&self) -> DeviceType {
        self.device_type
    }

    /// The index of the device.
    pub closed spec fn spec_device_id(&self) -> i32 {
        self.device_id
    }

    /// The device of the given kind and index.
    pub closed spec fn spec_new(device_type: DeviceType, device_id: i32) -> Context {
        Context { device_type, device_id }
    }

    /// The device of the given kind and index.
    pub fn new(device_type: DeviceType, device_id: i32) -> (context: Context)
        ensures
            context == Self::spec_new(device_type, device_id),
            context.spec_device_type() == device_type,
            context.spec_device_id() == device_id,
    {
        Context { device_type, device_id }
    }

    /// The kind of the device.
    pub fn device_type(&self) -> (kind: DeviceType)
        ensures
            kind == self.spec_device_type(),
    {
        self.device_type
    }

    /// The index of the device.
    pub fn device_id(&self) -> (id: i32)
        ensures
            id == self.spec_device_id(),
    {
        self.device_id
    }
}

/// The device of a kind and an index has that kind and that index.
pub proof fn lemma_spec_new(device_type: DeviceType, device_id: i32)
    ensures
        Context::spec_new(device_type, device_id).spec_device_type() == device_type,
        Context::spec_new(device_type, device_id).spec_device_id() == device_id,
{
}

impl Default for Context {
    /// The first CPU.
    fn default() -> (context: Context)
        ensures
            context.spec_device_type() == DeviceType::CPU,
            context.spec_device_id() == 0,
    {
        Context::new(DeviceType::CPU, 0)
    }
}

/// The GPU of the given index.
pub fn gpu(device_id: i32) -> (context: Context)
    ensures
        context.spec_device_type() == DeviceType::GPU,
        context.spec_device_id() == device_id,
{
    Context::new(DeviceType::GPU, device_id)
}

/// The first CPU.
pub fn cpu() -> (context: Context)
    ensures
        context.spec_device_type() == DeviceType::CPU,
        context.spec_device_id() == 0,
{
    Context::new(DeviceType::CPU, 0)
}

/// The first CPU, with page-locked memory.
pub fn cpu_pinned() -> (context: Context)
    ensures
        context.spec_device_type() == DeviceType::CPUPinned,
        context.spec_device_id() == 0,
{
    Context::new(DeviceType::CPUPinned, 0)
}

/// The device that a reply to [`EngineCall::GetContext`] describes.
pub open spec fn spec_context_of(reply: EngineReply) -> Result<Context, Error> {
    match reply.spec_device() {
        Err(e) => Err(e),
        Ok((code, id)) => match DeviceType::spec_from_code(code) {
            None => Err(Error::UnknownDeviceType { code }),
            Some(kind) => Ok(Context::spec_new(kind, id)),
        },
    }
}

/// Reads the device out of a reply to [`EngineCall::GetContext`].
pub fn context_of(reply: EngineReply) -> (outcome: Result<Context, Error>)
    ensures
        outcome == spec_context_of(reply),
{
    match reply.device() {
        Err(e) => Err(e),
        Ok((code, id)) => match DeviceType::from_code(code) {
            Err(e) => Err(e),
            Ok(kind) => Ok(Context::new(kind, id)),
        },
    }
}

/// The call that counts the GPUs.
pub fn num_gpus_call() -> (call: EngineCall)
    ensures
        call@ == CallView::GetGpuCount,
{
    EngineCall::GetGpuCount
}

/// The number of GPUs that a reply to [`EngineCall::GetGpuCount`] reports.
/// A negative count is no count.
pub open spec fn spec_num_gpus(reply: EngineReply) -> Result<usize, Error> {
    match reply.spec_integer() {
        Err(e) => Err(e),
        Ok(count) => if count < 0 {
            Err(Error::UnexpectedReply)
        } else {
            Ok(count as usize)
        },
    }
}

/// Reads the number of GPUs out of the engine's reply.
pub fn num_gpus(reply: EngineReply) -> (outcome: Result<usize, Error>)
    ensures
        outcome == spec_num_gpus(reply),
{
    match reply.integer() {
        Err(e) => Err(e),
        Ok(count) => if count < 0 {
            Err(Error::UnexpectedReply)
        } else {
            Ok(count as usize)
        },
    }
}

/// The call that asks for free and total memory of the GPU `device_id`.
pub fn gpu_memory_info_call(device_id: i32) -> (call: EngineCall)
    ensures
        call@ == (CallView::GetGpuMemoryInfo { device_id }),
{
    EngineCall::GetGpuMemoryInfo { device_id }
}

/// Reads free and total memory, in this order, out of the engine's reply.
pub fn gpu_memory_info(reply: EngineReply) -> (outcome: Result<(u64, u64), Error>)
    ensures
        outcome == reply.spec_memory(),
{
    reply.memory()
}

} // verus!
