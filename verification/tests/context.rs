use mxnet_rs::base::{EngineCall, EngineReply, EngineValue, Error};
use mxnet_rs::context::{
    cpu, cpu_pinned, gpu, gpu_memory_info, gpu_memory_info_call, num_gpus, num_gpus_call, Context,
    DeviceType,
};

#[test]
fn lib_it_works() {
    assert_eq!(2 + 2, 4);
}

#[test]
fn context_constructors() {
    assert_eq!(cpu().device_type(), DeviceType::CPU);
    assert_eq!(cpu().device_id(), 0);
    assert_eq!(gpu(3).device_type(), DeviceType::GPU);
    assert_eq!(gpu(3).device_id(), 3);
    assert_eq!(cpu_pinned().device_type(), DeviceType::CPUPinned);
    assert_eq!(Context::default().device_type(), DeviceType::CPU);
    assert_eq!(Context::new(DeviceType::CPUShared, 7).device_id(), 7);
}

#[test]
fn device_codes() {
    assert_eq!(DeviceType::CPU.code(), 1);
    assert_eq!(DeviceType::GPU.code(), 2);
    assert_eq!(DeviceType::CPUPinned.code(), 3);
    assert_eq!(DeviceType::CPUShared.code(), 5);
    assert_eq!(DeviceType::from_code(1), Ok(DeviceType::CPU));
    assert_eq!(DeviceType::from_code(2), Ok(DeviceType::GPU));
    assert_eq!(DeviceType::from_code(3), Ok(DeviceType::CPUPinned));
    assert_eq!(DeviceType::from_code(5), Ok(DeviceType::CPUShared));
    assert_eq!(DeviceType::from_code(4), Err(Error::UnknownDeviceType { code: 4 }));
    assert_eq!(DeviceType::from_code(0), Err(Error::UnknownDeviceType { code: 0 }));
    assert_eq!(DeviceType::from_code(-1), Err(Error::UnknownDeviceType { code: -1 }));
}

#[test]
fn gpu_queries() {
    assert_eq!(num_gpus_call(), EngineCall::GetGpuCount);
    assert_eq!(gpu_memory_info_call(1), EngineCall::GetGpuMemoryInfo { device_id: 1 });
    assert_eq!(num_gpus(EngineReply::success(EngineValue::Int(4))), Ok(4));
    assert_eq!(num_gpus(EngineReply::success(EngineValue::Int(0))), Ok(0));
    assert_eq!(num_gpus(EngineReply::success(EngineValue::Int(-1))), Err(Error::UnexpectedReply));
    assert_eq!(
        num_gpus(EngineReply::failure(-1, "no driver".to_string())),
        Err(Error::Engine { message: "no driver".to_string() })
    );
    assert_eq!(
        gpu_memory_info(EngineReply::success(EngineValue::Memory { free: 3, total: 8 })),
        Ok((3, 8))
    );
    assert_eq!(
        gpu_memory_info(EngineReply::success(EngineValue::Int(3))),
        Err(Error::UnexpectedReply)
    );
}
