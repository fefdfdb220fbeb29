use zkraken_lib::codec::DeviceStatus;
use zkraken_lib::errors::DeviceError;
use zkraken_lib::session::NZXTDevice;
use zkraken_lib::transport::{RecordedOp, ScriptedHandle};

fn status_response() -> Vec<u8> {
    let mut response = vec![
        117u8, 1, 57, 0, 42, 0, 24, 81, 57, 48, 51, 54, 50, 56, 1, 30, 9, 58, 9, 80, 80, 1, 2,
        193, 6, 80, 80,
    ];
    response.resize(64, 0);
    response
}

fn interrupt_writes(ops: &[RecordedOp]) -> Vec<&Vec<u8>> {
    ops.iter()
        .filter_map(|op| match op {
            RecordedOp::WriteInterrupt(_, data) => Some(data),
            _ => None,
        })
        .collect()
}

fn bulk_writes(ops: &[RecordedOp]) -> Vec<&Vec<u8>> {
    ops.iter()
        .filter_map(|op| match op {
            RecordedOp::WriteBulk(_, data) => Some(data),
            _ => None,
        })
        .collect()
}

#[test]
fn test_new_device_success() {
    let handle = ScriptedHandle::new();

    let device = NZXTDevice::new(handle, 90);
    assert!(device.is_ok());
}

#[test]
fn test_new_device_fail() {
    let mut handle = ScriptedHandle::new();
    handle.fail_read = true;

    let device = NZXTDevice::new(handle, 90);
    assert!(device.is_err());
}

#[test]
fn test_new_device_claim_failure_is_lifecycle() {
    let mut handle = ScriptedHandle::new();
    handle.fail_claim = true;

    let device = NZXTDevice::new(handle, 90);
    assert!(matches!(device, Err(DeviceError::Lifecycle)));
}

#[test]
fn test_new_device_claims_interfaces_in_order() {
    let handle = ScriptedHandle::new();
    let device = NZXTDevice::new(handle, 90).unwrap();
    let ops = &device.handle().ops;
    assert_eq!(ops.len(), 4);
    assert!(matches!(ops[0], RecordedOp::AutoDetachKernelDriver(true)));
    assert!(matches!(ops[1], RecordedOp::ClaimInterface(0)));
    assert!(matches!(ops[2], RecordedOp::ClaimInterface(1)));
    assert!(matches!(ops[3], RecordedOp::ReadInterrupt(0x81)));
}

#[test]
fn test_get_status() {
    let mut handle = ScriptedHandle::new();
    handle.read_response = status_response();

    let device = NZXTDevice::new(handle, 90);
    assert!(device.is_ok());

    let mut device = device.unwrap();
    let status = device.get_status();
    assert!(status.is_ok());

    let status = status.unwrap();
    assert_eq!(status.temp, 30);
    assert_eq!(status.pump_duty, 80);
    assert_eq!(status.pump_rpm, 2362);
    assert_eq!(status.fan_duty, 80);
    assert_eq!(status.fan_rpm, 1729);
    assert_eq!(
        status,
        DeviceStatus { temp: 30, pump_rpm: 2362, pump_duty: 80, fan_rpm: 1729, fan_duty: 80 }
    );
}

#[test]
fn test_get_firmware_version() {
    let mut handle = ScriptedHandle::new();
    let mut response = vec![0u8; 64];
    response[17] = 5;
    response[18] = 7;
    response[19] = 0;
    handle.read_response = response;

    let mut device = NZXTDevice::new(handle, 90).unwrap();
    let version = device.get_firmware_version().unwrap();
    assert_eq!(version, "version 5.7.0");
}

#[test]
fn test_set_brightness() {
    let handle = ScriptedHandle::new();
    let mut device = NZXTDevice::new(handle, 90).unwrap();

    let result = device.set_brightness(100);
    assert!(result.is_ok());

    let result = device.set_brightness(0);
    assert!(result.is_ok());

    let result = device.set_brightness(101);
    assert!(result.is_err());

    assert_eq!(interrupt_writes(&device.handle().ops).len(), 2);
}

#[test]
fn test_set_brightness_frame_layout() {
    let handle = ScriptedHandle::new();
    let mut device = NZXTDevice::new(handle, 90).unwrap();
    device.set_brightness(55).unwrap();

    let writes = interrupt_writes(&device.handle().ops);
    let frame = writes[0];
    assert_eq!(frame.len(), 64);
    assert_eq!(&frame[..4], &[0x30, 0x02, 0x01, 55]);
    assert!(frame[4..].iter().all(|&b| b == 0));
}

#[test]
fn test_set_pump_duty() {
    let handle = ScriptedHandle::new();
    let mut device = NZXTDevice::new(handle, 90).unwrap();

    let result = device.set_pump_duty(100);
    assert!(result.is_ok());

    let result = device.set_pump_duty(20);
    assert!(result.is_ok());

    let result = device.set_pump_duty(19);
    assert!(result.is_err());

    assert_eq!(interrupt_writes(&device.handle().ops).len(), 2);
}

#[test]
fn test_set_pump_duty_rejects_without_io() {
    let handle = ScriptedHandle::new();
    let mut device = NZXTDevice::new(handle, 90).unwrap();
    let ops_before = device.handle().ops.len();

    assert_eq!(device.set_pump_duty(19), Err(DeviceError::Validation));
    assert_eq!(device.set_pump_duty(101), Err(DeviceError::Validation));
    assert_eq!(device.handle().ops.len(), ops_before);
}

#[test]
fn test_set_fan_duty_frame_layout() {
    let handle = ScriptedHandle::new();
    let mut device = NZXTDevice::new(handle, 90).unwrap();
    device.set_fan_duty(80).unwrap();

    let writes = interrupt_writes(&device.handle().ops);
    let frame = writes[0];
    assert_eq!(frame.len(), 64);
    assert_eq!(frame[0], 0x72);
    assert_eq!(frame[1], 0x02);
    assert_eq!(frame[2], 0);
    assert_eq!(frame[3], 0);
    assert!(frame[4..44].iter().all(|&b| b == 80));
    assert!(frame[44..].iter().all(|&b| b == 0));
}

#[test]
fn test_set_pump_duty_frame_uses_pump_address() {
    let handle = ScriptedHandle::new();
    let mut device = NZXTDevice::new(handle, 90).unwrap();
    device.set_pump_duty(20).unwrap();

    let writes = interrupt_writes(&device.handle().ops);
    assert_eq!(writes[0][1], 0x01);
}

#[test]
fn test_set_visual_mode() {
    let handle = ScriptedHandle::new();
    let mut device = NZXTDevice::new(handle, 90).unwrap();

    let result = device.set_visual_mode(0, 0);

    assert!(result.is_ok());
    assert_eq!(interrupt_writes(&device.handle().ops).len(), 1);
}

#[test]
fn test_visual_mode_shortcuts() {
    let handle = ScriptedHandle::new();
    let mut device = NZXTDevice::new(handle, 90).unwrap();
    device.set_liquid_temp_mode().unwrap();
    device.set_blank_screen().unwrap();
    device.set_dual_infographic_mode().unwrap();
    device.switch_bucket(9).unwrap();

    let writes = interrupt_writes(&device.handle().ops);
    assert_eq!(writes.len(), 4);
    assert_eq!(&writes[0][..4], &[0x38, 0x01, 2, 0]);
    assert_eq!(&writes[1][..4], &[0x38, 0x01, 0, 0]);
    assert_eq!(&writes[2][..4], &[0x38, 0x01, 4, 0]);
    assert_eq!(&writes[3][..4], &[0x38, 0x01, 4, 9]);
}

#[test]
fn test_transport_failure_is_transport_error() {
    let mut handle = ScriptedHandle::new();
    handle.fail_write = true;

    // Opening only claims and reads, so it still succeeds.
    let mut device = NZXTDevice::new(handle, 90).unwrap();
    assert_eq!(device.set_visual_mode(0, 0), Err(DeviceError::Transport));
}

#[test]
fn test_delete_all_buckets_order() {
    let handle = ScriptedHandle::new();
    let mut device = NZXTDevice::new(handle, 90).unwrap();
    device.delete_all_buckets().unwrap();

    let writes = interrupt_writes(&device.handle().ops);
    assert_eq!(writes.len(), 15);
    for (i, frame) in writes.iter().enumerate() {
        assert_eq!(&frame[..3], &[0x32, 0x02, i as u8]);
        assert!(frame[3..].iter().all(|&b| b == 0));
    }
}

#[test]
fn test_delete_bucket_and_query_bucket_frames() {
    let handle = ScriptedHandle::new();
    let mut device = NZXTDevice::new(handle, 90).unwrap();
    device.delete_bucket(7).unwrap();
    device.send_query_bucket(3).unwrap();

    let writes = interrupt_writes(&device.handle().ops);
    assert_eq!(&writes[0][..3], &[0x32, 0x02, 7]);
    assert_eq!(&writes[1][..4], &[0x30, 0x04, 0x00, 3]);
}

#[test]
fn test_send_bulk_data_info_frame() {
    let handle = ScriptedHandle::new();
    let mut device = NZXTDevice::new(handle, 90).unwrap();
    device.send_bulk_data_info(2).unwrap();

    let writes = bulk_writes(&device.handle().ops);
    assert_eq!(writes.len(), 1);
    let frame = writes[0];
    assert_eq!(frame.len(), 512);
    assert_eq!(
        &frame[..13],
        &[0x12, 0xfa, 0x01, 0xe8, 0xab, 0xcd, 0xef, 0x98, 0x76, 0x54, 0x32, 0x10, 2]
    );
    assert_eq!(frame[17], 0x40);
    assert_eq!(frame[18], 0x96);
    assert!(frame[13..17].iter().all(|&b| b == 0));
    assert!(frame[19..].iter().all(|&b| b == 0));
}

#[test]
fn test_setup_bucket_frame_layout() {
    let handle = ScriptedHandle::new();
    let mut device = NZXTDevice::new(handle, 90).unwrap();
    device.setup_bucket(3, 4, 2400, 4).unwrap();

    let writes = interrupt_writes(&device.handle().ops);
    let frame = writes[0];
    assert_eq!(&frame[..9], &[0x32, 0x01, 3, 4, 0x60, 0x09, 0x04, 0x00, 1]);
    assert!(frame[9..].iter().all(|&b| b == 0));
}

#[test]
fn test_set_image_sequence() {
    let handle = ScriptedHandle::new();
    let mut device = NZXTDevice::new(handle, 90).unwrap();
    let payload = vec![0xabu8; 4096];
    device.set_image(&payload, 3, true).unwrap();

    let ops = &device.handle().ops;
    // Four ops from opening the session, then the eight upload steps.
    assert_eq!(ops.len(), 12);
    let steps = &ops[4..];
    match &steps[0] {
        RecordedOp::WriteInterrupt(_, frame) => assert_eq!(&frame[..4], &[0x38, 0x01, 0, 0]),
        other => panic!("expected blank-screen write, got {:?}", other),
    }
    match &steps[1] {
        RecordedOp::WriteInterrupt(_, frame) => assert_eq!(&frame[..3], &[0x32, 0x02, 3]),
        other => panic!("expected bucket delete, got {:?}", other),
    }
    match &steps[2] {
        RecordedOp::WriteInterrupt(_, frame) => {
            // Offset 800 * 3 = 2400 (0x0960) and 4096 / 1024 = 4 slots,
            // both split little-endian.
            assert_eq!(&frame[..9], &[0x32, 0x01, 3, 4, 0x60, 0x09, 0x04, 0x00, 1]);
        }
        other => panic!("expected bucket setup, got {:?}", other),
    }
    match &steps[3] {
        RecordedOp::WriteInterrupt(_, frame) => assert_eq!(&frame[..3], &[0x36, 0x01, 3]),
        other => panic!("expected write-start, got {:?}", other),
    }
    match &steps[4] {
        RecordedOp::WriteBulk(endpoint, frame) => {
            assert_eq!(*endpoint, 0x02);
            assert_eq!(frame.len(), 512);
            assert_eq!(frame[12], 2);
        }
        other => panic!("expected bulk info frame, got {:?}", other),
    }
    match &steps[5] {
        RecordedOp::WriteBulk(endpoint, data) => {
            assert_eq!(*endpoint, 0x02);
            assert_eq!(data.len(), 4096);
            assert!(data.iter().all(|&b| b == 0xab));
        }
        other => panic!("expected raw payload write, got {:?}", other),
    }
    match &steps[6] {
        RecordedOp::WriteInterrupt(_, frame) => assert_eq!(&frame[..3], &[0x36, 0x02, 3]),
        other => panic!("expected write-finish, got {:?}", other),
    }
    match &steps[7] {
        RecordedOp::WriteInterrupt(_, frame) => assert_eq!(&frame[..4], &[0x38, 0x01, 4, 3]),
        other => panic!("expected switch to bucket, got {:?}", other),
    }
}

#[test]
fn test_set_image_small_payload_zero_slots() {
    let handle = ScriptedHandle::new();
    let mut device = NZXTDevice::new(handle, 90).unwrap();
    let payload = vec![0x11u8; 500];
    device.set_image(&payload, 0, false).unwrap();

    let writes = interrupt_writes(&device.handle().ops);
    // Blank screen, delete, setup, write-start, write-finish: no switch.
    assert_eq!(writes.len(), 5);
    // 500 / 1024 truncates to zero memory slots.
    assert_eq!(&writes[2][..9], &[0x32, 0x01, 0, 1, 0x00, 0x00, 0x00, 0x00, 1]);
}

#[test]
fn test_set_image_aborts_on_first_failure() {
    let mut handle = ScriptedHandle::new();
    handle.fail_write = true;

    let mut device = NZXTDevice::new(handle, 90).unwrap();
    let payload = vec![0u8; 1024];
    let result = device.set_image(&payload, 1, true);
    assert_eq!(result, Err(DeviceError::Transport));

    // Only the first step, the blank-screen write, was attempted after
    // the four session-open operations.
    assert_eq!(device.handle().ops.len(), 5);
    match &device.handle().ops[4] {
        RecordedOp::WriteInterrupt(_, frame) => assert_eq!(&frame[..4], &[0x38, 0x01, 0, 0]),
        other => panic!("expected blank-screen write, got {:?}", other),
    }
}

#[test]
fn test_teardown_order() {
    let handle = ScriptedHandle::new();
    let mut device = NZXTDevice::new(handle, 90).unwrap();
    device.teardown().unwrap();

    let ops = &device.handle().ops;
    let teardown_ops = &ops[ops.len() - 3..];
    assert!(matches!(teardown_ops[0], RecordedOp::ReleaseInterface(0)));
    assert!(matches!(teardown_ops[1], RecordedOp::ReleaseInterface(1)));
    assert!(matches!(teardown_ops[2], RecordedOp::Reset));
}

#[test]
fn test_teardown_attempts_all_steps_on_failure() {
    let mut handle = ScriptedHandle::new();
    handle.fail_teardown = true;

    let mut device = NZXTDevice::new(handle, 0).unwrap();
    let result = device.teardown();
    assert_eq!(result, Err(DeviceError::Lifecycle));

    // Release 0, release 1 and reset were all still attempted, in order.
    let ops = &device.handle().ops;
    let teardown_ops = &ops[ops.len() - 3..];
    assert!(matches!(teardown_ops[0], RecordedOp::ReleaseInterface(0)));
    assert!(matches!(teardown_ops[1], RecordedOp::ReleaseInterface(1)));
    assert!(matches!(teardown_ops[2], RecordedOp::Reset));
}
