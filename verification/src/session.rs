use vstd::prelude::*;

use crate::codec;
use crate::codec::{
    spec_bulk_frame, spec_bulk_info_frame, spec_command_frame, spec_duty_frame, spec_status,
    spec_version_chars, DeviceStatus,
};
use crate::errors::DeviceError;
use crate::transport::{HandleOp, NZXTDeviceHandle};

verus! {

/// Interrupt endpoint commands are written to.
pub const INTERRUPT_WRITE_ENDPOINT: u8 = 0x01;

/// Interrupt endpoint responses are read from.
pub const INTERRUPT_READ_ENDPOINT: u8 = 0x81;

/// Bulk endpoint payloads are written to.
pub const BULK_WRITE_ENDPOINT: u8 = 0x02;

/// Duty-channel address of the pump.
const PUMP_ADDRESS: u8 = 0x1;

/// Duty-channel address of the fan.
const FAN_ADDRESS: u8 = 0x2;

/// The interrupt-channel write of the 64-byte frame carrying `data`.
pub open spec fn spec_command_write_op(data: Seq<u8>) -> HandleOp {
    HandleOp::WriteInterrupt(0x01, spec_command_frame(data))
}

/// The set-visual-mode command for the given mode and bucket index.
pub open spec fn spec_visual_mode_op(mode: u8, index: u8) -> HandleOp {
    spec_command_write_op(seq![0x38u8, 0x01u8, mode, index])
}

/// The delete command for one memory bucket.
pub open spec fn spec_delete_bucket_op(index: u8) -> HandleOp {
    spec_command_write_op(seq![0x32u8, 0x02u8, index])
}

/// The command bytes that configure a bucket: index, id, then the memory
/// slot offset and slot count each split little-endian over two bytes,
/// and a fixed trailing byte of one.
pub open spec fn spec_setup_bucket_data(
    index: u8,
    id: u8,
    memory_slot: u16,
    memory_slot_count: u16,
) -> Seq<u8> {
    seq![
        0x32u8,
        0x01u8,
        index,
        id,
        (memory_slot % 256) as u8,
        (memory_slot / 256) as u8,
        (memory_slot_count % 256) as u8,
        (memory_slot_count / 256) as u8,
        1u8,
    ]
}

/// The configure command for one memory bucket.
pub open spec fn spec_setup_bucket_op(
    index: u8,
    id: u8,
    memory_slot: u16,
    memory_slot_count: u16,
) -> HandleOp {
    spec_command_write_op(spec_setup_bucket_data(index, id, memory_slot, memory_slot_count))
}

/// The write-start command for one memory bucket.
pub open spec fn spec_write_start_op(index: u8) -> HandleOp {
    spec_command_write_op(seq![0x36u8, 0x01u8, index])
}

/// The write-finish command for one memory bucket.
pub open spec fn spec_write_finish_op(index: u8) -> HandleOp {
    spec_command_write_op(seq![0x36u8, 0x02u8, index])
}

/// The bulk-channel info frame write for the given mode.
pub open spec fn spec_bulk_info_op(mode: u8) -> HandleOp {
    HandleOp::WriteBulk(0x02, spec_bulk_info_frame(mode))
}

/// The transfers a successful session open performs, in order: switch on
/// kernel-driver auto-detach, claim the auxiliary interface 0, claim the
/// primary command interface 1, then one discard-read that flushes any
/// stale response.
pub open spec fn spec_open_ops() -> Seq<HandleOp> {
    seq![
        HandleOp::AutoDetachKernelDriver(true),
        HandleOp::ClaimInterface(0),
        HandleOp::ClaimInterface(1),
        HandleOp::ReadInterrupt(0x81),
    ]
}

/// The transfers one status query performs: the query command, then one
/// response read.
pub open spec fn spec_status_query_ops() -> Seq<HandleOp> {
    seq![spec_command_write_op(seq![0x74u8, 0x01u8]), HandleOp::ReadInterrupt(0x81)]
}

/// The transfers one firmware-version query performs: the query command,
/// then one response read.
pub open spec fn spec_firmware_query_ops() -> Seq<HandleOp> {
    seq![spec_command_write_op(seq![0x10u8, 0x01u8]), HandleOp::ReadInterrupt(0x81)]
}

/// The delete commands for all 15 memory buckets, in ascending index
/// order.
pub open spec fn spec_delete_all_ops() -> Seq<HandleOp> {
    Seq::new(15, |i: int| spec_delete_bucket_op(i as u8))
}

/// The transfers one image upload performs, in order: blank the screen,
/// delete the target bucket, configure it (id one past the index, slot
/// offset 800 times the index, slot count the payload length divided by
/// 1024), write-start, the bulk-info frame for mode 2, the raw payload
/// on the bulk channel, write-finish, and, when requested, the switch to
/// the freshly written bucket.
pub open spec fn spec_upload_ops(
    payload: Seq<u8>,
    index: u8,
    apply_after_upload: bool,
) -> Seq<HandleOp>
    recommends
        index <= 14,
        payload.len() < 67108864,
{
    let steps = seq![
        spec_visual_mode_op(0, 0),
        spec_delete_bucket_op(index),
        spec_setup_bucket_op(
            index,
            (index + 1) as u8,
            (index as int * 800) as u16,
            (payload.len() as int / 1024) as u16,
        ),
        spec_write_start_op(index),
        spec_bulk_info_op(2),
        HandleOp::WriteBulk(0x02, payload),
        spec_write_finish_op(index),
    ];
    if apply_after_upload {
        steps.push(spec_visual_mode_op(4, index))
    } else {
        steps
    }
}

/// The new log equals the old log extended by the first `k` operations
/// of `ops`, for some nonzero `k`: the steps ran in order up to and
/// including the one that failed, and nothing past it was attempted.
pub open spec fn spec_ran_prefix(
    pre: Seq<HandleOp>,
    post: Seq<HandleOp>,
    ops: Seq<HandleOp>,
) -> bool {
    exists|k: int| 1 <= k <= ops.len() && post == pre + ops.take(k)
}

/// A session with one cooler: owns the transport handle for its whole
/// lifetime and exposes the device operations. Within one session the
/// transfers happen exactly in the order the caller invokes operations.
pub struct NZXTDevice<H: NZXTDeviceHandle> {
    handle: H,
    /// How far the display contents must be rotated before upload, in
    /// degrees. Read by the image-preparation code outside this crate.
    pub rotation_degrees: i32,
}

impl<H: NZXTDeviceHandle> NZXTDevice<H> {
    /// The operations attempted on the underlying transport, oldest
    /// first.
    pub closed spec fn log(&self) -> Seq<HandleOp> {
        self.handle.log()
    }

    /// The rotation hint the session was opened with, in degrees.
    pub closed spec fn spec_rotation_degrees(&self) -> i32 {
        self.rotation_degrees
    }

    /// Borrow the underlying transport handle.
    pub fn handle(&self) -> (h: &H)
        ensures
            h.log() == self.log(),
    {
        &self.handle
    }

    /// Open a session: switch on kernel-driver auto-detach, claim
    /// interface 0 then interface 1, and make one discard-read to clear
    /// any pending response. A claim or detach failure is a lifecycle
    /// error; a failed discard-read is a transport error.
    pub fn new(handle: H, rotation_degrees: i32) -> (r: Result<NZXTDevice<H>, DeviceError>)
        ensures
            r matches Ok(dev) ==> dev.log() == handle.log() + spec_open_ops(),
            r matches Ok(dev) ==> dev.spec_rotation_degrees() == rotation_degrees,
            r matches Err(e) ==> (e == DeviceError::Lifecycle || e == DeviceError::Transport),
    {
        let ghost initial_log = handle.log();
        let mut claimed = handle;
        if claimed.set_auto_detach_kernel_driver(true).is_err() {
            return Err(DeviceError::Lifecycle);
        }
        if claimed.claim_interface(0).is_err() {
            return Err(DeviceError::Lifecycle);
        }
        if claimed.claim_interface(1).is_err() {
            return Err(DeviceError::Lifecycle);
        }
        let mut device = NZXTDevice { handle: claimed, rotation_degrees };
        match device.read() {
            Ok(_) => {
                proof {
                    assert(device.log() =~= initial_log + spec_open_ops());
                }
                Ok(device)
            },
            Err(e) => Err(e),
        }
    }

    /// Write one 64-byte zero-padded command frame carrying `data` on the
    /// interrupt channel.
    fn write(&mut self, data: &Vec<u8>) -> (r: Result<(), DeviceError>)
        ensures
            final(self).log() == old(self).log().push(spec_command_write_op(data@)),
            final(self).spec_rotation_degrees() == old(self).spec_rotation_degrees(),
            r matches Err(e) ==> e == DeviceError::Transport,
    {
        let buf = codec::encode_command(data);
        match self.handle.write_interrupt(INTERRUPT_WRITE_ENDPOINT, &buf) {
            Ok(_) => Ok(()),
            Err(_) => Err(DeviceError::Transport),
        }
    }

    /// Write one 512-byte zero-padded frame carrying `data` on the bulk
    /// channel.
    fn write_bulk(&mut self, data: &Vec<u8>) -> (r: Result<(), DeviceError>)
        requires
            data@.len() <= 512,
        ensures
            final(self).log() == old(self).log().push(
                HandleOp::WriteBulk(0x02, spec_bulk_frame(data@)),
            ),
            final(self).spec_rotation_degrees() == old(self).spec_rotation_degrees(),
            r matches Err(e) ==> e == DeviceError::Transport,
    {
        let buf = codec::encode_bulk_frame(data);
        match self.handle.write_bulk(BULK_WRITE_ENDPOINT, &buf) {
            Ok(_) => Ok(()),
            Err(_) => Err(DeviceError::Transport),
        }
    }

    /// Read one 64-byte response from the interrupt channel.
    fn read(&mut self) -> (r: Result<Vec<u8>, DeviceError>)
        ensures
            final(self).log() == old(self).log().push(
                HandleOp::ReadInterrupt(INTERRUPT_READ_ENDPOINT),
            ),
            final(self).spec_rotation_degrees() == old(self).spec_rotation_degrees(),
            r matches Ok(data) ==> data@.len() == 64,
            r matches Err(e) ==> e == DeviceError::Transport,
    {
        let mut buf: Vec<u8> = vec![0u8; 64];
        match self.handle.read_interrupt(INTERRUPT_READ_ENDPOINT, &mut buf) {
            Ok(_) => Ok(buf),
            Err(_) => Err(DeviceError::Transport),
        }
    }

    /// Query the device status: one query command, one response read,
    /// and a decode of the response at its fixed offsets.
    pub fn get_status(&mut self) -> (r: Result<DeviceStatus, DeviceError>)
        ensures
            r matches Ok(st) ==> final(self).log() == old(self).log() + spec_status_query_ops(),
            r matches Ok(st) ==> (exists|resp: Seq<u8>|
                resp.len() == 64 && st == spec_status(resp)),
            r matches Err(e) ==> e == DeviceError::Transport,
            r matches Err(e) ==> spec_ran_prefix(
                old(self).log(),
                final(self).log(),
                spec_status_query_ops(),
            ),
            final(self).spec_rotation_degrees() == old(self).spec_rotation_degrees(),
    {
        let mut cmd: Vec<u8> = Vec::new();
        cmd.push(0x74u8);
        cmd.push(0x01u8);
        proof {
            assert(cmd@ =~= seq![0x74u8, 0x01u8]);
        }
        if let Err(e) = self.write(&cmd) {
            proof {
                assert(self.log() =~= old(self).log() + spec_status_query_ops().take(1));
            }
            return Err(e);
        }
        let data = match self.read() {
            Ok(data) => data,
            Err(e) => {
                proof {
                    assert(self.log() =~= old(self).log() + spec_status_query_ops().take(2));
                }
                return Err(e);
            },
        };
        proof {
            assert(self.log() =~= old(self).log() + spec_status_query_ops());
        }
        match codec::parse_status(&data) {
            Ok(status) => {
                proof {
                    assert(status == spec_status(data@));
                }
                Ok(status)
            },
            Err(_) => {
                proof {
                    assert(false);
                }
                Err(DeviceError::Transport)
            },
        }
    }

    /// Query the firmware version: one query command, one response read,
    /// and a decode of the three version components into their text
    /// rendering.
    pub fn get_firmware_version(&mut self) -> (r: Result<String, DeviceError>)
        ensures
            r matches Ok(v) ==> final(self).log() == old(self).log() + spec_firmware_query_ops(),
            r matches Ok(v) ==> (exists|resp: Seq<u8>|
                resp.len() == 64 && v@ == spec_version_chars(
                    resp[17] as int,
                    resp[18] as int,
                    resp[19] as int,
                )),
            r matches Err(e) ==> e == DeviceError::Transport,
            r matches Err(e) ==> spec_ran_prefix(
                old(self).log(),
                final(self).log(),
                spec_firmware_query_ops(),
            ),
            final(self).spec_rotation_degrees() == old(self).spec_rotation_degrees(),
    {
        let mut cmd: Vec<u8> = Vec::new();
        cmd.push(0x10u8);
        cmd.push(0x01u8);
        proof {
            assert(cmd@ =~= seq![0x10u8, 0x01u8]);
        }
        if let Err(e) = self.write(&cmd) {
            proof {
                assert(self.log() =~= old(self).log() + spec_firmware_query_ops().take(1));
            }
            return Err(e);
        }
        let data = match self.read() {
            Ok(data) => data,
            Err(e) => {
                proof {
                    assert(self.log() =~= old(self).log() + spec_firmware_query_ops().take(2));
                }
                return Err(e);
            },
        };
        proof {
            assert(self.log() =~= old(self).log() + spec_firmware_query_ops());
        }
        match codec::parse_firmware_info(&data) {
            Ok(version) => Ok(version),
            Err(_) => {
                proof {
                    assert(false);
                }
                Err(DeviceError::Transport)
            },
        }
    }

    /// Set the pump duty. Only 20 to 100 percent is accepted; any other
    /// value is rejected as a validation error before any I/O happens.
    pub fn set_pump_duty(&mut self, duty: u8) -> (r: Result<(), DeviceError>)
        ensures
            20 <= duty <= 100 ==> final(self).log() == old(self).log().push(
                HandleOp::WriteInterrupt(0x01, spec_duty_frame(duty, 0x1)),
            ),
            20 <= duty <= 100 ==> (r matches Err(e) ==> e == DeviceError::Transport),
            !(20 <= duty <= 100) ==> (final(self).log() == old(self).log() && (r matches Err(e)
                && e == DeviceError::Validation)),
            final(self).spec_rotation_degrees() == old(self).spec_rotation_degrees(),
    {
        self.set_duty(duty, PUMP_ADDRESS)
    }

    /// Set the fan duty. Only 20 to 100 percent is accepted; any other
    /// value is rejected as a validation error before any I/O happens.
    pub fn set_fan_duty(&mut self, duty: u8) -> (r: Result<(), DeviceError>)
        ensures
            20 <= duty <= 100 ==> final(self).log() == old(self).log().push(
                HandleOp::WriteInterrupt(0x01, spec_duty_frame(duty, 0x2)),
            ),
            20 <= duty <= 100 ==> (r matches Err(e) ==> e == DeviceError::Transport),
            !(20 <= duty <= 100) ==> (final(self).log() == old(self).log() && (r matches Err(e)
                && e == DeviceError::Validation)),
            final(self).spec_rotation_degrees() == old(self).spec_rotation_degrees(),
    {
        self.set_duty(duty, FAN_ADDRESS)
    }

    /// Validate and write one set-duty frame for the given channel
    /// address.
    fn set_duty(&mut self, duty: u8, address: u8) -> (r: Result<(), DeviceError>)
        ensures
            20 <= duty <= 100 ==> final(self).log() == old(self).log().push(
                HandleOp::WriteInterrupt(0x01, spec_duty_frame(duty, address)),
            ),
            20 <= duty <= 100 ==> (r matches Err(e) ==> e == DeviceError::Transport),
            !(20 <= duty <= 100) ==> (final(self).log() == old(self).log() && (r matches Err(e)
                && e == DeviceError::Validation)),
            final(self).spec_rotation_degrees() == old(self).spec_rotation_degrees(),
    {
        if 20 <= duty && duty <= 100 {
            let buffer = codec::encode_duty_command(duty, address);
            let r = self.write(&buffer);
            proof {
                assert(spec_command_frame(buffer@) =~= spec_duty_frame(duty, address));
            }
            r
        } else {
            Err(DeviceError::Validation)
        }
    }

    /// Set the visual mode of the display: the mode byte, then the
    /// bucket index it applies to.
    pub fn set_visual_mode(&mut self, mode: u8, index: u8) -> (r: Result<(), DeviceError>)
        ensures
            final(self).log() == old(self).log().push(spec_visual_mode_op(mode, index)),
            r matches Err(e) ==> e == DeviceError::Transport,
            final(self).spec_rotation_degrees() == old(self).spec_rotation_degrees(),
    {
        let mut cmd: Vec<u8> = Vec::new();
        cmd.push(0x38u8);
        cmd.push(0x01u8);
        cmd.push(mode);
        cmd.push(index);
        proof {
            assert(cmd@ =~= seq![0x38u8, 0x01u8, mode, index]);
        }
        self.write(&cmd)
    }

    /// Switch the display to the custom bucket at the given index.
    pub fn switch_bucket(&mut self, index: u8) -> (r: Result<(), DeviceError>)
        ensures
            final(self).log() == old(self).log().push(spec_visual_mode_op(4, index)),
            r matches Err(e) ==> e == DeviceError::Transport,
            final(self).spec_rotation_degrees() == old(self).spec_rotation_degrees(),
    {
        self.set_visual_mode(4, index)
    }

    /// Delete every memory bucket, indices 0 through 14 in ascending
    /// order, stopping at the first failure.
    pub fn delete_all_buckets(&mut self) -> (r: Result<(), DeviceError>)
        ensures
            r matches Ok(_) ==> final(self).log() == old(self).log() + spec_delete_all_ops(),
            r matches Err(e) ==> e == DeviceError::Transport,
            r matches Err(e) ==> spec_ran_prefix(
                old(self).log(),
                final(self).log(),
                spec_delete_all_ops(),
            ),
            final(self).spec_rotation_degrees() == old(self).spec_rotation_degrees(),
    {
        let ghost pre = self.log();
        let mut index: u8 = 0;
        while index < 15
            invariant
                index <= 15,
                pre == old(self).log(),
                self.log() == pre + spec_delete_all_ops().take(index as int),
                self.spec_rotation_degrees() == old(self).spec_rotation_degrees(),
            decreases 15 - index,
        {
            match self.delete_bucket(index) {
                Ok(_) => {},
                Err(e) => {
                    proof {
                        assert(self.log() =~= pre + spec_delete_all_ops().take(index as int + 1));
                    }
                    return Err(e);
                },
            }
            proof {
                assert(self.log() =~= pre + spec_delete_all_ops().take(index as int + 1));
            }
            index = index + 1;
        }
        proof {
            assert(spec_delete_all_ops().take(15) =~= spec_delete_all_ops());
        }
        Ok(())
    }

    /// Ask the device about the bucket at the given index.
    pub fn send_query_bucket(&mut self, index: u8) -> (r: Result<(), DeviceError>)
        ensures
            final(self).log() == old(self).log().push(
                spec_command_write_op(seq![0x30u8, 0x04u8, 0x00u8, index]),
            ),
            r matches Err(e) ==> e == DeviceError::Transport,
            final(self).spec_rotation_degrees() == old(self).spec_rotation_degrees(),
    {
        let mut cmd: Vec<u8> = Vec::new();
        cmd.push(0x30u8);
        cmd.push(0x04u8);
        cmd.push(0x00u8);
        cmd.push(index);
        proof {
            assert(cmd@ =~= seq![0x30u8, 0x04u8, 0x00u8, index]);
        }
        self.write(&cmd)
    }

    /// Clear the memory bucket at the given index.
    pub fn delete_bucket(&mut self, index: u8) -> (r: Result<(), DeviceError>)
        ensures
            final(self).log() == old(self).log().push(spec_delete_bucket_op(index)),
            r matches Err(e) ==> e == DeviceError::Transport,
            final(self).spec_rotation_degrees() == old(self).spec_rotation_degrees(),
    {
        let mut cmd: Vec<u8> = Vec::new();
        cmd.push(0x32u8);
        cmd.push(0x02u8);
        cmd.push(index);
        proof {
            assert(cmd@ =~= seq![0x32u8, 0x02u8, index]);
        }
        self.write(&cmd)
    }

    /// Show the liquid temperature on the display.
    pub fn set_liquid_temp_mode(&mut self) -> (r: Result<(), DeviceError>)
        ensures
            final(self).log() == old(self).log().push(spec_visual_mode_op(2, 0)),
            r matches Err(e) ==> e == DeviceError::Transport,
            final(self).spec_rotation_degrees() == old(self).spec_rotation_degrees(),
    {
        self.set_visual_mode(2, 0)
    }

    /// Blank the display.
    pub fn set_blank_screen(&mut self) -> (r: Result<(), DeviceError>)
        ensures
            final(self).log() == old(self).log().push(spec_visual_mode_op(0, 0)),
            r matches Err(e) ==> e == DeviceError::Transport,
            final(self).spec_rotation_degrees() == old(self).spec_rotation_degrees(),
    {
        self.set_visual_mode(0, 0)
    }

    /// Show the dual infographic on the display.
    pub fn set_dual_infographic_mode(&mut self) -> (r: Result<(), DeviceError>)
        ensures
            final(self).log() == old(self).log().push(spec_visual_mode_op(4, 0)),
            r matches Err(e) ==> e == DeviceError::Transport,
            final(self).spec_rotation_degrees() == old(self).spec_rotation_degrees(),
    {
        self.set_visual_mode(4, 0)
    }

    /// Set the display brightness. Only 0 to 100 percent is accepted;
    /// any other value is rejected as a validation error before any I/O
    /// happens.
    pub fn set_brightness(&mut self, brightness: u8) -> (r: Result<(), DeviceError>)
        ensures
            brightness <= 100 ==> final(self).log() == old(self).log().push(
                spec_command_write_op(seq![0x30u8, 0x02u8, 0x01u8, brightness]),
            ),
            brightness <= 100 ==> (r matches Err(e) ==> e == DeviceError::Transport),
            brightness > 100 ==> (final(self).log() == old(self).log() && (r matches Err(e)
                && e == DeviceError::Validation)),
            final(self).spec_rotation_degrees() == old(self).spec_rotation_degrees(),
    {
        if brightness <= 100 {
            let mut cmd: Vec<u8> = Vec::new();
            cmd.push(0x30u8);
            cmd.push(0x02u8);
            cmd.push(0x01u8);
            cmd.push(brightness);
            proof {
                assert(cmd@ =~= seq![0x30u8, 0x02u8, 0x01u8, brightness]);
            }
            self.write(&cmd)
        } else {
            Err(DeviceError::Validation)
        }
    }

    /// Upload an image payload into the memory bucket at `index` and
    /// optionally switch the display to it. The payload must already be
    /// raw pixel bytes sized for the 320 by 320 display and pre-rotated;
    /// this session neither resizes nor rotates.
    pub fn set_image(&mut self, image_bytes: &Vec<u8>, index: u8, apply_after_upload: bool) -> (r:
        Result<(), DeviceError>)
        requires
            index <= 14,
            image_bytes@.len() < 67108864,
        ensures
            r matches Ok(_) ==> final(self).log() == old(self).log() + spec_upload_ops(
                image_bytes@,
                index,
                apply_after_upload,
            ),
            r matches Err(e) ==> e == DeviceError::Transport,
            r matches Err(e) ==> spec_ran_prefix(
                old(self).log(),
                final(self).log(),
                spec_upload_ops(image_bytes@, index, apply_after_upload),
            ),
            final(self).spec_rotation_degrees() == old(self).spec_rotation_degrees(),
    {
        let ghost ops = spec_upload_ops(image_bytes@, index, apply_after_upload);
        if let Err(e) = self.set_blank_screen() {
            proof {
                assert(self.log() =~= old(self).log() + ops.take(1));
            }
            return Err(e);
        }
        if let Err(e) = self.delete_bucket(index) {
            proof {
                assert(self.log() =~= old(self).log() + ops.take(2));
            }
            return Err(e);
        }
        let memory_slot: u16 = 800 * (index as u16);
        let memory_slot_count: u16 = (image_bytes.len() / 1024) as u16;
        if let Err(e) = self.setup_bucket(index, index + 1, memory_slot, memory_slot_count) {
            proof {
                assert(self.log() =~= old(self).log() + ops.take(3));
            }
            return Err(e);
        }
        if let Err(e) = self.write_start_bucket(index) {
            proof {
                assert(self.log() =~= old(self).log() + ops.take(4));
            }
            return Err(e);
        }
        if let Err(e) = self.send_bulk_data_info(2) {
            proof {
                assert(self.log() =~= old(self).log() + ops.take(5));
            }
            return Err(e);
        }
        if self.handle.write_bulk(BULK_WRITE_ENDPOINT, image_bytes).is_err() {
            proof {
                assert(self.log() =~= old(self).log() + ops.take(6));
            }
            return Err(DeviceError::Transport);
        }
        if let Err(e) = self.write_finish_bucket(index) {
            proof {
                assert(self.log() =~= old(self).log() + ops.take(7));
            }
            return Err(e);
        }
        if apply_after_upload {
            if let Err(e) = self.switch_bucket(index) {
                proof {
                    assert(self.log() =~= old(self).log() + ops.take(8));
                }
                return Err(e);
            }
        }
        proof {
            assert(self.log() =~= old(self).log() + ops);
        }
        Ok(())
    }

    /// Configure a memory bucket for an upcoming upload.
    pub fn setup_bucket(
        &mut self,
        index: u8,
        id: u8,
        memory_slot: u16,
        memory_slot_count: u16,
    ) -> (r: Result<(), DeviceError>)
        ensures
            final(self).log() == old(self).log().push(
                spec_setup_bucket_op(index, id, memory_slot, memory_slot_count),
            ),
            r matches Err(e) ==> e == DeviceError::Transport,
            final(self).spec_rotation_degrees() == old(self).spec_rotation_degrees(),
    {
        let mut cmd: Vec<u8> = Vec::new();
        cmd.push(0x32u8);
        cmd.push(0x01u8);
        cmd.push(index);
        cmd.push(id);
        cmd.push((memory_slot % 256) as u8);
        cmd.push((memory_slot / 256) as u8);
        cmd.push((memory_slot_count % 256) as u8);
        cmd.push((memory_slot_count / 256) as u8);
        cmd.push(1u8);
        proof {
            assert(cmd@ =~= spec_setup_bucket_data(index, id, memory_slot, memory_slot_count));
        }
        self.write(&cmd)
    }

    /// Send the write-start command for the bucket at the given index.
    pub fn write_start_bucket(&mut self, index: u8) -> (r: Result<(), DeviceError>)
        ensures
            final(self).log() == old(self).log().push(spec_write_start_op(index)),
            r matches Err(e) ==> e == DeviceError::Transport,
            final(self).spec_rotation_degrees() == old(self).spec_rotation_degrees(),
    {
        let mut cmd: Vec<u8> = Vec::new();
        cmd.push(0x36u8);
        cmd.push(0x01u8);
        cmd.push(index);
        proof {
            assert(cmd@ =~= seq![0x36u8, 0x01u8, index]);
        }
        self.write(&cmd)
    }

    /// Send the write-finish command for the bucket at the given index.
    pub fn write_finish_bucket(&mut self, index: u8) -> (r: Result<(), DeviceError>)
        ensures
            final(self).log() == old(self).log().push(spec_write_finish_op(index)),
            r matches Err(e) ==> e == DeviceError::Transport,
            final(self).spec_rotation_degrees() == old(self).spec_rotation_degrees(),
    {
        let mut cmd: Vec<u8> = Vec::new();
        cmd.push(0x36u8);
        cmd.push(0x02u8);
        cmd.push(index);
        proof {
            assert(cmd@ =~= seq![0x36u8, 0x02u8, index]);
        }
        self.write(&cmd)
    }

    /// Announce an impending bulk transfer: the fixed magic preamble,
    /// the mode byte, and the fixed trailing magic bytes, zero-padded to
    /// one full bulk frame.
    pub fn send_bulk_data_info(&mut self, mode: u8) -> (r: Result<(), DeviceError>)
        ensures
            final(self).log() == old(self).log().push(spec_bulk_info_op(mode)),
            r matches Err(e) ==> e == DeviceError::Transport,
            final(self).spec_rotation_degrees() == old(self).spec_rotation_degrees(),
    {
        let frame = codec::encode_bulk_info(mode);
        let r = self.write_bulk(&frame);
        proof {
            assert(spec_bulk_frame(frame@) =~= spec_bulk_info_frame(mode));
        }
        r
    }

    /// Tear the session down: release interface 0, release interface 1,
    /// then reset the device. Every step is attempted even when an
    /// earlier one fails; the first failure is reported as a lifecycle
    /// error and never interrupts the remaining steps.
    pub fn teardown(&mut self) -> (r: Result<(), DeviceError>)
        ensures
            final(self).log() == old(self).log().push(HandleOp::ReleaseInterface(0)).push(
                HandleOp::ReleaseInterface(1),
            ).push(HandleOp::Reset),
            final(self).spec_rotation_degrees() == old(self).spec_rotation_degrees(),
            r matches Err(e) ==> e == DeviceError::Lifecycle,
    {
        let released_0 = self.handle.release_interface(0);
        let released_1 = self.handle.release_interface(1);
        let reset_done = self.handle.reset();
        if released_0.is_err() || released_1.is_err() || reset_done.is_err() {
            Err(DeviceError::Lifecycle)
        } else {
            Ok(())
        }
    }
}

} // verus!
