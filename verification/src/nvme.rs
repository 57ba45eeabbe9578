//! On-wire NVMe values as the queue pair logic reads them: the fields of a
//! 64-byte submission entry and a 16-byte completion entry that matter here,
//! plus the opcode data-direction bits.

use vstd::prelude::*;

verus! {

/// Size in bytes of one DMA page.
pub const PAGE_SIZE: usize = 4096;

/// Size in bytes of one DMA page, as a 64-bit value.
pub const PAGE_SIZE64: u64 = 4096;

/// Value for unused PRP entries, to catch/mitigate buffer size mismatches:
/// the highest page base address, which no allocation here ever uses.
pub const INVALID_PAGE_ADDR: u64 = !(PAGE_SIZE64 - 1);

/// The fields of a 64-byte NVMe submission entry that the queue pair reads
/// or writes: the opcode, the command identifier assigned at submission, the
/// two data-pointer entries, and two generic command dwords.
#[derive(Clone, Copy, Debug, PartialEq, Eq, Structural)]
pub struct Command {
    pub opcode: u8,
    pub cid: u16,
    pub dptr0: u64,
    pub dptr1: u64,
    pub cdw10: u32,
    pub cdw11: u32,
}

/// The fields of a 16-byte NVMe completion entry: the submission queue head
/// pointer, the submission queue identifier, the command identifier echoed by
/// the controller, and the status word (phase tag in bit 0).
#[derive(Clone, Copy, Debug, PartialEq, Eq, Structural)]
pub struct Completion {
    pub sqhd: u16,
    pub sqid: u16,
    pub cid: u16,
    pub status: u16,
}

/// A 15-bit NVMe status value, with the completion's phase tag stripped.
/// Zero is success.
#[derive(Clone, Copy, Debug, PartialEq, Eq, Structural)]
pub struct Status(pub u16);

impl Completion {
    /// The status value of this completion, without the phase tag.
    pub open spec fn spec_status_value(self) -> u16 {
        self.status >> 1
    }

    /// Returns the completion's status with the phase tag stripped.
    pub fn status_value(&self) -> (r: u16)
        ensures
            r == self.spec_status_value(),
    {
        self.status >> 1
    }
}

impl Status {
    /// The status code type field: generic (0), command-specific (1),
    /// media error (2), and so on.
    pub open spec fn spec_code_type(self) -> u16 {
        (self.0 >> 8) & 0x7
    }

    /// Returns the status code type field.
    pub fn code_type(&self) -> (r: u16)
        ensures
            r == self.spec_code_type(),
    {
        (self.0 >> 8) & 0x7
    }
}

/// True when the opcode's data-transfer bits say the host sends data to the
/// controller.
pub open spec fn spec_transfers_host_to_controller(opcode: u8) -> bool {
    opcode & 0x1 != 0
}

/// True when the opcode's data-transfer bits say the controller returns data
/// to the host.
pub open spec fn spec_transfers_controller_to_host(opcode: u8) -> bool {
    opcode & 0x2 != 0
}

/// Returns whether a command with this opcode carries data toward the
/// controller.
pub fn transfers_host_to_controller(opcode: u8) -> (r: bool)
    ensures
        r == spec_transfers_host_to_controller(opcode),
{
    opcode & 0x1 != 0
}

/// Returns whether a command with this opcode returns data to the host.
pub fn transfers_controller_to_host(opcode: u8) -> (r: bool)
    ensures
        r == spec_transfers_controller_to_host(opcode),
{
    opcode & 0x2 != 0
}

/// Builds an admin command: all fields zero but for the opcode.
pub fn admin_cmd(opcode: u8) -> (c: Command)
    ensures
        c == (Command { opcode, cid: 0, dptr0: 0, dptr1: 0, cdw10: 0, cdw11: 0 }),
{
    Command { opcode, cid: 0, dptr0: 0, dptr1: 0, cdw10: 0, cdw11: 0 }
}

} // verus!
