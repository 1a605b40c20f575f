//! Telling the ARM instructions apart and running them.

use crate::arm7tdmi::alu::spec_field;
use crate::arm7tdmi::alu::spec_is_test;
use crate::arm7tdmi::alu::spec_test_bit;
use crate::arm7tdmi::arm::Outcome;
use crate::arm7tdmi::Core;
use crate::sysbus::SysBus;
use crate::sysbus::SysBusView;
use vstd::prelude::*;

verus! {

/// The families of ARM instructions.
#[derive(Debug, PartialEq, Eq, Clone, Copy, Structural)]
pub enum ArmFormat {
    /// BX.
    BranchExchange,
    /// B and BL.
    BranchLink,
    /// SWI.
    SoftwareInterrupt,
    /// MUL and MLA.
    Multiply,
    /// UMULL, UMLAL, SMULL and SMLAL.
    MultiplyLong,
    /// SWP and SWPB.
    SingleDataSwap,
    /// LDRH, STRH, LDRSB and LDRSH.
    HalfwordTransfer,
    /// MRS.
    ReadStatus,
    /// MSR.
    WriteStatus,
    /// The sixteen data-processing operations.
    DataProcessing,
    /// LDR, STR, LDRB and STRB.
    SingleDataTransfer,
    /// LDM and STM.
    BlockDataTransfer,
    /// No instruction: the coprocessor instructions, for which the console
    /// has no coprocessor, and the patterns that the architecture leaves
    /// free.
    Undefined,
}

/// The family of the ARM instruction `insn`, told by bits 4 to 27 of the
/// word; for most families bits 20 to 27 and 4 to 7 suffice.
pub open spec fn spec_arm_format(insn: u32) -> ArmFormat {
    if insn & 0x0fff_fff0 == 0x012f_ff10 {
        ArmFormat::BranchExchange
    } else if insn & 0x0e00_0000 == 0x0a00_0000 {
        ArmFormat::BranchLink
    } else if insn & 0x0f00_0000 == 0x0f00_0000 {
        ArmFormat::SoftwareInterrupt
    } else if insn & 0x0fc0_00f0 == 0x0000_0090 {
        ArmFormat::Multiply
    } else if insn & 0x0f80_00f0 == 0x0080_0090 {
        ArmFormat::MultiplyLong
    } else if insn & 0x0fb0_0ff0 == 0x0100_0090 {
        ArmFormat::SingleDataSwap
    } else if insn & 0x0e00_0090 == 0x0000_0090 {
        if insn & 0x0000_0060 == 0 || (insn & 0x0010_0000 == 0 && insn & 0x0000_0060
            != 0x0000_0020) {
            ArmFormat::Undefined
        } else {
            ArmFormat::HalfwordTransfer
        }
    } else if insn & 0x0fbf_0fff == 0x010f_0000 {
        ArmFormat::ReadStatus
    } else if insn & 0x0fb0_fff0 == 0x0120_f000 || insn & 0x0fb0_f000 == 0x0320_f000 {
        ArmFormat::WriteStatus
    } else if insn & 0x0c00_0000 == 0x0000_0000 {
        if insn & 0x0190_0000 == 0x0100_0000 {
            ArmFormat::Undefined
        } else {
            ArmFormat::DataProcessing
        }
    } else if insn & 0x0c00_0000 == 0x0400_0000 {
        if insn & 0x0200_0010 == 0x0200_0010 {
            ArmFormat::Undefined
        } else {
            ArmFormat::SingleDataTransfer
        }
    } else if insn & 0x0e00_0000 == 0x0800_0000 {
        ArmFormat::BlockDataTransfer
    } else {
        ArmFormat::Undefined
    }
}

/// The family of the ARM instruction `insn`.
#[verifier::when_used_as_spec(spec_arm_format)]
pub fn arm_format(insn: u32) -> (r: ArmFormat)
    ensures
        r == spec_arm_format(insn),
{
    if insn & 0x0fff_fff0 == 0x012f_ff10 {
        ArmFormat::BranchExchange
    } else if insn & 0x0e00_0000 == 0x0a00_0000 {
        ArmFormat::BranchLink
    } else if insn & 0x0f00_0000 == 0x0f00_0000 {
        ArmFormat::SoftwareInterrupt
    } else if insn & 0x0fc0_00f0 == 0x0000_0090 {
        ArmFormat::Multiply
    } else if insn & 0x0f80_00f0 == 0x0080_0090 {
        ArmFormat::MultiplyLong
    } else if insn & 0x0fb0_0ff0 == 0x0100_0090 {
        ArmFormat::SingleDataSwap
    } else if insn & 0x0e00_0090 == 0x0000_0090 {
        if insn & 0x0000_0060 == 0 || (insn & 0x0010_0000 == 0 && insn & 0x0000_0060
            != 0x0000_0020) {
            ArmFormat::Undefined
        } else {
            ArmFormat::HalfwordTransfer
        }
    } else if insn & 0x0fbf_0fff == 0x010f_0000 {
        ArmFormat::ReadStatus
    } else if insn & 0x0fb0_fff0 == 0x0120_f000 || insn & 0x0fb0_f000 == 0x0320_f000 {
        ArmFormat::WriteStatus
    } else if insn & 0x0c00_0000 == 0x0000_0000 {
        if insn & 0x0190_0000 == 0x0100_0000 {
            ArmFormat::Undefined
        } else {
            ArmFormat::DataProcessing
        }
    } else if insn & 0x0c00_0000 == 0x0400_0000 {
        if insn & 0x0200_0010 == 0x0200_0010 {
            ArmFormat::Undefined
        } else {
            ArmFormat::SingleDataTransfer
        }
    } else if insn & 0x0e00_0000 == 0x0800_0000 {
        ArmFormat::BlockDataTransfer
    } else {
        ArmFormat::Undefined
    }
}

impl Core {
    /// What the ARM instruction `insn` does once its condition holds.
    #[verifier::opaque]
    pub open spec fn spec_execute_arm(self, bus: SysBusView, insn: u32) -> Outcome {
        match spec_arm_format(insn) {
            ArmFormat::BranchExchange => self.spec_branch_exchange(bus, insn),
            ArmFormat::BranchLink => self.spec_branch(bus, insn),
            ArmFormat::SoftwareInterrupt => self.spec_software_interrupt(bus),
            ArmFormat::Multiply => self.spec_multiply(bus, insn),
            ArmFormat::MultiplyLong => self.spec_multiply_long_insn(bus, insn),
            ArmFormat::SingleDataSwap => self.spec_swap(bus, insn),
            ArmFormat::HalfwordTransfer => self.spec_halfword_transfer(bus, insn),
            ArmFormat::ReadStatus => self.spec_read_status(bus, insn),
            ArmFormat::WriteStatus => self.spec_write_status(bus, insn),
            ArmFormat::DataProcessing => self.spec_data_processing(bus, insn),
            ArmFormat::SingleDataTransfer => self.spec_single_transfer(bus, insn),
            ArmFormat::BlockDataTransfer => self.spec_block_transfer(bus, insn),
            ArmFormat::Undefined => self.spec_undefined(bus),
        }
    }

    /// Runs the ARM instruction `insn`, whose condition holds. Returns the
    /// cycles that it takes beyond its fetch.
    pub fn execute_arm(&mut self, bus: &mut SysBus, insn: u32) -> (cost: usize)
        ensures
            final(self).cycles == old(self).cycles,
            crate::sysbus::same_frame(old(bus)@, final(bus)@),
            (Outcome { cpu: *final(self), bus: final(bus)@, cost }) == old(self).spec_execute_arm(
                old(bus)@,
                insn,
            ),
            cost <= 200,
    {
        proof {
            reveal(Core::spec_execute_arm);
        }
        match arm_format(insn) {
            ArmFormat::BranchExchange => self.exec_branch_exchange(bus, insn),
            ArmFormat::BranchLink => self.exec_branch(bus, insn),
            ArmFormat::SoftwareInterrupt => self.exec_software_interrupt(bus),
            ArmFormat::Multiply => self.exec_multiply(bus, insn),
            ArmFormat::MultiplyLong => self.exec_multiply_long(bus, insn),
            ArmFormat::SingleDataSwap => self.exec_swap(bus, insn),
            ArmFormat::HalfwordTransfer => self.exec_halfword_transfer(bus, insn),
            ArmFormat::ReadStatus => self.exec_read_status(bus, insn),
            ArmFormat::WriteStatus => self.exec_write_status(bus, insn),
            ArmFormat::DataProcessing => self.exec_data_processing(bus, insn),
            ArmFormat::SingleDataTransfer => self.exec_single_transfer(bus, insn),
            ArmFormat::BlockDataTransfer => self.exec_block_transfer(bus, insn),
            ArmFormat::Undefined => self.exec_undefined(bus),
        }
    }
}

} // verus!
