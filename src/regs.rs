//! Architectural register state that a vCPU needs to start in 64-bit long
//! mode with paging on.

use vstd::prelude::*;
use x86_64::registers::control::{Cr0Flags, Cr4Flags};
use x86_64::registers::model_specific::EferFlags;

verus! {

/// EFER.LME: long mode enable.
pub const EFER_LME: u64 = 0x100;
/// EFER.LMA: long mode active.
pub const EFER_LMA: u64 = 0x400;
/// CR0.PE: protected mode enable.
pub const CR0_PE: u64 = 0x1;
/// CR0.MP: monitor coprocessor.
pub const CR0_MP: u64 = 0x2;
/// CR0.NE: numeric error.
pub const CR0_NE: u64 = 0x20;
/// CR0.PG: paging.
pub const CR0_PG: u64 = 0x8000_0000;
/// CR4.PAE: physical address extension.
pub const CR4_PAE: u64 = 0x20;
/// RFLAGS bit 1, which the architecture reserves and requires to be set.
pub const RFLAGS_RESERVED: u64 = 0x2;
/// RFLAGS.IF: interrupts enabled.
pub const RFLAGS_IF: u64 = 0x200;

/// Relies on x86_64's `EferFlags::LONG_MODE_ENABLE`: bit 8 of EFER.
#[verifier::external_body]
fn efer_long_mode_enable() -> (r: u64)
    ensures
        r == EFER_LME,
{
    EferFlags::LONG_MODE_ENABLE.bits()
}

/// Relies on x86_64's `EferFlags::LONG_MODE_ACTIVE`: bit 10 of EFER.
#[verifier::external_body]
fn efer_long_mode_active() -> (r: u64)
    ensures
        r == EFER_LMA,
{
    EferFlags::LONG_MODE_ACTIVE.bits()
}

/// Relies on x86_64's `Cr0Flags::PROTECTED_MODE_ENABLE`: bit 0 of CR0.
#[verifier::external_body]
fn cr0_protected_mode_enable() -> (r: u64)
    ensures
        r == CR0_PE,
{
    Cr0Flags::PROTECTED_MODE_ENABLE.bits()
}

/// Relies on x86_64's `Cr0Flags::MONITOR_COPROCESSOR`: bit 1 of CR0.
#[verifier::external_body]
fn cr0_monitor_coprocessor() -> (r: u64)
    ensures
        r == CR0_MP,
{
    Cr0Flags::MONITOR_COPROCESSOR.bits()
}

/// Relies on x86_64's `Cr0Flags::NUMERIC_ERROR`: bit 5 of CR0.
#[verifier::external_body]
fn cr0_numeric_error() -> (r: u64)
    ensures
        r == CR0_NE,
{
    Cr0Flags::NUMERIC_ERROR.bits()
}

/// Relies on x86_64's `Cr0Flags::PAGING`: bit 31 of CR0.
#[verifier::external_body]
fn cr0_paging() -> (r: u64)
    ensures
        r == CR0_PG,
{
    Cr0Flags::PAGING.bits()
}

/// Relies on x86_64's `Cr4Flags::PHYSICAL_ADDRESS_EXTENSION`: bit 5 of CR4.
#[verifier::external_body]
fn cr4_physical_address_extension() -> (r: u64)
    ensures
        r == CR4_PAE,
{
    Cr4Flags::PHYSICAL_ADDRESS_EXTENSION.bits()
}

/// The general-purpose register state that entry depends on.
#[derive(Clone, Copy, Debug, PartialEq, Eq, Structural)]
pub struct GenRegs {
    pub rip: u64,
    pub rflags: u64,
}

/// A segment descriptor as the hypervisor takes it.
#[derive(Clone, Copy, Debug, PartialEq, Eq, Structural)]
pub struct Segment {
    pub base: u64,
    pub limit: u32,
    pub selector: u16,
    pub type_: u8,
    pub present: u8,
    pub dpl: u8,
    pub db: u8,
    pub s: u8,
    pub l: u8,
    pub g: u8,
    pub avl: u8,
    pub unusable: u8,
    pub padding: u8,
}

/// The special and control register state that entry depends on.
#[derive(Clone, Copy, Debug, PartialEq, Eq, Structural)]
pub struct SpecialRegs {
    pub cs: Segment,
    pub efer: u64,
    pub cr0: u64,
    pub cr3: u64,
    pub cr4: u64,
}

/// A flat 64-bit ring-0 code segment: base 0, full limit, present,
/// execute/read and accessed, long mode, page granular, selector 8.
pub open spec fn long_mode_code_segment() -> Segment {
    Segment {
        base: 0,
        limit: 0xFFFFF,
        selector: 8,
        type_: 11,
        present: 1,
        dpl: 0,
        db: 0,
        s: 1,
        l: 1,
        g: 1,
        avl: 0,
        unusable: 0,
        padding: 0,
    }
}

/// The general registers for entry at `entry`, from the state `regs`:
/// the reserved flag bit and the interrupt flag are set, every other flag
/// is kept.
pub open spec fn entry_gen_regs(regs: GenRegs, entry: u64) -> GenRegs {
    GenRegs { rip: entry, rflags: regs.rflags | RFLAGS_RESERVED | RFLAGS_IF }
}

/// The special registers for long-mode entry with the page table rooted
/// at `cr3`.
pub open spec fn entry_special_regs(cr3: u64) -> SpecialRegs {
    SpecialRegs {
        cs: long_mode_code_segment(),
        efer: EFER_LME | EFER_LMA,
        cr0: CR0_PE | CR0_NE | CR0_PG | CR0_MP,
        cr3,
        cr4: CR4_PAE,
    }
}

/// Points `regs` at the first guest instruction `entry`, enables
/// interrupts and sets the reserved flag bit, keeping every other flag.
pub fn set_gen_regs(regs: &mut GenRegs, entry: u64)
    ensures
        *final(regs) == entry_gen_regs(*old(regs), entry),
        final(regs).rip == entry,
        final(regs).rflags == old(regs).rflags | RFLAGS_RESERVED | RFLAGS_IF,
        final(regs).rflags & RFLAGS_RESERVED == RFLAGS_RESERVED,
        final(regs).rflags & RFLAGS_IF == RFLAGS_IF,
{
    let before = regs.rflags;
    let after = before | RFLAGS_RESERVED | RFLAGS_IF;
    assert(after & 2 == 2 && after & 0x200 == 0x200) by (bit_vector)
        requires
            after == before | 2 | 0x200,
    ;
    regs.rip = entry;
    regs.rflags = after;
}

/// Selects 64-bit long mode with paging, a flat code segment and the page
/// table rooted at `cr3`.
pub fn set_special_regs(sregs: &mut SpecialRegs, cr3: u64)
    ensures
        *final(sregs) == entry_special_regs(cr3),
        final(sregs).cs == long_mode_code_segment(),
        final(sregs).efer == EFER_LME | EFER_LMA,
        final(sregs).cr0 == CR0_PE | CR0_NE | CR0_PG | CR0_MP,
        final(sregs).cr3 == cr3,
        final(sregs).cr4 == CR4_PAE,
        final(sregs).efer & EFER_LME == EFER_LME,
        final(sregs).efer & EFER_LMA == EFER_LMA,
        final(sregs).cr0 & CR0_PG == CR0_PG,
        final(sregs).cr0 & CR0_PE == CR0_PE,
        final(sregs).cr4 & CR4_PAE == CR4_PAE,
{
    sregs.cs = Segment {
        base: 0,
        limit: 0xFFFFF,
        selector: 8,
        type_: 11,
        present: 1,
        dpl: 0,
        db: 0,
        s: 1,
        l: 1,
        g: 1,
        avl: 0,
        unusable: 0,
        padding: 0,
    };
    sregs.efer = efer_long_mode_enable() | efer_long_mode_active();
    sregs.cr0 = cr0_protected_mode_enable() | cr0_numeric_error() | cr0_paging()
        | cr0_monitor_coprocessor();
    sregs.cr3 = cr3;
    sregs.cr4 = cr4_physical_address_extension();
    proof {
        lemma_entry_bits();
    }
}

proof fn lemma_entry_bits()
    ensures
        (EFER_LME | EFER_LMA) & EFER_LME == EFER_LME,
        (EFER_LME | EFER_LMA) & EFER_LMA == EFER_LMA,
        (CR0_PE | CR0_NE | CR0_PG | CR0_MP) & CR0_PG == CR0_PG,
        (CR0_PE | CR0_NE | CR0_PG | CR0_MP) & CR0_PE == CR0_PE,
        CR4_PAE & CR4_PAE == CR4_PAE,
{
    assert((0x100u64 | 0x400u64) & 0x100u64 == 0x100u64) by (bit_vector);
    assert((0x100u64 | 0x400u64) & 0x400u64 == 0x400u64) by (bit_vector);
    assert((0x1u64 | 0x20u64 | 0x8000_0000u64 | 0x2u64) & 0x8000_0000u64 == 0x8000_0000u64)
        by (bit_vector);
    assert((0x1u64 | 0x20u64 | 0x8000_0000u64 | 0x2u64) & 0x1u64 == 0x1u64) by (bit_vector);
    assert(0x20u64 & 0x20u64 == 0x20u64) by (bit_vector);
}

/// A vCPU whose registers were set up for entry at `entry` with the page
/// table rooted at `cr3` starts at `entry` with interrupts enabled, in long
/// mode with paging on, and with exactly `cr3` as its page-table root.
pub proof fn lemma_entry_state(regs: GenRegs, entry: u64, cr3: u64)
    ensures
        entry_gen_regs(regs, entry).rip == entry,
        entry_gen_regs(regs, entry).rflags & RFLAGS_IF == RFLAGS_IF,
        entry_gen_regs(regs, entry).rflags & RFLAGS_RESERVED == RFLAGS_RESERVED,
        entry_special_regs(cr3).efer & EFER_LME == EFER_LME,
        entry_special_regs(cr3).efer & EFER_LMA == EFER_LMA,
        entry_special_regs(cr3).cr0 & CR0_PG == CR0_PG,
        entry_special_regs(cr3).cr0 & CR0_PE == CR0_PE,
        entry_special_regs(cr3).cr3 == cr3,
{
    let f = regs.rflags;
    assert((f | 2 | 0x200) & 2 == 2 && (f | 2 | 0x200) & 0x200 == 0x200) by (bit_vector);
    lemma_entry_bits();
}

} // verus!
