//! Decoding of synchronous exceptions taken from a guest: the exception
//! class of ESR_EL2, the data-abort syndrome, the faulting IPA and the
//! system-register access of a trapped MSR/MRS.
use vstd::prelude::*;

verus! {

/// ESR_ELx.S1PTW: the fault happened on a stage-1 table walk.
pub const ESR_ELX_S1PTW: u64 = 0x80;

/// What a synchronous exception from a lower EL asks the hypervisor to do.
#[derive(Clone, Copy, Debug, PartialEq, Eq, Structural)]
pub enum ExceptionClass {
    DataAbortLowerEL,
    Smc64,
    Hvc64,
    TrappedMsrMrs,
    TrappedWfiOrWfe,
    Unhandled,
}

/// The exception class field, ESR_EL2[31:26].
pub open spec fn esr_ec(esr: u64) -> u64 {
    (esr >> 26u64) & 0x3f
}

pub open spec fn ec_class(ec: u64) -> ExceptionClass {
    if ec == 0x24 {
        ExceptionClass::DataAbortLowerEL
    } else if ec == 0x17 {
        ExceptionClass::Smc64
    } else if ec == 0x16 {
        ExceptionClass::Hvc64
    } else if ec == 0x18 {
        ExceptionClass::TrappedMsrMrs
    } else if ec == 0x01 {
        ExceptionClass::TrappedWfiOrWfe
    } else {
        ExceptionClass::Unhandled
    }
}

/// The handler an exception with syndrome `esr` goes to.
pub fn exception_class(esr: u64) -> (r: ExceptionClass)
    ensures
        r == ec_class(esr_ec(esr)),
{
    let ec = (esr >> 26u64) & 0x3f;
    if ec == 0x24 {
        ExceptionClass::DataAbortLowerEL
    } else if ec == 0x17 {
        ExceptionClass::Smc64
    } else if ec == 0x16 {
        ExceptionClass::Hvc64
    } else if ec == 0x18 {
        ExceptionClass::TrappedMsrMrs
    } else if ec == 0x01 {
        ExceptionClass::TrappedWfiOrWfe
    } else {
        ExceptionClass::Unhandled
    }
}

/// The instruction-specific syndrome, ESR_EL2[24:0].
pub fn exception_iss(esr: u64) -> (r: u64)
    ensures
        r == esr & 0x1ff_ffff,
        r < 0x200_0000,
{
    assert(esr & 0x1ff_ffff < 0x200_0000) by (bit_vector);
    esr & 0x1ff_ffff
}

/// Bytes to step over the trapping instruction: 4 for a 32-bit
/// instruction (ESR_EL2.IL set), 2 otherwise.
pub fn exception_next_instruction_step(esr: u64) -> (r: u64)
    ensures
        r == 2 + 2 * ((esr >> 25u64) & 1),
        r == 2 || r == 4,
{
    let il = (esr >> 25u64) & 1;
    assert((esr >> 25u64) & 1 <= 1) by (bit_vector);
    2 + 2 * il
}

/// Whether the abort syndrome is valid (ISV set) or the abort is not an
/// external one: only such aborts can be emulated.
pub fn exception_data_abort_handleable(iss: u64) -> (r: bool)
    ensures
        r == ((!(iss & 0x400) | (iss & 0x100_0000)) != 0),
{
    (!(iss & 0x400) | (iss & 0x100_0000)) != 0
}

/// Whether the abort is a translation fault (DFSC 0b0001xx).
pub fn exception_data_abort_is_translate_fault(iss: u64) -> (r: bool)
    ensures
        r == (iss & 0x3c == 4),
{
    iss & 0x3c == 4
}

/// Whether the abort is a permission fault (DFSC 0b0011xx).
pub fn exception_data_abort_is_permission_fault(iss: u64) -> (r: bool)
    ensures
        r == (iss & 0x3c == 12),
{
    iss & 0x3c == 12
}

/// Size of the access in bytes, from ISS.SAS.
pub fn exception_data_abort_access_width(iss: u64) -> (r: u64)
    ensures
        r == 1u64 << ((iss >> 22u64) & 3),
        r == 1 || r == 2 || r == 4 || r == 8,
{
    let sas = (iss >> 22u64) & 0b11;
    assert(sas <= 3) by (bit_vector)
        requires
            sas == (iss >> 22u64) & 0b11,
    ;
    assert(1u64 << sas == 1 || 1u64 << sas == 2 || 1u64 << sas == 4 || 1u64 << sas == 8)
        by (bit_vector)
        requires
            sas <= 3,
    ;
    1u64 << sas
}

/// Whether the access is a write (ISS.WnR).
pub fn exception_data_abort_access_is_write(iss: u64) -> (r: bool)
    ensures
        r == (iss & 0x40 != 0),
{
    iss & 0x40 != 0
}

/// Whether the fault happened on a stage-1 table walk (ISS.S1PTW).
pub fn exception_data_abort_access_in_stage2(iss: u64) -> (r: bool)
    ensures
        r == (iss & 0x80 != 0),
{
    iss & 0x80 != 0
}

/// The transfer register of the access (ISS.SRT).
pub fn exception_data_abort_access_reg(iss: u64) -> (r: u64)
    ensures
        r == (iss >> 16u64) & 0x1f,
        r < 32,
{
    assert((iss >> 16u64) & 0x1f < 32) by (bit_vector);
    (iss >> 16u64) & 0b11111
}

/// Width of the transfer register in bytes: 8 when ISS.SF is set, else 4.
pub fn exception_data_abort_access_reg_width(iss: u64) -> (r: u64)
    ensures
        r == 4 + 4 * ((iss >> 15u64) & 1),
        r == 4 || r == 8,
{
    assert((iss >> 15u64) & 1 <= 1) by (bit_vector);
    4 + 4 * ((iss >> 15u64) & 1)
}

/// Whether the loaded value is sign-extended (ISS.SSE).
pub fn exception_data_abort_access_is_sign_ext(iss: u64) -> (r: bool)
    ensures
        r == ((iss >> 21u64) & 1 != 0),
{
    ((iss >> 21u64) & 1) != 0
}

/// The faulting IPA page frame in HPFAR layout from a PAR_EL1 value:
/// PA[51:12] moved to bits [43:4].
pub fn par_to_hpfar(par: u64) -> (r: u64)
    ensures
        r == (par & 0x000f_ffff_ffff_f000) >> 8u64,
{
    (par & 0x000f_ffff_ffff_f000) >> 8u64
}

/// Whether the stage-1 translation that PAR_EL1 reports aborted (PAR.F).
pub fn par_translation_aborted(par: u64) -> (r: bool)
    ensures
        r == (par & 1 != 0),
{
    par & 1 != 0
}

/// Whether the faulting IPA must be found by translating FAR_EL2 again:
/// a permission fault that did not happen on a stage-1 table walk.
pub fn fault_needs_translation(iss: u64) -> (r: bool)
    ensures
        r == (iss & ESR_ELX_S1PTW == 0 && iss & 0x3c == 12),
{
    (iss & ESR_ELX_S1PTW) == 0 && exception_data_abort_is_permission_fault(iss)
}

/// The faulting IPA: the page frame from HPFAR_EL2 (or from its stand-in)
/// and the page offset from FAR_EL2.
pub fn exception_fault_addr(far: u64, hpfar: u64) -> (r: u64)
    ensures
        r == (far & 0xfff) | (hpfar << 8u64),
{
    (far & 0xfff) | (hpfar << 8u64)
}

/// A trapped system-register access, decoded from its syndrome.
#[derive(Clone, Copy, Debug, PartialEq, Eq, Structural)]
pub struct SysRegAccess {
    pub op0: u64,
    pub op1: u64,
    pub crn: u64,
    pub crm: u64,
    pub op2: u64,
    pub reg: u64,
    pub read: bool,
}

/// Decodes the ISS of a trapped MSR/MRS: Op0 [21:20], Op2 [19:17],
/// Op1 [16:14], CRn [13:10], Rt [9:5], CRm [4:1], direction [0] (set for a
/// read).
pub fn decode_sysreg_iss(iss: u64) -> (r: SysRegAccess)
    ensures
        r.op0 == (iss >> 20u64) & 3,
        r.op2 == (iss >> 17u64) & 7,
        r.op1 == (iss >> 14u64) & 7,
        r.crn == (iss >> 10u64) & 0xf,
        r.reg == (iss >> 5u64) & 0x1f,
        r.crm == (iss >> 1u64) & 0xf,
        r.read == (iss & 1 == 1),
        r.reg < 32,
{
    assert((iss >> 5u64) & 0x1f < 32) by (bit_vector);
    SysRegAccess {
        op0: (iss >> 20u64) & 3,
        op2: (iss >> 17u64) & 7,
        op1: (iss >> 14u64) & 7,
        crn: (iss >> 10u64) & 0xf,
        reg: (iss >> 5u64) & 0x1f,
        crm: (iss >> 1u64) & 0xf,
        read: iss & 1 == 1,
    }
}

/// The key a system-register emulator is registered under: the encoding
/// (op0, op1, CRn, CRm, op2) placed where a trapped access's syndrome holds
/// it.
pub fn sysreg_encode_addr(op0: u64, op1: u64, crn: u64, crm: u64, op2: u64) -> (r: u64)
    requires
        op0 < 4,
        op1 < 8,
        crn < 16,
        crm < 16,
        op2 < 8,
    ensures
        r == op0 * 0x100000 + op2 * 0x20000 + op1 * 0x4000 + crn * 0x400 + crm * 2,
{
    op0 * 0x100000 + op2 * 0x20000 + op1 * 0x4000 + crn * 0x400 + crm * 2
}

/// The emulator key of a decoded access.
pub fn sysreg_access_key(a: &SysRegAccess) -> (r: Option<u64>)
    ensures
        r == (if a.op0 < 4 && a.op1 < 8 && a.crn < 16 && a.crm < 16 && a.op2 < 8 {
            Some(
                (a.op0 * 0x100000 + a.op2 * 0x20000 + a.op1 * 0x4000 + a.crn * 0x400 + a.crm
                    * 2) as u64,
            )
        } else {
            None
        }),
{
    if a.op0 < 4 && a.op1 < 8 && a.crn < 16 && a.crm < 16 && a.op2 < 8 {
        Some(sysreg_encode_addr(a.op0, a.op1, a.crn, a.crm, a.op2))
    } else {
        None
    }
}

} // verus!
