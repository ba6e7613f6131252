//! Virtual CPUs: the integer trap frame, the banked EL1 context saved and
//! restored on a world switch, and the vCPU record itself.
use vstd::prelude::*;

verus! {

/// SPSR of a fresh guest frame: EL1h with D, A, I and F masked.
pub const SPSR_EL1H_MASKED: u64 = 0x3c5;

/// SPSR of a fresh hypervisor frame: EL2h with D, A and F masked.
pub const SPSR_EL2H_MASKED: u64 = 0x349;

/// SCTLR_EL1 value a guest starts with (MMU and caches off, RES1 bits set).
pub const SCTLR_EL1_RESET: u32 = 0x30C50830;

/// The integer register frame of a trapped context: `x0`..`x30`, SPSR, ELR
/// and SP.
#[derive(Clone, Copy, Debug)]
pub struct Aarch64ContextFrame {
    pub gpr: [u64; 31],
    pub spsr: u64,
    pub elr: u64,
    pub sp: u64,
}

impl Aarch64ContextFrame {
    /// A guest frame: all registers zero, EL1h with interrupts masked.
    pub fn default() -> (r: Self)
        ensures
            forall|i: int| 0 <= i < 31 ==> r.gpr@[i] == 0,
            r.spsr == SPSR_EL1H_MASKED,
            r.elr == 0,
            r.sp == 0,
    {
        Aarch64ContextFrame { gpr: [0u64; 31], spsr: SPSR_EL1H_MASKED, elr: 0, sp: 0 }
    }

    /// A hypervisor frame: all registers zero, EL2h.
    pub fn new_privileged() -> (r: Self)
        ensures
            forall|i: int| 0 <= i < 31 ==> r.gpr@[i] == 0,
            r.spsr == SPSR_EL2H_MASKED,
            r.elr == 0,
            r.sp == 0,
    {
        Aarch64ContextFrame { gpr: [0u64; 31], spsr: SPSR_EL2H_MASKED, elr: 0, sp: 0 }
    }

    pub fn exception_pc(&self) -> (r: usize)
        ensures
            r == self.elr as usize,
    {
        self.elr as usize
    }

    pub fn set_exception_pc(&mut self, pc: usize)
        ensures
            final(self).elr == pc as u64,
            final(self).gpr == old(self).gpr,
            final(self).spsr == old(self).spsr,
            final(self).sp == old(self).sp,
    {
        self.elr = pc as u64;
    }

    pub fn stack_pointer(&self) -> (r: usize)
        ensures
            r == self.sp as usize,
    {
        self.sp as usize
    }

    pub fn set_stack_pointer(&mut self, sp: usize)
        ensures
            final(self).sp == sp as u64,
            final(self).gpr == old(self).gpr,
            final(self).spsr == old(self).spsr,
            final(self).elr == old(self).elr,
    {
        self.sp = sp as u64;
    }

    /// Sets `x0`, the register that carries an entry argument.
    pub fn set_argument(&mut self, arg: usize)
        ensures
            final(self).gpr@ == old(self).gpr@.update(0, arg as u64),
            final(self).spsr == old(self).spsr,
            final(self).elr == old(self).elr,
            final(self).sp == old(self).sp,
    {
        self.gpr[0] = arg as u64;
    }

    pub fn set_gpr(&mut self, index: usize, val: usize)
        requires
            index < 31,
        ensures
            final(self).gpr@ == old(self).gpr@.update(index as int, val as u64),
            final(self).spsr == old(self).spsr,
            final(self).elr == old(self).elr,
            final(self).sp == old(self).sp,
    {
        self.gpr[index] = val as u64;
    }

    pub fn gpr(&self, index: usize) -> (r: usize)
        requires
            index < 31,
        ensures
            r == self.gpr@[index as int] as usize,
    {
        self.gpr[index] as usize
    }
}

/// Floating-point and SIMD state: 32 128-bit registers, FPSR and FPCR.
#[derive(Clone, Copy, Debug)]
pub struct FpsimdState {
    pub fpsimd: [u64; 64],
    pub fpsr: u32,
    pub fpcr: u32,
}

impl FpsimdState {
    pub fn default() -> (r: Self)
        ensures
            forall|i: int| 0 <= i < 64 ==> r.fpsimd@[i] == 0,
            r.fpsr == 0,
            r.fpcr == 0,
    {
        FpsimdState { fpsimd: [0u64; 64], fpsr: 0, fpcr: 0 }
    }

    pub fn reset(&mut self)
        ensures
            forall|i: int| 0 <= i < 64 ==> final(self).fpsimd@[i] == 0,
            final(self).fpsr == 0,
            final(self).fpcr == 0,
    {
        *self = FpsimdState::default();
    }
}

/// Generic-timer registers of a guest.
#[derive(Clone, Copy, Debug, PartialEq, Eq, Structural)]
pub struct GenericTimerContext {
    pub cntvoff_el2: u64,
    pub cntp_cval_el0: u64,
    pub cntv_cval_el0: u64,
    pub cntkctl_el1: u32,
    pub cntp_ctl_el0: u32,
    pub cntv_ctl_el0: u32,
    pub cntp_tval_el0: u32,
    pub cntv_tval_el0: u32,
}

/// The registers that a world switch saves and restores: the EL1/EL0
/// system registers, the generic timer, HCR_EL2 and the FP/SIMD state, as
/// one core holds them.
#[derive(Clone, Copy, Debug)]
pub struct BankedRegs {
    pub generic_timer: GenericTimerContext,
    pub vmpidr_el2: u64,
    pub sp_el0: u64,
    pub sp_el1: u64,
    pub elr_el1: u64,
    pub spsr_el1: u32,
    pub sctlr_el1: u32,
    pub actlr_el1: u64,
    pub cpacr_el1: u32,
    pub ttbr0_el1: u64,
    pub ttbr1_el1: u64,
    pub tcr_el1: u64,
    pub esr_el1: u32,
    pub far_el1: u64,
    pub par_el1: u64,
    pub mair_el1: u64,
    pub amair_el1: u64,
    pub vbar_el1: u64,
    pub contextidr_el1: u32,
    pub tpidr_el0: u64,
    pub tpidr_el1: u64,
    pub tpidrro_el0: u64,
    pub pmcr_el0: u64,
    pub hcr_el2: u64,
    pub fpsimd: FpsimdState,
}

/// Whether two register files hold the same value in every register.
pub open spec fn same_banked_regs(a: BankedRegs, b: BankedRegs) -> bool {
    &&& a.generic_timer == b.generic_timer
    &&& a.vmpidr_el2 == b.vmpidr_el2
    &&& a.sp_el0 == b.sp_el0
    &&& a.sp_el1 == b.sp_el1
    &&& a.elr_el1 == b.elr_el1
    &&& a.spsr_el1 == b.spsr_el1
    &&& a.sctlr_el1 == b.sctlr_el1
    &&& a.actlr_el1 == b.actlr_el1
    &&& a.cpacr_el1 == b.cpacr_el1
    &&& a.ttbr0_el1 == b.ttbr0_el1
    &&& a.ttbr1_el1 == b.ttbr1_el1
    &&& a.tcr_el1 == b.tcr_el1
    &&& a.esr_el1 == b.esr_el1
    &&& a.far_el1 == b.far_el1
    &&& a.par_el1 == b.par_el1
    &&& a.mair_el1 == b.mair_el1
    &&& a.amair_el1 == b.amair_el1
    &&& a.vbar_el1 == b.vbar_el1
    &&& a.contextidr_el1 == b.contextidr_el1
    &&& a.tpidr_el0 == b.tpidr_el0
    &&& a.tpidr_el1 == b.tpidr_el1
    &&& a.tpidrro_el0 == b.tpidrro_el0
    &&& a.pmcr_el0 == b.pmcr_el0
    &&& a.hcr_el2 == b.hcr_el2
    &&& a.fpsimd.fpsimd@ == b.fpsimd.fpsimd@
    &&& a.fpsimd.fpsr == b.fpsimd.fpsr
    &&& a.fpsimd.fpcr == b.fpsimd.fpcr
}

/// The saved EL1 context of a vCPU.
#[derive(Clone, Copy, Debug)]
pub struct VmContext {
    pub generic_timer: GenericTimerContext,
    pub vmpidr_el2: u64,
    pub sp_el0: u64,
    pub sp_el1: u64,
    pub elr_el1: u64,
    pub spsr_el1: u32,
    pub sctlr_el1: u32,
    pub actlr_el1: u64,
    pub cpacr_el1: u32,
    pub ttbr0_el1: u64,
    pub ttbr1_el1: u64,
    pub tcr_el1: u64,
    pub esr_el1: u32,
    pub far_el1: u64,
    pub par_el1: u64,
    pub mair_el1: u64,
    pub amair_el1: u64,
    pub vbar_el1: u64,
    pub contextidr_el1: u32,
    pub tpidr_el0: u64,
    pub tpidr_el1: u64,
    pub tpidrro_el0: u64,
    pub hcr_el2: u64,
    pub cptr_el2: u64,
    pub hstr_el2: u64,
    pub pmcr_el0: u64,
    pub far_el2: u64,
    pub hpfar_el2: u64,
    pub fpsimd: FpsimdState,
}

/// The register file that restoring `ctx` produces.
pub open spec fn restored_regs(ctx: VmContext) -> BankedRegs {
    BankedRegs {
        generic_timer: ctx.generic_timer,
        vmpidr_el2: ctx.vmpidr_el2,
        sp_el0: ctx.sp_el0,
        sp_el1: ctx.sp_el1,
        elr_el1: ctx.elr_el1,
        spsr_el1: ctx.spsr_el1,
        sctlr_el1: ctx.sctlr_el1,
        actlr_el1: ctx.actlr_el1,
        cpacr_el1: ctx.cpacr_el1,
        ttbr0_el1: ctx.ttbr0_el1,
        ttbr1_el1: ctx.ttbr1_el1,
        tcr_el1: ctx.tcr_el1,
        esr_el1: ctx.esr_el1,
        far_el1: ctx.far_el1,
        par_el1: ctx.par_el1,
        mair_el1: ctx.mair_el1,
        amair_el1: ctx.amair_el1,
        vbar_el1: ctx.vbar_el1,
        contextidr_el1: ctx.contextidr_el1,
        tpidr_el0: ctx.tpidr_el0,
        tpidr_el1: ctx.tpidr_el1,
        tpidrro_el0: ctx.tpidrro_el0,
        pmcr_el0: ctx.pmcr_el0,
        hcr_el2: ctx.hcr_el2,
        fpsimd: ctx.fpsimd,
    }
}

impl VmContext {
    /// A fresh context: every register zero but SCTLR_EL1 at its reset value.
    pub fn new() -> (r: Self)
        ensures
            r.sctlr_el1 == SCTLR_EL1_RESET,
            r.hcr_el2 == 0,
            r.elr_el1 == 0,
            r.sp_el1 == 0,
    {
        let timer = GenericTimerContext {
            cntvoff_el2: 0,
            cntp_cval_el0: 0,
            cntv_cval_el0: 0,
            cntkctl_el1: 0,
            cntp_ctl_el0: 0,
            cntv_ctl_el0: 0,
            cntp_tval_el0: 0,
            cntv_tval_el0: 0,
        };
        VmContext {
            generic_timer: timer,
            vmpidr_el2: 0,
            sp_el0: 0,
            sp_el1: 0,
            elr_el1: 0,
            spsr_el1: 0,
            sctlr_el1: SCTLR_EL1_RESET,
            actlr_el1: 0,
            cpacr_el1: 0,
            ttbr0_el1: 0,
            ttbr1_el1: 0,
            tcr_el1: 0,
            esr_el1: 0,
            far_el1: 0,
            par_el1: 0,
            mair_el1: 0,
            amair_el1: 0,
            vbar_el1: 0,
            contextidr_el1: 0,
            tpidr_el0: 0,
            tpidr_el1: 0,
            tpidrro_el0: 0,
            hcr_el2: 0,
            cptr_el2: 0,
            hstr_el2: 0,
            pmcr_el0: 0,
            far_el2: 0,
            hpfar_el2: 0,
            fpsimd: FpsimdState::default(),
        }
    }

    pub fn reset(&mut self)
        ensures
            final(self).sctlr_el1 == SCTLR_EL1_RESET,
            final(self).hcr_el2 == 0,
            final(self).elr_el1 == 0,
            final(self).sp_el1 == 0,
    {
        *self = VmContext::new();
    }

    /// Saves the core's banked registers `hw` into this context.
    pub fn ext_regs_store(&mut self, hw: &BankedRegs)
        ensures
            same_banked_regs(restored_regs(*final(self)), *hw),
            final(self).cptr_el2 == old(self).cptr_el2,
            final(self).hstr_el2 == old(self).hstr_el2,
            final(self).far_el2 == old(self).far_el2,
            final(self).hpfar_el2 == old(self).hpfar_el2,
    {
        self.vmpidr_el2 = hw.vmpidr_el2;
        self.sp_el0 = hw.sp_el0;
        self.sp_el1 = hw.sp_el1;
        self.elr_el1 = hw.elr_el1;
        self.spsr_el1 = hw.spsr_el1;
        self.sctlr_el1 = hw.sctlr_el1;
        self.cpacr_el1 = hw.cpacr_el1;
        self.ttbr0_el1 = hw.ttbr0_el1;
        self.ttbr1_el1 = hw.ttbr1_el1;
        self.tcr_el1 = hw.tcr_el1;
        self.esr_el1 = hw.esr_el1;
        self.far_el1 = hw.far_el1;
        self.par_el1 = hw.par_el1;
        self.mair_el1 = hw.mair_el1;
        self.amair_el1 = hw.amair_el1;
        self.vbar_el1 = hw.vbar_el1;
        self.contextidr_el1 = hw.contextidr_el1;
        self.tpidr_el0 = hw.tpidr_el0;
        self.tpidr_el1 = hw.tpidr_el1;
        self.tpidrro_el0 = hw.tpidrro_el0;
        self.pmcr_el0 = hw.pmcr_el0;
        self.hcr_el2 = hw.hcr_el2;
        self.actlr_el1 = hw.actlr_el1;
        self.generic_timer = hw.generic_timer;
        self.fpsimd = hw.fpsimd;
    }

    /// Loads this context into the core's banked registers `hw`.
    pub fn ext_regs_restore(&self, hw: &mut BankedRegs)
        ensures
            same_banked_regs(*final(hw), restored_regs(*self)),
    {
        hw.generic_timer = self.generic_timer;
        hw.vmpidr_el2 = self.vmpidr_el2;
        hw.sp_el0 = self.sp_el0;
        hw.sp_el1 = self.sp_el1;
        hw.elr_el1 = self.elr_el1;
        hw.spsr_el1 = self.spsr_el1;
        hw.sctlr_el1 = self.sctlr_el1;
        hw.cpacr_el1 = self.cpacr_el1;
        hw.ttbr0_el1 = self.ttbr0_el1;
        hw.ttbr1_el1 = self.ttbr1_el1;
        hw.tcr_el1 = self.tcr_el1;
        hw.esr_el1 = self.esr_el1;
        hw.far_el1 = self.far_el1;
        hw.par_el1 = self.par_el1;
        hw.mair_el1 = self.mair_el1;
        hw.amair_el1 = self.amair_el1;
        hw.vbar_el1 = self.vbar_el1;
        hw.contextidr_el1 = self.contextidr_el1;
        hw.tpidr_el0 = self.tpidr_el0;
        hw.tpidr_el1 = self.tpidr_el1;
        hw.tpidrro_el0 = self.tpidrro_el0;
        hw.pmcr_el0 = self.pmcr_el0;
        hw.hcr_el2 = self.hcr_el2;
        hw.actlr_el1 = self.actlr_el1;
        hw.fpsimd = self.fpsimd;
    }
}

/// Saving a core's registers into a context and restoring that context with
/// no guest execution in between gives back every register bit for bit.
pub proof fn lemma_store_then_restore(hw: BankedRegs, ctx: VmContext, hw_out: BankedRegs)
    requires
        same_banked_regs(restored_regs(ctx), hw),
        same_banked_regs(hw_out, restored_regs(ctx)),
    ensures
        same_banked_regs(hw_out, hw),
{
}

/// Scheduling state of a vCPU.
#[derive(Clone, Copy, Debug, PartialEq, Eq, Structural)]
pub enum VcpuState {
    VcpuInv,
    VcpuPend,
    VcpuAct,
    VcpuSleep,
}

/// A virtual CPU: its index in its VM, the VM it belongs to, the physical
/// core running it, its state and its saved contexts.
#[derive(Clone, Copy, Debug)]
pub struct Vcpu {
    pub id: usize,
    pub vm_id: usize,
    pub phys_id: usize,
    pub state: VcpuState,
    pub context: Aarch64ContextFrame,
    pub vm_context: VmContext,
    pub gich_ctlr: u32,
}

impl Vcpu {
    /// vCPU `id` of VM `vm_id`, not yet placed on a core.
    pub fn new(vm_id: usize, id: usize) -> (r: Self)
        ensures
            r.id == id,
            r.vm_id == vm_id,
            r.phys_id == 0,
            r.state == VcpuState::VcpuInv,
            r.gich_ctlr == 0,
    {
        Vcpu {
            id,
            vm_id,
            phys_id: 0,
            state: VcpuState::VcpuInv,
            context: Aarch64ContextFrame::default(),
            vm_context: VmContext::new(),
            gich_ctlr: 0,
        }
    }
}

} // verus!
