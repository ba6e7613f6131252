use rust_shyper::config::{VmConfigEntry, VmCpuConfig};
use rust_shyper::emu::EmuDevs;
use rust_shyper::ipi::{ipi_drain, ipi_send_msg, IpiInnerMsg, IpiMailboxes, IpiMessage, IpiType, PowerEvent};
use rust_shyper::psci::{psci_ipi_handler, PsciIpiOutcome};
use rust_shyper::sched::{pop_vcpu_through_vmid, resched, set_active_vcpu, vcpu_pool_append, Pcpu, VCPU_POOL_MAX};
use rust_shyper::timer::{
    remove_timer_event, start_timer_event, timer_irq_handler, timer_list_pop, timer_notify_after, TimerEvent,
    TimerList, TIME_SLICE_MS,
};
use rust_shyper::vcpu::{Aarch64ContextFrame, BankedRegs, FpsimdState, GenericTimerContext, Vcpu, VcpuState, VmContext};
use rust_shyper::vm::{
    push_vm, remove_vm, vm, vm_if_cmp_mac, vm_if_get_cpu_id, vm_if_get_state, vm_if_reset, vm_if_set_cpu_id,
    vm_if_set_ivc_arg, vm_if_set_state, Vm, VmIfList, VmInterface, VmList, VmState,
};

fn vm_with_cpus(id: usize, num: usize, bitmap: usize, master: Option<usize>) -> Vm {
    let mut v = Vm::new(id, 1000);
    let mut cfg = VmConfigEntry::new("g".to_string(), String::new(), 0, 0x80080000, 0, 0);
    cfg.cpu = VmCpuConfig { num, allocate_bitmap: bitmap, master };
    v.set_config_entry(Some(cfg));
    for i in 0..num {
        v.push_vcpu(Vcpu::new(id, i));
    }
    v
}

#[test]
fn master_vcpu_goes_to_master_core() {
    let mut v = vm_with_cpus(1, 2, 0b0110, Some(2));
    let mut vif = VmInterface::default();
    assert_eq!(v.select_vcpu2assign(1, &mut vif), Some(1));
    assert_eq!(vif.master_cpu_id, None);
    assert_eq!(v.select_vcpu2assign(2, &mut vif), Some(0));
    assert_eq!(vif.master_cpu_id, Some(2));
    assert_eq!(v.cpu_num(), 2);
    assert_eq!(v.ncpu(), 0b0110);
    assert_eq!(v.select_vcpu2assign(3, &mut vif), None);
    assert_eq!(v.cpu_num(), 2);
}

#[test]
fn master_vcpu_goes_to_last_core_without_master() {
    let mut v = vm_with_cpus(1, 2, 0b0011, None);
    let mut vif = VmInterface::default();
    assert_eq!(v.select_vcpu2assign(0, &mut vif), Some(1));
    assert_eq!(v.select_vcpu2assign(1, &mut vif), Some(0));
    assert_eq!(vif.master_cpu_id, Some(1));
    assert_eq!(v.select_vcpu2assign(1, &mut vif), None);
}

#[test]
fn vcpu_and_pcpu_ids_and_masks() {
    let mut v = vm_with_cpus(1, 2, 0b0110, Some(2));
    v.vcpu_list[0].phys_id = 2;
    v.vcpu_list[1].phys_id = 1;
    v.cpu_num = 2;
    assert_eq!(v.vcpuid_to_pcpuid(0), Ok(2));
    assert_eq!(v.vcpuid_to_pcpuid(1), Ok(1));
    assert_eq!(v.vcpuid_to_pcpuid(2), Err(()));
    assert_eq!(v.pcpuid_to_vcpuid(1), Ok(1));
    assert_eq!(v.pcpuid_to_vcpuid(3), Err(()));
    assert_eq!(v.vcpu_to_pcpu_mask(0b01, 2), 0b100);
    assert_eq!(v.vcpu_to_pcpu_mask(0b10, 2), 0b010);
    assert_eq!(v.vcpu_to_pcpu_mask(0b11, 2), 0b110);
    assert_eq!(v.vcpu_to_pcpu_mask(0b100, 3), 0);
    assert_eq!(v.pcpu_to_vcpu_mask(0b100, 4), 0b01);
    assert_eq!(v.pcpu_to_vcpu_mask(0b110, 4), 0b11);
    assert_eq!(v.pcpu_to_vcpu_mask(0b1001, 4), 0);
}

#[test]
fn virtual_counter_resumes_where_it_stopped() {
    let mut v = Vm::new(1, 1000);
    assert_eq!(v.update_vtimer_offset(5000), 5000);
    assert_eq!(v.update_vtimer_offset(6000), 5000);
    v.update_vtimer(7000);
    assert_eq!(v.running, 1);
    v.update_vtimer(8000);
    assert_eq!(v.vtimer, 3000);
    let off = v.update_vtimer_offset(20000);
    assert_eq!(off, 17000);
    assert_eq!(20000 - off, 3000);
}

#[test]
fn vm_registry_and_devices() {
    let mut list = VmList::new();
    assert_eq!(push_vm(&mut list, 0, 0), Ok(()));
    assert_eq!(push_vm(&mut list, 1, 0), Ok(()));
    assert_eq!(push_vm(&mut list, 1, 0), Err(()));
    assert_eq!(vm(&list, 1).unwrap().id(), 1);
    assert!(vm(&list, 7).is_none());
    let removed = remove_vm(&mut list, 0);
    assert_eq!(removed.id(), 0);
    assert_eq!(list.vms.len(), 1);

    let mut v = Vm::new(3, 0);
    v.set_emu_devs(2, EmuDevs::VirtioNet);
    assert_eq!(v.emu_devs, vec![EmuDevs::Empty, EmuDevs::Empty, EmuDevs::VirtioNet]);
    v.set_emu_devs(0, EmuDevs::Vgic);
    v.set_intc_dev_id(0);
    assert!(v.has_vgic());
    v.set_emu_devs(1, EmuDevs::VirtioBlk);
    assert_eq!(v.emu_blk_dev(), EmuDevs::VirtioBlk);
    assert_eq!(v.emu_net_dev(0), EmuDevs::VirtioNet);
    assert_eq!(v.emu_net_dev(1), EmuDevs::Empty);
    v.set_int_bit_map(48);
    assert!(v.has_interrupt(48));
    assert!(!v.has_interrupt(49));
    assert!(!v.has_interrupt(100_000));
}

#[test]
fn vm_interface_table() {
    let mut l = VmIfList::new();
    vm_if_set_state(&mut l, 1, VmState::Active);
    assert_eq!(vm_if_get_state(&l, 1), VmState::Active);
    vm_if_set_cpu_id(&mut l, 1, 2);
    vm_if_set_cpu_id(&mut l, 1, 3);
    assert_eq!(vm_if_get_cpu_id(&l, 1), Some(2));
    l.ifs[1].mac = [1, 2, 3, 4, 5, 6];
    assert!(vm_if_cmp_mac(&l, 1, &[1, 2, 3, 4, 5, 6, 7]));
    assert!(!vm_if_cmp_mac(&l, 1, &[1, 2, 3, 4, 5, 0]));
    vm_if_set_ivc_arg(&mut l, 1, 0x1000);
    vm_if_reset(&mut l, 1);
    assert_eq!(vm_if_get_cpu_id(&l, 1), None);
    assert_eq!(l.ifs[1].ivc_arg, 0);
    assert_eq!(vm_if_get_state(&l, 1), VmState::Pending);
}

#[test]
fn active_vcpu_runs_on_its_core() {
    let mut cpu = Pcpu::new(1);
    assert!(cpu.active_vcpu().is_none());
    assert!(vcpu_pool_append(&mut cpu, Vcpu::new(1, 0)));
    assert!(vcpu_pool_append(&mut cpu, Vcpu::new(2, 0)));
    let a = cpu.active_vcpu().unwrap();
    assert_eq!(a.phys_id, 1);
    assert_eq!(a.state, VcpuState::VcpuPend);
    set_active_vcpu(&mut cpu, 1);
    assert_eq!(cpu.active_vcpu().unwrap().vm_id, 2);
    assert_eq!(cpu.active_vcpu().unwrap().phys_id, 1);
    assert_eq!(pop_vcpu_through_vmid(&cpu, 2), Some(1));
    assert_eq!(pop_vcpu_through_vmid(&cpu, 9), None);
}

#[test]
fn pool_is_bounded() {
    let mut cpu = Pcpu::new(0);
    for i in 0..VCPU_POOL_MAX {
        assert!(vcpu_pool_append(&mut cpu, Vcpu::new(i, 0)));
    }
    assert!(!vcpu_pool_append(&mut cpu, Vcpu::new(9, 0)));
    assert_eq!(cpu.vcpu_pool.content.len(), VCPU_POOL_MAX);
}

#[test]
fn timer_tick_preempts_to_next_vcpu() {
    let mut cpu = Pcpu::new(2);
    assert!(vcpu_pool_append(&mut cpu, Vcpu::new(1, 0)));
    assert!(vcpu_pool_append(&mut cpu, Vcpu::new(2, 0)));
    let mut list = TimerList::new();
    start_timer_event(&mut list, 100, 50, 7);
    start_timer_event(&mut list, 100, 10, 8);
    start_timer_event(&mut list, 100, 500, 9);
    let (fired, rearm) = timer_irq_handler(&mut cpu, &mut list, 200);
    assert_eq!(fired, vec![TimerEvent { timeout: 110, id: 8 }, TimerEvent { timeout: 150, id: 7 }]);
    assert_eq!(rearm, TIME_SLICE_MS);
    assert_eq!(list.events, vec![TimerEvent { timeout: 600, id: 9 }]);
    assert_eq!(cpu.active_vcpu().unwrap().vm_id, 2);
    let _ = timer_irq_handler(&mut cpu, &mut list, 300);
    assert_eq!(cpu.active_vcpu().unwrap().vm_id, 1);
    resched(&mut cpu);
    assert_eq!(cpu.vcpu_pool.active_idx, 1);
}

#[test]
fn timer_list_pop_and_remove() {
    let mut list = TimerList::new();
    assert_eq!(timer_list_pop(&mut list, 10), None);
    start_timer_event(&mut list, 0, 20, 1);
    start_timer_event(&mut list, 0, 20, 2);
    start_timer_event(&mut list, 0, 30, 1);
    assert_eq!(timer_list_pop(&mut list, 10), None);
    assert_eq!(timer_list_pop(&mut list, 20), Some(TimerEvent { timeout: 20, id: 1 }));
    remove_timer_event(&mut list, 1);
    assert_eq!(list.events, vec![TimerEvent { timeout: 20, id: 2 }]);
    assert!(timer_notify_after(10));
    assert!(!timer_notify_after(0));
}

#[test]
fn save_then_restore_gives_back_every_register() {
    let timer = GenericTimerContext {
        cntvoff_el2: 5,
        cntp_cval_el0: 6,
        cntv_cval_el0: 7,
        cntkctl_el1: 8,
        cntp_ctl_el0: 9,
        cntv_ctl_el0: 10,
        cntp_tval_el0: 11,
        cntv_tval_el0: 12,
    };
    let mut fp = FpsimdState::default();
    fp.fpsimd[3] = 0xdead;
    fp.fpsr = 0x10;
    let hw = BankedRegs {
        generic_timer: timer,
        vmpidr_el2: 0x8000_0001,
        sp_el0: 1,
        sp_el1: 2,
        elr_el1: 3,
        spsr_el1: 4,
        sctlr_el1: 0x30d0_0800,
        actlr_el1: 5,
        cpacr_el1: 6,
        ttbr0_el1: 7,
        ttbr1_el1: 8,
        tcr_el1: 9,
        esr_el1: 10,
        far_el1: 11,
        par_el1: 12,
        mair_el1: 13,
        amair_el1: 14,
        vbar_el1: 15,
        contextidr_el1: 16,
        tpidr_el0: 17,
        tpidr_el1: 18,
        tpidrro_el0: 19,
        pmcr_el0: 20,
        hcr_el2: 0x80080019,
        fpsimd: fp,
    };
    let mut ctx = VmContext::new();
    assert_eq!(ctx.sctlr_el1, 0x30C50830);
    ctx.ext_regs_store(&hw);
    let mut out = BankedRegs { vmpidr_el2: 0, sp_el0: 99, hcr_el2: 0, fpsimd: FpsimdState::default(), ..hw };
    ctx.ext_regs_restore(&mut out);
    assert_eq!(out.vmpidr_el2, hw.vmpidr_el2);
    assert_eq!(out.sp_el0, hw.sp_el0);
    assert_eq!(out.hcr_el2, hw.hcr_el2);
    assert_eq!(out.sctlr_el1, hw.sctlr_el1);
    assert_eq!(out.generic_timer, hw.generic_timer);
    assert_eq!(out.fpsimd.fpsimd, hw.fpsimd.fpsimd);
    assert_eq!(out.fpsimd.fpsr, 0x10);
}

#[test]
fn context_frame_registers() {
    let mut f = Aarch64ContextFrame::default();
    assert_eq!(f.spsr, 0x3c5);
    f.set_gpr(5, 42);
    f.set_argument(0x8000_0000);
    f.set_exception_pc(0x8008_0000);
    f.set_stack_pointer(0x1000);
    assert_eq!(f.gpr(5), 42);
    assert_eq!(f.gpr(0), 0x8000_0000);
    assert_eq!(f.exception_pc(), 0x8008_0000);
    assert_eq!(f.stack_pointer(), 0x1000);
    assert_eq!(Aarch64ContextFrame::new_privileged().spsr, 0x349);
}

#[test]
fn vm_reboot_power_messages_reach_each_core_in_order() {
    let mut boxes = IpiMailboxes::new(4);
    for core in [1usize, 2] {
        let m = IpiInnerMsg::Power { src: 1, event: PowerEvent::Reset, entry: 0, context: 0 };
        assert!(ipi_send_msg(&mut boxes, core, IpiType::IpiTPower, m));
    }
    assert!(!ipi_send_msg(&mut boxes, 9, IpiType::IpiTPower, IpiInnerMsg::MediatedMsg { src_id: 0 }));
    let got = ipi_drain(&mut boxes, 2);
    assert_eq!(got.len(), 1);
    assert_eq!(got[0].ipi_type, IpiType::IpiTPower);
    assert!(ipi_drain(&mut boxes, 2).is_empty());
    assert!(ipi_drain(&mut boxes, 3).is_empty());
}

#[test]
fn ipi_delivery_keeps_order_per_receiver() {
    let mut boxes = IpiMailboxes::new(3);
    assert!(ipi_send_msg(&mut boxes, 1, IpiType::IpiTIntc, IpiInnerMsg::Intc { vm_id: 1, int_id: 0, val: 1 }));
    assert!(ipi_send_msg(&mut boxes, 2, IpiType::IpiTHvc, IpiInnerMsg::HvcMsg { src_vmid: 0, trgt_vmid: 2, fid: 3, event: 0x31 }));
    assert!(ipi_send_msg(&mut boxes, 1, IpiType::IpiTIntc, IpiInnerMsg::Intc { vm_id: 1, int_id: 0, val: 2 }));
    assert!(ipi_send_msg(&mut boxes, 1, IpiType::IpiTIntInject, IpiInnerMsg::IntInjectMsg { vm_id: 1, int_id: 48 }));
    let got: Vec<IpiInnerMsg> = ipi_drain(&mut boxes, 1).iter().map(|m| m.ipi_message).collect();
    assert_eq!(
        got,
        vec![
            IpiInnerMsg::Intc { vm_id: 1, int_id: 0, val: 1 },
            IpiInnerMsg::Intc { vm_id: 1, int_id: 0, val: 2 },
            IpiInnerMsg::IntInjectMsg { vm_id: 1, int_id: 48 },
        ]
    );
    assert_eq!(ipi_drain(&mut boxes, 2).len(), 1);
}

#[test]
fn power_messages_wake_or_reset_vcpus() {
    let mut cpu = Pcpu::new(1);
    assert!(vcpu_pool_append(&mut cpu, Vcpu::new(1, 0)));
    assert!(vcpu_pool_append(&mut cpu, Vcpu::new(2, 1)));
    let mut v = cpu.vcpu_pool.content[1];
    v.state = VcpuState::VcpuInv;
    cpu.vcpu_pool.content[1] = v;
    let on = IpiMessage {
        ipi_type: IpiType::IpiTPower,
        ipi_message: IpiInnerMsg::Power { src: 2, event: PowerEvent::CpuOn, entry: 0x8008_0000, context: 9 },
    };
    assert_eq!(psci_ipi_handler(&mut cpu, &on, 0, 0), PsciIpiOutcome::Woken(1));
    assert_eq!(cpu.vcpu_pool.content[1].context.exception_pc(), 0x8008_0000);
    assert_eq!(cpu.vcpu_pool.content[1].context.gpr(0), 9);
    assert_eq!(cpu.vcpu_pool.content[1].state, VcpuState::VcpuPend);
    assert_eq!(psci_ipi_handler(&mut cpu, &on, 0, 0), PsciIpiOutcome::AlreadyRunning(1));
    let reset = IpiMessage {
        ipi_type: IpiType::IpiTPower,
        ipi_message: IpiInnerMsg::Power { src: 1, event: PowerEvent::Reset, entry: 0, context: 0 },
    };
    assert_eq!(psci_ipi_handler(&mut cpu, &reset, 0x4008_0000, 0x4000_0000), PsciIpiOutcome::Reset(0));
    assert_eq!(cpu.active_vcpu().unwrap().context.exception_pc(), 0x4008_0000);
    assert_eq!(cpu.active_vcpu().unwrap().context.gpr(0), 0x4000_0000);
    let other = IpiMessage { ipi_type: IpiType::IpiTPower, ipi_message: IpiInnerMsg::Power { src: 7, event: PowerEvent::CpuOn, entry: 0, context: 0 } };
    assert_eq!(psci_ipi_handler(&mut cpu, &other, 0, 0), PsciIpiOutcome::NoVcpu);
    let not_power = IpiMessage { ipi_type: IpiType::IpiTVMM, ipi_message: IpiInnerMsg::MediatedMsg { src_id: 1 } };
    assert_eq!(psci_ipi_handler(&mut cpu, &not_power, 0, 0), PsciIpiOutcome::NotPower);
}

#[test]
fn interrupt_controller_mode_of_vcpus() {
    let mut v = vm_with_cpus(1, 2, 0b11, Some(0));
    v.init_intc_mode(true);
    assert_eq!(v.vcpu_list[1].gich_ctlr, 0x201);
    assert_eq!(v.vcpu_list[1].vm_context.hcr_el2, 0x80080019);
    v.init_intc_mode(false);
    assert_eq!(v.vcpu_list[0].gich_ctlr, 0x1);
    assert_eq!(v.vcpu_list[0].vm_context.hcr_el2, 0x80080001);
}
