use rust_shyper::address::{vm_ipa2hva, Aarch64Arch, PageFrame};
use rust_shyper::board::{mpidr2cpuid, plat_desc, Platform, GICC_BASE, GICD_BASE};
use rust_shyper::cache::{CacheReg, vcache_ccsidr_el1_handler, vcache_clidr_el1_handler, vcache_csselr_el1_handler, 
    cache_flush_lines, cache_init, get_cache_info, init_cache_level, size_with_unit, vcache_ctr_el0_handler,
    Aarch64CacheInfo, CacheIndexed, CacheType,
};
use rust_shyper::config::VmConfigEntry;
use rust_shyper::exception::{
    decode_sysreg_iss, exception_class, exception_data_abort_access_is_write, exception_data_abort_access_reg,
    exception_data_abort_access_reg_width, exception_data_abort_access_width, exception_data_abort_is_permission_fault,
    exception_data_abort_is_translate_fault, exception_fault_addr, exception_iss, exception_next_instruction_step,
    fault_needs_translation, par_to_hpfar, sysreg_access_key, sysreg_encode_addr, ExceptionClass,
};
use rust_shyper::gic::{gic_is_priv, gic_is_sgi, interrupt_arch_enable, interrupt_arch_init, send_sgi_value, GicDistributor, IrqState};
use rust_shyper::hvc::{
    hvc_guest_handler, hvc_ipi_notifies, hvc_msg_slot, hvc_result_value, hvc_route, hvc_unpack, vmm_list_vm, HvcArgs,
    HvcDefaultMsg, HvcGuestMsg, HvcManageMsg, HvcRequest, HvcRoute, HVC_CONFIG, HVC_MEDIATED, HVC_VMM,
};
use rust_shyper::psci::{
    psci_vcpu_on, psci_vcpu_on_allowed, smc_guest_handler, PsciAction, PSCI_AFFINITY_INFO_64, PSCI_CPU_ON_64,
    PSCI_FEATURES, PSCI_MIGRATE_INFO_TYPE, PSCI_NOT_PRESENT, PSCI_NOT_SUPPORTED, PSCI_SYSTEM_OFF, PSCI_SYSTEM_RESET,
    PSCI_VERSION,
};
use rust_shyper::vcpu::{Vcpu, VcpuState};
use rust_shyper::vm::{push_vm, Vm, VmIfList, VmList};

fn args(x0: usize, x1: usize, x2: usize, x3: usize) -> HvcArgs {
    HvcArgs { x0, x1, x2, x3, x4: 0, x5: 0, x6: 0 }
}

#[test]
fn hva_alias_separates_vms() {
    assert_eq!(vm_ipa2hva(0, 0x4008_0000), 0x4008_0000);
    assert_eq!(vm_ipa2hva(1, 0x8000_0000), 0x8_8000_0000);
    assert_eq!(vm_ipa2hva(2, 0x8000_0000), 0x10_8000_0000);
    assert_ne!(vm_ipa2hva(1, 0x8000_0000), vm_ipa2hva(2, 0x8000_0000));
    assert_eq!(vm_ipa2hva(1, 0), 0);
    assert_eq!(vm_ipa2hva(1, 0x8_0000_0000), 0);
    assert_eq!(Aarch64Arch::vttbr(0x4000_0000, 3), (3u64 << 48) | 0x4000_0000);
    let f = PageFrame::new(0x1000, 2, 0x8000_1000);
    assert_eq!((f.hva(), f.pa()), (0x1000, 0x8000_1000));
}

#[test]
fn mvm_lists_itself_as_vm_zero() {
    let mut list = VmList::new();
    assert_eq!(push_vm(&mut list, 0, 0), Ok(()));
    let r = hvc_guest_handler(HVC_VMM, 0, args(0, 0, 0, 0));
    assert_eq!(r, Ok(HvcRequest::VmmListVm { list_ipa: 0 }));
    assert_eq!(vmm_list_vm(&list), 0b1);
    assert_eq!(push_vm(&mut list, 2, 0), Ok(()));
    assert_eq!(vmm_list_vm(&list), 0b101);
}

#[test]
fn hypercalls_decode_by_type_and_event() {
    assert_eq!(hvc_unpack(0x1104), (0x11, 4));
    assert_eq!(hvc_unpack(0x0104), (1, 4));
    assert_eq!(hvc_guest_handler(HVC_VMM, 4, args(1, 0, 0, 0)), Ok(HvcRequest::VmmRebootVm { vm_id: 1 }));
    assert_eq!(hvc_guest_handler(HVC_VMM, 2, args(1, 0, 0, 0)), Ok(HvcRequest::VmmBootVm { vm_id: 1 }));
    assert_eq!(hvc_guest_handler(HVC_VMM, 12, args(1, 0, 0, 0)), Ok(HvcRequest::VmmMigrate));
    assert_eq!(hvc_guest_handler(HVC_VMM, 1, args(1, 0, 0, 0)), Err(()));
    assert_eq!(hvc_guest_handler(HVC_CONFIG, 0, args(0x9000, 0, 0, 0)), Ok(HvcRequest::ConfigAddVm { config_ipa: 0x9000 }));
    assert_eq!(
        hvc_guest_handler(HVC_CONFIG, 2, args(1, 1, 0b10, 1)),
        Ok(HvcRequest::ConfigCpu { vm_id: 1, num: 1, allocate_bitmap: 0b10, master: 1 })
    );
    assert_eq!(hvc_guest_handler(HVC_CONFIG, 11, args(0, 0, 0, 0)), Err(()));
    assert_eq!(hvc_guest_handler(HVC_MEDIATED, 0x31, args(0x100, 0, 0, 0)), Ok(HvcRequest::MediatedDevNotify { dev_ipa: 0x100 }));
    assert_eq!(hvc_guest_handler(HVC_MEDIATED, 0x32, args(0, 0, 0, 0)), Err(()));
    assert_eq!(hvc_guest_handler(0, 4, args(0, 0, 0, 0)), Ok(HvcRequest::SysTest));
    assert_eq!(hvc_guest_handler(0, 3, args(0, 0, 0, 0)), Err(()));
    assert_eq!(hvc_guest_handler(2, 7, args(0, 0, 0, 0)), Ok(HvcRequest::IvcShareMem));
    assert_eq!(hvc_guest_handler(0x40, 0, args(0, 0, 0, 0)), Err(()));
    assert_eq!(hvc_result_value(Ok(3)), 3);
    assert_eq!(hvc_result_value(Err(())), usize::MAX);
}

#[test]
fn notification_slots_wrap_within_the_page() {
    let mut l = VmIfList::new();
    assert_eq!(hvc_msg_slot(&mut l, 1), None);
    l.ifs[1].ivc_arg = 0x10000;
    l.ifs[1].ivc_arg_ptr = 0x10000;
    assert_eq!(hvc_msg_slot(&mut l, 1), Some(0x10200));
    assert_eq!(l.ifs[1].ivc_arg_ptr, 0x10200);
    l.ifs[1].ivc_arg_ptr = 0x10e00;
    assert_eq!(hvc_msg_slot(&mut l, 1), Some(0x10000));
    assert_eq!(hvc_route(Some(1), 1), Some(HvcRoute::Local));
    assert_eq!(hvc_route(Some(2), 1), Some(HvcRoute::Ipi(2)));
    assert_eq!(hvc_route(None, 1), None);
    assert!(hvc_ipi_notifies(HVC_MEDIATED, 0x31));
    assert!(hvc_ipi_notifies(HVC_CONFIG, 9));
    assert!(!hvc_ipi_notifies(HVC_CONFIG, 0));
    let m = HvcGuestMsg::Manage(HvcManageMsg { fid: 1, event: 4, vm_id: 2 });
    assert_eq!(m.fid_event(), (1, 4));
    assert_eq!(m.to_words(), vec![1, 4, 2]);
    assert_eq!(HvcGuestMsg::Default(HvcDefaultMsg { fid: 3, event: 0x31 }).to_words(), vec![3, 0x31]);
}

fn placed_vm() -> Vm {
    let mut v = Vm::new(1, 0);
    v.set_config_entry(Some(VmConfigEntry::new("g".to_string(), String::new(), 0, 0, 0, 0)));
    let mut a = Vcpu::new(1, 0);
    a.phys_id = 1;
    let mut b = Vcpu::new(1, 1);
    b.phys_id = 3;
    v.push_vcpu(a);
    v.push_vcpu(b);
    v.cpu_num = 2;
    v
}

#[test]
fn psci_function_ids_match_smccc() {
    assert_eq!(PSCI_VERSION, smccc::psci::PSCI_VERSION);
    assert_eq!(PSCI_CPU_ON_64, smccc::psci::PSCI_CPU_ON_64);
    assert_eq!(PSCI_FEATURES, smccc::psci::PSCI_FEATURES);
    assert_eq!(PSCI_SYSTEM_OFF, smccc::psci::PSCI_SYSTEM_OFF);
    assert_eq!(PSCI_SYSTEM_RESET, smccc::psci::PSCI_SYSTEM_RESET);
    assert_eq!(PSCI_MIGRATE_INFO_TYPE, smccc::psci::PSCI_MIGRATE_INFO_TYPE);
    assert_eq!(PSCI_AFFINITY_INFO_64, smccc::psci::PSCI_AFFINITY_INFO_64);
    assert_eq!(PSCI_NOT_SUPPORTED as i64, smccc::psci::error::NOT_SUPPORTED as i64);
    assert_eq!(PSCI_NOT_PRESENT as i64, smccc::psci::error::NOT_PRESENT as i64);
}

#[test]
fn psci_calls_of_a_guest() {
    let v = placed_vm();
    let f = PSCI_FEATURES as usize;
    assert_eq!(smc_guest_handler(&v, f, PSCI_CPU_ON_64 as usize, 0, 0), Some(PsciAction::Return(0)));
    assert_eq!(smc_guest_handler(&v, f, PSCI_SYSTEM_OFF as usize, 0, 0), Some(PsciAction::Return(PSCI_NOT_SUPPORTED)));
    assert_eq!(
        smc_guest_handler(&v, PSCI_CPU_ON_64 as usize, 0x8000_0001, 0x8008_0000, 7),
        Some(PsciAction::CpuOn { vcpu_id: 1, pcpu: 3, entry: 0x8008_0000, context: 7 })
    );
    assert_eq!(smc_guest_handler(&v, PSCI_CPU_ON_64 as usize, 5, 0, 0), Some(PsciAction::Return(PSCI_NOT_PRESENT)));
    assert_eq!(smc_guest_handler(&v, PSCI_SYSTEM_RESET as usize, 0, 0, 0), Some(PsciAction::SystemReset));
    assert_eq!(smc_guest_handler(&v, PSCI_SYSTEM_OFF as usize, 0, 0, 0), Some(PsciAction::SystemOff { vm_id: 1 }));
    assert_eq!(smc_guest_handler(&v, PSCI_MIGRATE_INFO_TYPE as usize, 0, 0, 0), Some(PsciAction::Return(2)));
    assert_eq!(smc_guest_handler(&v, PSCI_VERSION as usize, 0, 0, 0), Some(PsciAction::ForwardVersion));
    assert_eq!(smc_guest_handler(&v, 0xC200_0000, 0, 0, 0), None);
    let mut vc = Vcpu::new(1, 1);
    assert!(psci_vcpu_on_allowed(vc.state));
    vc.phys_id = 2;
    psci_vcpu_on(&mut vc, 2, 0x8008_0000, 0x8000_0000);
    assert_eq!(vc.context.exception_pc(), 0x8008_0000);
    assert_eq!(vc.context.gpr(0), 0x8000_0000);
    assert!(!psci_vcpu_on_allowed(VcpuState::VcpuAct));
}

#[test]
fn data_abort_syndrome_decodes() {
    let iss: u64 = (1 << 24) | (0b10 << 22) | (1 << 15) | (5 << 16) | (1 << 6) | 0b000111;
    let esr: u64 = (0x24 << 26) | (1 << 25) | iss;
    assert_eq!(exception_class(esr), ExceptionClass::DataAbortLowerEL);
    assert_eq!(exception_class(0x17 << 26), ExceptionClass::Smc64);
    assert_eq!(exception_class(0x16 << 26), ExceptionClass::Hvc64);
    assert_eq!(exception_class(0x3f << 26), ExceptionClass::Unhandled);
    assert_eq!(exception_iss(esr), iss);
    assert_eq!(exception_next_instruction_step(esr), 4);
    assert_eq!(exception_next_instruction_step(0), 2);
    assert_eq!(exception_data_abort_access_width(iss), 4);
    assert_eq!(exception_data_abort_access_reg(iss), 5);
    assert_eq!(exception_data_abort_access_reg_width(iss), 8);
    assert!(exception_data_abort_access_is_write(iss));
    assert!(exception_data_abort_is_translate_fault(iss));
    assert!(!exception_data_abort_is_permission_fault(iss));
    assert!(fault_needs_translation(0b001111));
    assert!(!fault_needs_translation(0x80 | 0b001111));
    assert_eq!(exception_fault_addr(0x1234_5678, 0x80000), 0x800_0678);
    assert_eq!(par_to_hpfar(0x8000_1000), 0x80_0010);
}

#[test]
fn sysreg_trap_decodes() {
    let iss: u64 = (3 << 20) | (0 << 17) | (1 << 14) | (0 << 10) | (7 << 5) | (0 << 1) | 1;
    let a = decode_sysreg_iss(iss);
    assert_eq!((a.op0, a.op1, a.crn, a.crm, a.op2, a.reg, a.read), (3, 1, 0, 0, 0, 7, true));
    assert_eq!(sysreg_access_key(&a), Some(sysreg_encode_addr(3, 1, 0, 0, 0)));
    assert_eq!(sysreg_encode_addr(3, 1, 0, 0, 0), iss & !((0x1f << 5) | 1));
}

#[test]
fn cache_geometry_and_colors() {
    let l2 = Aarch64CacheInfo::new(2, 1024, 16, 64, CacheType::Unified, CacheIndexed::Pipt, false);
    assert_eq!(l2.size(), 1024 * 1024);
    assert_eq!(l2.num_colors(), 16);
    assert_eq!(l2.ways(), 16);
    let clidr: u64 = 0b011 | (0b100 << 3);
    assert_eq!(init_cache_level(clidr), 2);
    let ccsidr_l1: u64 = (255 << 13) | (3 << 3) | 2;
    let ccsidr_l2: u64 = (1023 << 13) | (15 << 3) | 2;
    let i1 = get_cache_info(1, clidr, ccsidr_l1, 0, false);
    assert_eq!((i1.num_sets(), i1.ways(), i1.line_size(), i1.size()), (256, 4, 64, 65536));
    assert_eq!(i1.cache_type, CacheType::Separate);
    assert_eq!(i1.indexed, CacheIndexed::Vipt);
    assert_eq!(get_cache_info(1, clidr, ccsidr_l1, 0xc000, false).indexed, CacheIndexed::Pipt);
    let mut regs = Vec::new();
    let all = cache_init(clidr, &[ccsidr_l1, ccsidr_l2], 0, false, &mut regs);
    assert_eq!(regs, vec![
        (sysreg_encode_addr(3, 1, 0, 0, 0), CacheReg::Ccsidr),
        (sysreg_encode_addr(3, 1, 0, 0, 1), CacheReg::Clidr),
        (sysreg_encode_addr(3, 2, 0, 0, 0), CacheReg::Csselr),
        (sysreg_encode_addr(3, 3, 0, 0, 1), CacheReg::Ctr),
    ]);
    assert_eq!(regs[0].0, 0x30_4000);
    assert_eq!(vcache_ccsidr_el1_handler(false, 0, 2, ccsidr_l1), Some(ccsidr_l1));
    assert_eq!(vcache_ccsidr_el1_handler(true, 0, 2, ccsidr_l1), None);
    assert_eq!(vcache_clidr_el1_handler(false, clidr), Some(clidr));
    assert_eq!(vcache_clidr_el1_handler(true, clidr), None);
    assert_eq!(vcache_csselr_el1_handler(true, 2, 0), (2, None));
    assert_eq!(vcache_csselr_el1_handler(false, 7, 2), (2, Some(2)));
    assert_eq!(all.num_levels, 2);
    assert_eq!(all.min_share_level, 2);
    assert_eq!(all.info_list[1].num_colors(), 16);
    assert_eq!(vcache_ctr_el0_handler(false, 0x8444c004), Some(0x8444c004));
    assert_eq!(vcache_ctr_el0_handler(true, 1), None);
    assert_eq!(cache_flush_lines(0x1010, 0x80), (0x1000, 3));
    assert_eq!(cache_flush_lines(0x1000, 0x40), (0x1000, 1));
    assert_eq!(size_with_unit(1024 * 1024), (1, 2));
    assert_eq!(size_with_unit(48 * 1024), (48, 1));
    assert_eq!(size_with_unit(512), (512, 0));
}

#[test]
fn gic_distributor_fields() {
    let mut d = GicDistributor::new();
    interrupt_arch_enable(&mut d, 1, 26, true);
    assert_eq!(d.prio(26), 0x7f);
    assert_eq!(d.trgt(26), 0b10);
    assert_eq!(d.prio(27), 0);
    d.set_prio(27, 0xa0);
    assert_eq!(d.prio(26), 0x7f);
    assert_eq!(d.prio(27), 0xa0);
    assert_eq!(d.isenabler[0], 1 << 26);
    d.set_enable(26, false);
    assert_eq!(d.isenabler[0], 0);
    assert_eq!(send_sgi_value(1, 0), 1 << 17);
    assert_eq!(send_sgi_value(2, 0x13), (1 << 18) | 3);
    assert!(gic_is_sgi(15) && !gic_is_sgi(16));
    assert!(gic_is_priv(31) && !gic_is_priv(32));
}

#[test]
fn platform_description() {
    let p = plat_desc();
    assert_eq!(p.cpu_desc.num, 4);
    assert_eq!(p.cpu_desc.core_list[3].mpidr, 0x8000_0003);
    assert_eq!(mpidr2cpuid(p.cpu_desc.core_list[3].mpidr), 3);
    assert_eq!(p.arch_desc.gic_desc.gicd_addr, GICD_BASE);
    assert_eq!(p.arch_desc.gic_desc.gicc_addr, GICC_BASE);
    assert_eq!(p.mem_desc.regions.len(), 4);
    assert!(Platform::in_device_region(0xfe20_1000, 0x1000));
    assert!(!Platform::in_device_region(0x8000_0000, 0x1000));
    let mut d = GicDistributor::new();
    interrupt_arch_init(&mut d, 2);
    assert_eq!(d.trgt(25), 0b100);
    assert_eq!(d.isenabler[0], 1 << 25);
    assert_eq!(d.ctlr, 0);
    assert_eq!(d.prio(3), 0xff);
    assert_eq!(d.prio(25), 0x7f);
    assert_eq!(d.prio(40), 0);
    let mut d0 = GicDistributor::new();
    d0.set_enable(40, true);
    d0.set_trgt(40, 2);
    interrupt_arch_init(&mut d0, 0);
    assert_eq!(d0.ctlr & 1, 1);
    assert_eq!(d0.isenabler[1], 0);
    assert_eq!(d0.prio(40), 0xff);
    assert_eq!(d0.trgt(40), 0);
    assert_eq!(d0.trgt(25), 1);
}

#[test]
fn irq_state_encoding() {

    assert_eq!(IrqState::num_to_state(2), IrqState::IrqSActive);
    assert_eq!(IrqState::num_to_state(7).to_num(), 3);
    assert_eq!(IrqState::IrqSPend.to_num(), 1);
}
