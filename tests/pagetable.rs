use rust_shyper::config::{VmConfigEntry, VmCpuConfig};
use rust_shyper::gic::send_sgi_value;
use rust_shyper::ipi::{ipi_drain, ipi_send_msg, IpiInnerMsg, IpiMailboxes, IpiType};
use rust_shyper::pagetable::{pt_populate, BlockDescriptor, S2Pte, Stage2PageTable, PTE_S2_FIELD_AP_RO, PTE_S2_FIELD_AP_RW};
use rust_shyper::vcpu::Vcpu;
use rust_shyper::vm::{Vm, VmInterface};

#[test]
fn map_then_unmap_leaves_table_unchanged() {
    let mut pt = Stage2PageTable::new();
    pt.pt_map_range(0x4000_0000, 0x2000, 0x9000_0000, false);
    let before: Vec<(u64, S2Pte)> = {
        let mut v: Vec<(u64, S2Pte)> = pt.entries.iter().map(|(k, p)| (*k, *p)).collect();
        v.sort_by_key(|e| e.0);
        v
    };
    pt.pt_map_range(0x8000_0000, 0x3000, 0xa000_0000, false);
    assert_eq!(pt.entries.len(), 5);
    pt.pt_unmap_range(0x8000_0000, 0x3000);
    let mut after: Vec<(u64, S2Pte)> = pt.entries.iter().map(|(k, p)| (*k, *p)).collect();
    after.sort_by_key(|e| e.0);
    assert_eq!(after, before);
}

#[test]
fn translation_of_mapped_pages() {
    let mut pt = Stage2PageTable::new();
    pt.pt_map_range(0x8000_0000, 0x2000, 0x1_2000_0000, false);
    assert_eq!(pt.ipa2pa(0x8000_0123), Some(0x1_2000_0123));
    assert_eq!(pt.ipa2pa(0x8000_1fff), Some(0x1_2000_1fff));
    assert_eq!(pt.ipa2pa(0x8000_2000), None);
    pt.pt_map_range(0x0900_0000, 0x1000, 0xfe20_1000, true);
    assert!(pt.entries[&(0x0900_0000u64 / 4096)].device);
}

#[test]
fn read_only_then_read_write_keeps_frames() {
    let mut pt = Stage2PageTable::new();
    pt.pt_map_range(0x8000_0000, 0x4000, 0x4000_0000, false);
    pt.access_permission(0x8000_1000, 0x2000, PTE_S2_FIELD_AP_RO);
    assert_eq!(pt.entries[&0x80001].ap, PTE_S2_FIELD_AP_RO);
    assert_eq!(pt.entries[&0x80000].ap, PTE_S2_FIELD_AP_RW);
    assert_eq!(pt.ipa2pa(0x8000_1000), Some(0x4000_1000));
    pt.access_permission(0x8000_1000, 0x2000, PTE_S2_FIELD_AP_RW);
    for k in 0x80000u64..0x80004 {
        assert_eq!(pt.entries[&k], S2Pte { pfn: 0x40000 + (k - 0x80000), ap: PTE_S2_FIELD_AP_RW, device: false });
    }
}

#[test]
fn distinct_pages_get_distinct_frames() {
    let mut pt = Stage2PageTable::new();
    pt.pt_map_range(0x8000_0000, 0x4000, 0x4000_0000, false);
    pt.pt_map_range(0x9000_0000, 0x2000, 0x5000_0000, false);
    let mut frames: Vec<u64> = pt.entries.values().map(|p| p.pfn).collect();
    frames.sort();
    frames.dedup();
    assert_eq!(frames.len(), pt.entries.len());
}

#[test]
fn sgi_to_a_vcpu_reaches_the_core_running_it() {
    let mut v = Vm::new(1, 0);
    let mut cfg = VmConfigEntry::new("g".to_string(), String::new(), 0, 0x80080000, 0x80000000, 0);
    cfg.cpu = VmCpuConfig { num: 2, allocate_bitmap: 0b11, master: Some(0) };
    v.set_config_entry(Some(cfg));
    v.push_vcpu(Vcpu::new(1, 0));
    v.push_vcpu(Vcpu::new(1, 1));
    let mut vif = VmInterface::default();
    assert_eq!(v.select_vcpu2assign(0, &mut vif), Some(0));
    assert_eq!(v.select_vcpu2assign(1, &mut vif), Some(1));
    v.vcpu_list[0].phys_id = 0;
    v.vcpu_list[1].phys_id = 1;
    let pmask = v.vcpu_to_pcpu_mask(0b10, 8);
    assert_eq!(pmask, 0b10);
    let mut boxes = IpiMailboxes::new(4);
    for core in 0..4usize {
        if pmask & (1 << core) != 0 {
            assert!(ipi_send_msg(&mut boxes, core, IpiType::IpiTIntc, IpiInnerMsg::Intc { vm_id: 1, int_id: 0, val: 0 }));
        }
    }
    assert!(ipi_drain(&mut boxes, 0).is_empty());
    let got = ipi_drain(&mut boxes, 1);
    assert_eq!(got.len(), 1);
    assert_eq!(got[0].ipi_message, IpiInnerMsg::Intc { vm_id: 1, int_id: 0, val: 0 });
    assert_eq!(send_sgi_value(1, 0), 1 << 17);
}

#[test]
fn booted_master_vcpu_sees_device_tree_in_x0() {
    let mut v = Vm::new(1, 0);
    let cfg = VmConfigEntry::new("g1".to_string(), String::new(), 0, 0x80080000, 0x80000000, 0);
    let mut cfg = cfg;
    cfg.cpu = VmCpuConfig::new(1, 0b10, 1);
    v.set_config_entry(Some(cfg));
    v.push_vcpu(Vcpu::new(1, 0));
    let mut vif = VmInterface::default();
    let idx = v.select_vcpu2assign(1, &mut vif).unwrap();
    assert_eq!(idx, 0);
    assert_eq!(vif.master_cpu_id, Some(1));
    let entry = v.config().kernel_entry_point();
    let dtb = v.config().device_tree_load_ipa();
    let vcpu = &mut v.vcpu_list[idx];
    vcpu.phys_id = 1;
    vcpu.context.set_argument(dtb);
    vcpu.context.set_exception_pc(entry);
    assert_eq!(v.vcpu(0).unwrap().context.gpr(0), 0x80000000);
    assert_eq!(v.vcpu(0).unwrap().context.exception_pc(), 0x80080000);
}

#[test]
fn vm_regions_become_read_only_with_frames_kept() {
    let mut v = Vm::new(1, 0);
    let mut cfg = VmConfigEntry::new("g".to_string(), String::new(), 0, 0x80080000, 0x80000000, 0);
    cfg.add_memory_cfg(0x8000_0000, 0x2000);
    v.set_config_entry(Some(cfg));
    v.set_pt(Stage2PageTable::new());
    v.pt_map_range(0x8000_0000, 0x3000, 0x4000_0000, false);
    v.pt_read_only();
    let pt = v.pt.as_ref().unwrap();
    assert_eq!(pt.entries[&0x80000].ap, PTE_S2_FIELD_AP_RO);
    assert_eq!(pt.entries[&0x80001].ap, PTE_S2_FIELD_AP_RO);
    assert_eq!(pt.entries[&0x80002].ap, PTE_S2_FIELD_AP_RW);
    assert_eq!(v.ipa2pa(0x8000_1234), Some(0x4000_1234));
    v.pt_set_access_permission(0x8000_0000, PTE_S2_FIELD_AP_RW);
    assert_eq!(v.pt.as_ref().unwrap().entries[&0x80000].ap, PTE_S2_FIELD_AP_RW);
    v.pt_unmap_range(0x8000_0000, 0x3000);
    assert_eq!(v.ipa2pa(0x8000_1234), None);
}

#[test]
fn stage1_descriptors() {

    assert_eq!(BlockDescriptor::new(0x4000_0000, false).0, 0x4000_0705);
    assert_eq!(BlockDescriptor::new(0xfe00_0000, true).0, 0xfe00_0601);
    assert_eq!(BlockDescriptor::table(0x8_1000).0, 0x8_1003);
    assert_eq!(BlockDescriptor::invalid().0, 0);
}

#[test]
fn identity_tables_follow_the_board_layout() {
    let (lvl1, lvl2) = pt_populate(0x8_1000);
    assert_eq!((lvl1.len(), lvl2.len()), (512, 512));
    assert_eq!(lvl1[0], BlockDescriptor(0x705));
    assert_eq!(lvl1[2], BlockDescriptor(0x8000_0705));
    assert_eq!(lvl1[3], BlockDescriptor(0x8_1003));
    assert_eq!(lvl1[5], BlockDescriptor(0x1_4000_0705));
    assert_eq!(lvl1[8], BlockDescriptor(0));
    assert_eq!(lvl1[511], BlockDescriptor(0));
    assert_eq!(lvl2[0], BlockDescriptor(0xc000_0705));
    assert_eq!(lvl2[479], BlockDescriptor(0xfbe0_0705));
    assert_eq!(lvl2[480], BlockDescriptor(0xfc00_0601));
    assert_eq!(lvl2[511], BlockDescriptor(0xffe0_0601));
}
