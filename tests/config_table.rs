use rust_shyper::address::vm_ipa2hva;
use rust_shyper::bits::{count_ones, keep_lowest_bits, test_bit};
use rust_shyper::board::{
    init_tmp_config_for_bma1, init_tmp_config_for_bma2, init_tmp_config_for_vm1, init_tmp_config_for_vm2,
};
use rust_shyper::config::{
    add_dtb_dev, add_emu_dev, add_mem_region, add_passthrough_device_irqs, add_passthrough_device_region,
    add_passthrough_device_streams_ids, del_vm, set_cpu, set_memory_budget_second, set_memory_color_budget,
    upload_kernel_image, vm_cfg_add_vm_entry, vm_cfg_entry, DtbDevType, ImageCopy, VmConfigEntry, VmConfigTable,
    VmCpuConfig, VmDtbDevConfig, VmRegion, CONFIG_VM_NUM_MAX, DEFAULT_MEMORY_BUDGET,
};
use rust_shyper::emu::EmuDeviceType;
use rust_shyper::mediated::{
    MediatedBlk, MediatedBlkCfg, MediatedBlkContent, MediatedBlkList, MediatedBlkReq, mediated_blk_list_push,
};
use rust_shyper::vm::{vm, vm_cfg_finish_configuration, VmList, VmType};

fn entry(name: &str) -> VmConfigEntry {
    VmConfigEntry::new(name.to_string(), String::new(), 0, 0x80080000, 0x80000000, 0)
}

fn free_blk(base: usize) -> MediatedBlk {
    MediatedBlk {
        base_addr: base,
        avail: true,
        content: MediatedBlkContent {
            nreq: 0,
            cfg: MediatedBlkCfg { cache_ipa: 0, cache_pa: 0, dma_block_max: 0 },
            req: MediatedBlkReq { req_type: 0, sector: 0, count: 0 },
        },
    }
}

#[test]
fn bit_helpers_count_and_keep_low_bits() {
    assert_eq!(count_ones(0b1011), 3);
    assert_eq!(count_ones(0), 0);
    assert_eq!(count_ones(usize::MAX), usize::BITS as usize);
    assert_eq!(keep_lowest_bits(0b1011, 2), 0b0011);
    assert_eq!(keep_lowest_bits(0b1011, 0), 0);
    assert_eq!(keep_lowest_bits(0b1011, 9), 0b1011);
    assert!(test_bit(0b101, 2));
    assert!(!test_bit(0b101, 1));
    assert!(!test_bit(usize::MAX, 64));
}

#[test]
fn cpu_request_above_popcount_is_clamped() {
    let c = VmCpuConfig::new(3, 0b0110, 1);
    assert_eq!(c, VmCpuConfig { num: 2, allocate_bitmap: 0b0110, master: Some(1) });
    let c = VmCpuConfig::new(64, 0b1011_0000, 7);
    assert_eq!(c.num, 3);
    assert_eq!(c.allocate_bitmap, 0b1011_0000);
    assert_eq!(c.master, Some(7));
}

#[test]
fn cpu_request_keeps_lowest_cores_and_checks_master() {
    assert_eq!(VmCpuConfig::new(1, 0b0110, 1), VmCpuConfig { num: 1, allocate_bitmap: 0b0010, master: Some(1) });
    assert_eq!(VmCpuConfig::new(1, 0b0110, 2), VmCpuConfig { num: 1, allocate_bitmap: 0b0010, master: None });
    assert_eq!(VmCpuConfig::new(0, 0b1, 0), VmCpuConfig { num: 0, allocate_bitmap: 0, master: None });
    assert_eq!(VmCpuConfig::new(5, 0, 3), VmCpuConfig { num: 0, allocate_bitmap: 0, master: None });
    assert_eq!(VmCpuConfig::new(2, 0b1, 100).master, None);
}

#[test]
fn add_then_delete_returns_id_to_pool() {
    let mut t = VmConfigTable::new();
    let mut blks = MediatedBlkList::new();
    assert_eq!(vm_cfg_add_vm_entry(&mut t, entry("mvm")), Ok(0));
    let bitmap_before = t.vm_bitmap.clone();
    let ids_before: Vec<usize> = t.entries.iter().map(|e| e.id).collect();
    assert_eq!(vm_cfg_add_vm_entry(&mut t, entry("g1")), Ok(1));
    assert!(t.vm_bitmap[1]);
    assert_eq!(del_vm(&mut t, &mut blks, 1), Ok(0));
    assert_eq!(t.vm_bitmap, bitmap_before);
    let ids_after: Vec<usize> = t.entries.iter().map(|e| e.id).collect();
    assert_eq!(ids_after, ids_before);
    assert_eq!(t.entries[0].name, "mvm");
    assert_eq!(vm_cfg_add_vm_entry(&mut t, entry("g2")), Ok(1));
}

#[test]
fn delete_frees_the_mediated_block_and_unknown_delete_is_noop() {
    let mut t = VmConfigTable::new();
    let mut blks = MediatedBlkList::new();
    mediated_blk_list_push(&mut blks, free_blk(0x1000), &[]);
    assert_eq!(vm_cfg_add_vm_entry(&mut t, entry("mvm")), Ok(0));
    assert_eq!(vm_cfg_add_vm_entry(&mut t, entry("g1")), Ok(1));
    let r = add_emu_dev(&mut t, &mut blks, 1, "blk".to_string(), 0xa000000, 0x1000, 0x30, vec![0, 100], 7);
    assert_eq!(r, Ok(0));
    assert!(!blks.blks[0].avail);
    assert_eq!(del_vm(&mut t, &mut blks, 5), Ok(0));
    assert_eq!(t.entries.len(), 2);
    assert_eq!(del_vm(&mut t, &mut blks, 1), Ok(0));
    assert!(blks.blks[0].avail);
    assert_eq!(t.entries.len(), 1);
}

#[test]
fn table_refuses_when_every_id_is_taken() {
    let mut t = VmConfigTable::new();
    for i in 0..CONFIG_VM_NUM_MAX {
        assert_eq!(vm_cfg_add_vm_entry(&mut t, entry("vm")), Ok(i));
    }
    assert_eq!(vm_cfg_add_vm_entry(&mut t, entry("extra")), Err(()));
    assert_eq!(t.entries.len(), CONFIG_VM_NUM_MAX);
}

#[test]
fn edits_of_unknown_vm_fail() {
    let mut t = VmConfigTable::new();
    let mut blks = MediatedBlkList::new();
    assert_eq!(add_mem_region(&mut t, 3, 0x8000_0000, 0x1000), Err(()));
    assert_eq!(set_cpu(&mut t, 3, 1, 1, 0), Err(()));
    assert_eq!(add_passthrough_device_region(&mut t, 3, 1, 2, 3), Err(()));
    assert_eq!(add_passthrough_device_irqs(&mut t, 3, vec![1]), Err(()));
    assert_eq!(add_passthrough_device_streams_ids(&mut t, 3, vec![1]), Err(()));
    assert_eq!(add_emu_dev(&mut t, &mut blks, 3, "x".to_string(), 0, 0x1000, 0, vec![], 1), Err(()));
    assert_eq!(add_dtb_dev(&mut t, 3, "x".to_string(), 1, vec![], 0, 0), Err(()));
    assert_eq!(set_memory_color_budget(&mut t, 3, &[1], 50, 1000, true), Err(()));
    assert!(vm_cfg_entry(&t, 3).is_none());
}

#[test]
fn guest_vm_creation_scenario() {
    let mut t = VmConfigTable::new();
    let mut blks = MediatedBlkList::new();
    mediated_blk_list_push(&mut blks, free_blk(0x2000), &[Some(5)]);
    assert_eq!(vm_cfg_add_vm_entry(&mut t, entry("mvm")), Ok(0));
    let g1 = VmConfigEntry::new("g1".to_string(), String::new(), 0, 0x80080000, 0x80000000, 0);
    assert_eq!(g1.os_type, VmType::VmTOs);
    assert_eq!(vm_cfg_add_vm_entry(&mut t, g1), Ok(1));
    assert_eq!(set_cpu(&mut t, 1, 1, 0b10, 1), Ok(0));
    assert_eq!(add_mem_region(&mut t, 1, 0x80000000, 0x40000000), Ok(0));
    assert_eq!(
        add_emu_dev(&mut t, &mut blks, 1, "virtio_blk".to_string(), 0xa000000, 0x1000, 0x30, vec![0, 8], 7),
        Ok(0)
    );
    let e = vm_cfg_entry(&t, 1).unwrap();
    assert_eq!(e.cpu, VmCpuConfig { num: 1, allocate_bitmap: 0b10, master: Some(1) });
    assert_eq!(e.memory_region(), &[VmRegion { ipa_start: 0x80000000, length: 0x40000000 }]);
    assert_eq!(e.emulated_device_list()[0].emu_type, EmuDeviceType::EmuDeviceTVirtioBlk);
    assert!(e.emulated_device_list()[0].mediated);
    assert_eq!(e.mediated_block_index(), Some(0));
    let mut vms = VmList::new();
    let copy = upload_kernel_image(&t, &mut vms, 1, 0, 0x1000, 0x2000, 0x400, 9).unwrap();
    assert_eq!(vms.vms.len(), 1);
    assert!(vm(&vms, 1).is_some());
    assert_eq!(copy, ImageCopy { dst_hva: 0x8_8008_2000, src_hva: 0x1000, len: 0x400 });
    assert_eq!(copy.dst_hva, vm_ipa2hva(1, 0x80082000));
}

#[test]
fn mediated_device_without_free_block_fails_but_stays_recorded() {
    let mut t = VmConfigTable::new();
    let mut blks = MediatedBlkList::new();
    assert_eq!(vm_cfg_add_vm_entry(&mut t, entry("mvm")), Ok(0));
    let r = add_emu_dev(&mut t, &mut blks, 0, "blk".to_string(), 0xa000000, 0x1000, 0x30, vec![], 7);
    assert_eq!(r, Err(()));
    assert_eq!(t.entries[0].emulated_device_list().len(), 1);
    assert_eq!(t.entries[0].mediated_block_index(), None);
    let r = add_emu_dev(&mut t, &mut blks, 0, "bad".to_string(), 0, 0x1000, 0, vec![], 99);
    assert_eq!(r, Err(()));
    assert_eq!(t.entries[0].emulated_device_list().len(), 1);
}

#[test]
fn passthrough_edits_append_in_order() {
    let mut t = VmConfigTable::new();
    assert_eq!(vm_cfg_add_vm_entry(&mut t, entry("mvm")), Ok(0));
    assert_eq!(add_passthrough_device_region(&mut t, 0, 0x9000000, 0xfe201000, 0x1000), Ok(0));
    assert_eq!(add_passthrough_device_irqs(&mut t, 0, vec![27, 153]), Ok(0));
    assert_eq!(add_passthrough_device_irqs(&mut t, 0, vec![40]), Ok(0));
    assert_eq!(add_passthrough_device_streams_ids(&mut t, 0, vec![7]), Ok(0));
    let e = &t.entries[0];
    assert_eq!(e.passthrough_device_regions()[0].pa, 0xfe201000);
    assert!(e.passthrough_device_regions()[0].dev_property);
    assert_eq!(e.passthrough_device_irqs(), &[27, 153, 40]);
    assert_eq!(e.passthrough_device_stread_ids(), &[7]);
}

#[test]
fn dtb_devices_give_gic_addresses() {
    let mut t = VmConfigTable::new();
    assert_eq!(vm_cfg_add_vm_entry(&mut t, entry("mvm")), Ok(0));
    assert_eq!(t.entries[0].gicd_addr(), 0);
    assert_eq!(t.entries[0].gicc_addr(), 0);
    assert_eq!(add_dtb_dev(&mut t, 0, "gicd".to_string(), 1, vec![], 0x8000000, 0x1000), Ok(0));
    assert_eq!(add_dtb_dev(&mut t, 0, "gicc".to_string(), 2, vec![], 0x8010000, 0x2000), Ok(0));
    assert_eq!(add_dtb_dev(&mut t, 0, "bad".to_string(), 3, vec![], 0, 0), Err(()));
    assert_eq!(t.entries[0].gicd_addr(), 0x8000000);
    assert_eq!(t.entries[0].gicc_addr(), 0x8010000);
    let devs: &[VmDtbDevConfig] = t.entries[0].dtb_device_list();
    assert_eq!(devs[1].dev_type, DtbDevType::Gicc);
}

#[test]
fn color_bitmap_lists_colors_or_all() {
    let mut t = VmConfigTable::new();
    assert_eq!(vm_cfg_add_vm_entry(&mut t, entry("mvm")), Ok(0));
    assert_eq!(t.entries[0].memory_color_bitmap(), usize::MAX);
    assert_eq!(set_memory_color_budget(&mut t, 0, &[0, 3, 3], 0, 0, false), Ok(0));
    assert_eq!(t.entries[0].memory.colors, vec![0, 3, 3]);
    assert_eq!(t.entries[0].memory_color_bitmap(), 0b1001);
}

#[test]
fn budget_of_zero_or_full_percent_leaves_bandwidth_unlimited() {
    let mut t = VmConfigTable::new();
    assert_eq!(vm_cfg_add_vm_entry(&mut t, entry("mvm")), Ok(0));
    assert_eq!(set_memory_color_budget(&mut t, 0, &[], 0, 2_000_000, true), Ok(0));
    assert_eq!(t.entries[0].memory.budget, DEFAULT_MEMORY_BUDGET);
    assert!(!t.entries[0].memory.is_limited());
    assert_eq!(set_memory_color_budget(&mut t, 0, &[], 100, 2_000_000, true), Ok(0));
    assert!(!t.entries[0].memory.is_limited());
}

#[test]
fn budget_percentages_settle() {
    let mut t = VmConfigTable::new();
    assert_eq!(vm_cfg_add_vm_entry(&mut t, entry("mvm")), Ok(0));
    assert_eq!(set_memory_color_budget(&mut t, 0, &[], 30, 2_000_000, true), Ok(0));
    assert_eq!(t.entries[0].memory.budget, 600_000);
    assert!(t.entries[0].memory.is_limited());
    assert_eq!(set_memory_color_budget(&mut t, 0, &[], 5, 2_000_000, true), Ok(0));
    assert_eq!(t.entries[0].memory.budget, 1_000_000);
    assert_eq!(set_memory_color_budget(&mut t, 0, &[], 90, 2_000_000, false), Ok(0));
    assert_eq!(t.entries[0].memory.budget, 1_000_000);
    assert_eq!(set_memory_budget_second(1000), 100);
}

#[test]
fn upload_fails_for_unknown_vm_or_unaliasable_address() {
    let mut t = VmConfigTable::new();
    let mut vms = VmList::new();
    assert_eq!(upload_kernel_image(&t, &mut vms, 0, 0, 0x1000, 0, 16, 1), Err(()));
    assert_eq!(vms.vms.len(), 0);
    assert_eq!(vm_cfg_add_vm_entry(&mut t, entry("mvm")), Ok(0));
    assert_eq!(upload_kernel_image(&t, &mut vms, 0, 0, 0, 0, 16, 2), Err(()));
    assert_eq!(vms.vms.len(), 1);
    assert_eq!(upload_kernel_image(&t, &mut vms, 0, 0, 0x1000, usize::MAX, 16, 3), Err(()));
    assert_eq!(vms.vms.len(), 1);
}

#[test]
fn builtin_configs_register_in_order() {
    let mut t = VmConfigTable::new();
    assert_eq!(init_tmp_config_for_vm1(&mut t), Ok(0));
    assert_eq!(init_tmp_config_for_bma1(&mut t), Ok(1));
    assert_eq!(init_tmp_config_for_bma2(&mut t), Ok(2));
    assert_eq!(init_tmp_config_for_vm2(&mut t), Ok(3));
    assert_eq!(t.entries[0].kernel_load_ipa(), 0x80080000);
    assert_eq!(t.entries[0].gicd_addr(), 0x8000000);
    assert_eq!(t.entries[0].gicc_addr(), 0x8010000);
    assert_eq!(t.entries[0].kernel_img_name(), Some("Image_vanilla"));
    assert_eq!(t.entries[1].cpu, VmCpuConfig { num: 1, allocate_bitmap: 0b0010, master: Some(1) });
    assert_eq!(t.entries[1].passthrough_device_irqs(), &[32 + 0x79]);
    assert_eq!(t.entries[2].cpu, VmCpuConfig { num: 1, allocate_bitmap: 0b0100, master: Some(2) });
    assert_eq!(t.entries[2].passthrough_device_irqs().len(), 0);
    assert_eq!(t.entries[3].mediated_block_index(), Some(1));
    assert_eq!(t.entries[3].emulated_device_list()[3].base_ipa, 0xa003000);
    assert_eq!(t.entries[2].os_type, VmType::VmTBma);
}

#[test]
fn first_upload_creates_the_vm() {
    let mut t = VmConfigTable::new();
    assert_eq!(init_tmp_config_for_vm1(&mut t), Ok(0));
    let mut vms = VmList::new();
    let e = vm_cfg_entry(&t, 0).unwrap().clone();
    assert!(vm_cfg_finish_configuration(&mut vms, e, 5));
    let e = vm_cfg_entry(&t, 0).unwrap().clone();
    assert!(!vm_cfg_finish_configuration(&mut vms, e, 6));
    assert_eq!(vms.vms.len(), 1);
    let v = vm(&vms, 0).unwrap();
    assert_eq!(v.config().name, "guest-os-0");
    assert_eq!(v.config().cpu, VmCpuConfig { num: 1, allocate_bitmap: 0b0010, master: Some(1) });
    assert_eq!(t.entries[0].emulated_device_list()[2].irq_id, 49);
    let mut t2 = VmConfigTable::new();
    assert_eq!(init_tmp_config_for_vm1(&mut t2), Ok(0));
    let mut vms2 = VmList::new();
    assert!(upload_kernel_image(&t2, &mut vms2, 0, 0, 0x1000, 0, 16, 4).is_ok());
    assert!(upload_kernel_image(&t2, &mut vms2, 0, 0, 0x1000, 16, 16, 5).is_ok());
    assert_eq!(vms2.vms.len(), 1);
    assert_eq!(vm(&vms2, 0).unwrap().config().name, "guest-os-0");
}
