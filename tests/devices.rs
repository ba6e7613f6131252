use rust_shyper::mediated::queue_mediated_tasks;
use rust_shyper::blk::{virtio_blk_notify_handler, BlkReqHeader};
use rust_shyper::mediated::{add_task, finish_front_task, set_front_io_task_state, AsyncTaskState, IoTaskQueue, UsedInfo};
use rust_shyper::console::{console_copy_plan, virtio_console_notify_handler, CopySeg, console_queue_transmits, virtio_console_rx_iov, virtio_console_tx_iov, ConsoleDescInner};
use rust_shyper::address::vm_ipa2hva;
use rust_shyper::blk::{
    blk_req_handler, blk_req_status, virtio_blk_build_req, virtio_blk_parse_chain, BlkDescInner, BlkIov, BlkReqRegion,
    VirtioBlkReq, BLK_IRQ, VIRTIO_BLK_S_OK, VIRTIO_BLK_S_UNSUPP, VIRTIO_BLK_T_GET_ID, VIRTIO_BLK_T_IN, VIRTIO_BLK_T_OUT,
};
use rust_shyper::emu::{emu_handler, emu_region_available, emu_register_dev, EmuContext, EmuDevList, EmuDeviceType};
use rust_shyper::mediated::{
    mediated_blk_free, mediated_blk_list_get, mediated_blk_list_get_from_pa, mediated_blk_list_push,
    mediated_blk_request, mediated_dev_append, mediated_dev_init, mediated_ipi_handler, MediatedBlk, MediatedBlkCfg,
    MediatedBlkContent, MediatedBlkList, MediatedBlkReq,
};
use rust_shyper::ipi::{IpiHandlerList, IpiInnerMsg, IpiMessage, IpiType};
use rust_shyper::virtq::{console_features, Virtq, VringAvail, VringDesc, VringUsed, VringUsedElem};

fn ctx(address: usize) -> EmuContext {
    EmuContext { address, width: 4, write: false, sign_ext: false, reg: 0, reg_width: 8 }
}

#[test]
fn fault_at_last_byte_routes_to_its_device() {
    let mut list = EmuDevList::new();
    assert!(emu_region_available(&list, 1, 0x8000000, 0x1000));
    emu_register_dev(&mut list, 1, 0, 0x8000000, 0x1000, EmuDeviceType::EmuDeviceTGicd);
    emu_register_dev(&mut list, 1, 1, 0xa000000, 0x1000, EmuDeviceType::EmuDeviceTVirtioBlk);
    let e = emu_handler(&list, 1, &ctx(0x8000fff)).unwrap();
    assert_eq!(e.id, 0);
    assert_eq!(e.kind, EmuDeviceType::EmuDeviceTGicd);
    assert_eq!(emu_handler(&list, 1, &ctx(0xa000000)).unwrap().id, 1);
    assert!(emu_handler(&list, 1, &ctx(0x8001000)).is_none());
    assert!(emu_handler(&list, 2, &ctx(0x8000000)).is_none());
}

#[test]
fn overlapping_regions_are_refused_per_vm() {
    let mut list = EmuDevList::new();
    emu_register_dev(&mut list, 1, 0, 0x8000000, 0x1000, EmuDeviceType::EmuDeviceTGicd);
    assert!(!emu_region_available(&list, 1, 0x8000800, 0x1000));
    assert!(!emu_region_available(&list, 1, 0x7fff000, 0x1001));
    assert!(emu_region_available(&list, 1, 0x7fff000, 0x1000));
    assert!(emu_region_available(&list, 2, 0x8000000, 0x1000));
    assert!(!emu_region_available(&list, 1, 0x9000000, 0));
}

fn queue(num: usize, ring: Vec<u16>, avail_idx: u16) -> Virtq {
    let mut q = Virtq::default();
    q.set_num(num);
    q.set_ready(1);
    q.avail = Some(VringAvail { flags: 0, idx: avail_idx, ring });
    q.used = Some(VringUsed { flags: 0, idx: 0, ring: vec![VringUsedElem { id: 0, len: 0 }; 32] });
    q
}

#[test]
fn popped_chain_gets_one_used_entry() {
    let mut q = queue(4, vec![3, 1, 2, 0], 2);
    assert_eq!(q.pop_avail_desc_idx(), Some(3));
    assert_eq!(q.last_avail_idx, 1);
    assert!(q.update_used_ring(512, 3));
    let used = q.used.as_ref().unwrap();
    assert_eq!(used.idx, 1);
    assert_eq!(used.ring[0], VringUsedElem { id: 3, len: 512 });
    assert_eq!(q.pop_avail_desc_idx(), Some(1));
    assert_eq!(q.pop_avail_desc_idx(), None);
    assert_eq!(q.last_avail_idx, 2);
    assert!(q.check_avail_idx());
}

#[test]
fn ring_with_num_minus_one_pending_takes_one_more() {
    let mut q = queue(4, vec![10, 11, 12, 13], 3);
    q.avail.as_mut().unwrap().idx = 4;
    let mut heads = vec![];
    while let Some(h) = q.pop_avail_desc_idx() {
        heads.push(h);
    }
    assert_eq!(heads, vec![10, 11, 12, 13]);
    assert_eq!(q.last_avail_idx, 4);
}

#[test]
fn ring_index_wraps_at_u16() {
    let mut q = queue(4, vec![7, 8, 9, 6], 0);
    q.last_avail_idx = u16::MAX;
    assert_eq!(q.pop_avail_desc_idx(), Some(6));
    assert_eq!(q.last_avail_idx, 0);
    assert_eq!(q.pop_avail_desc_idx(), None);
}

#[test]
fn queue_without_rings_refuses() {
    let mut q = Virtq::default();
    assert_eq!(q.pop_avail_desc_idx(), None);
    assert!(!q.update_used_ring(1, 1));
    q.disable_notify();
    assert_eq!(q.used_flags, 1);
    q.enable_notify();
    assert_eq!(q.used_flags, 0);
    assert_eq!(console_features(), (1u64 << 32) | 1);
}

fn blk_queue(descs: Vec<VringDesc>) -> Virtq {
    let mut q = queue(32, vec![0; 32], 1);
    q.desc_table = Some(descs);
    q
}

#[test]
fn virtio_blk_read_scenario() {
    let q = blk_queue(vec![
        VringDesc { addr: 0x4000_1000, len: 16, flags: 1, next: 1 },
        VringDesc { addr: 0x4000_2000, len: 4096, flags: 3, next: 2 },
        VringDesc { addr: 0x4000_3000, len: 1, flags: 2, next: 0 },
    ]);
    let chain = virtio_blk_parse_chain(&q, 0).unwrap();
    assert_eq!(chain.data.len(), 1);
    assert_eq!(chain.status.addr, 0x4000_3000);
    let region = BlkReqRegion { start: 0x100, size: 0x10000 };
    let req = virtio_blk_build_req(&chain, VIRTIO_BLK_T_IN, 8, 1, region, true).unwrap();
    assert_eq!(req.iov, vec![BlkIov { data_bg: vm_ipa2hva(1, 0x4000_2000), len: 4096 }]);
    assert_eq!(req.iov_total, 4096);
    let (total, task) = blk_req_handler(&req, 0x5000, 1);
    assert_eq!(total, 4096);
    let task = task.unwrap();
    assert_eq!(task.src_vmid, 1);
    assert_eq!(task.io_type, VIRTIO_BLK_T_IN);
    assert_eq!(task.sector, 8 + 0x100);
    assert_eq!(task.count, 8);
    assert_eq!(task.cache, 0x5000);
    assert_eq!(blk_req_status(req.req_type), VIRTIO_BLK_S_OK);
    assert_eq!(BLK_IRQ, 0x30);
}

#[test]
fn malformed_chains_are_refused() {
    let writable_header = blk_queue(vec![
        VringDesc { addr: 0x1000, len: 16, flags: 3, next: 1 },
        VringDesc { addr: 0x3000, len: 1, flags: 2, next: 0 },
    ]);
    assert!(virtio_blk_parse_chain(&writable_header, 0).is_err());
    let readonly_status = blk_queue(vec![
        VringDesc { addr: 0x1000, len: 16, flags: 1, next: 1 },
        VringDesc { addr: 0x3000, len: 1, flags: 0, next: 0 },
    ]);
    assert!(virtio_blk_parse_chain(&readonly_status, 0).is_err());
    let looping = blk_queue(vec![
        VringDesc { addr: 0x1000, len: 16, flags: 1, next: 1 },
        VringDesc { addr: 0x2000, len: 512, flags: 1, next: 1 },
    ]);
    assert!(virtio_blk_parse_chain(&looping, 0).is_err());
    assert!(virtio_blk_parse_chain(&looping, 40).is_err());
}

#[test]
fn data_direction_and_addresses_are_checked() {
    let q = blk_queue(vec![
        VringDesc { addr: 0x1000, len: 16, flags: 1, next: 1 },
        VringDesc { addr: 0x2000, len: 512, flags: 3, next: 2 },
        VringDesc { addr: 0x3000, len: 1, flags: 2, next: 0 },
    ]);
    let chain = virtio_blk_parse_chain(&q, 0).unwrap();
    let region = BlkReqRegion { start: 0, size: 100 };
    assert!(virtio_blk_build_req(&chain, VIRTIO_BLK_T_OUT, 0, 1, region, false).is_err());
    assert!(virtio_blk_build_req(&chain, VIRTIO_BLK_T_IN, 0, 1, region, false).is_ok());
    let q = blk_queue(vec![
        VringDesc { addr: 0x1000, len: 16, flags: 1, next: 1 },
        VringDesc { addr: 0, len: 512, flags: 3, next: 2 },
        VringDesc { addr: 0x3000, len: 1, flags: 2, next: 0 },
    ]);
    let chain = virtio_blk_parse_chain(&q, 0).unwrap();
    assert!(virtio_blk_build_req(&chain, VIRTIO_BLK_T_IN, 0, 1, region, false).is_err());
}

fn req(req_type: u32, sector: usize, lens: &[u32], mediated: bool) -> VirtioBlkReq {
    let mut r = VirtioBlkReq::default();
    r.req_type = req_type;
    r.sector = sector;
    r.mediated = mediated;
    r.set_start(0);
    r.set_size(64);
    for (i, l) in lens.iter().enumerate() {
        r.iov.push(BlkIov { data_bg: 0x1000 * (i + 1), len: *l });
        r.iov_total += *l as u64;
    }
    r
}

#[test]
fn block_requests_outside_region_or_short_are_refused() {
    let (t, task) = blk_req_handler(&req(VIRTIO_BLK_T_IN, 60, &[4096], true), 0, 1);
    assert_eq!(t, 0);
    assert!(task.is_none());
    let (t, task) = blk_req_handler(&req(VIRTIO_BLK_T_IN, 56, &[4096], true), 0, 1);
    assert_eq!(t, 4096);
    assert!(task.is_some());
    let (t, task) = blk_req_handler(&req(VIRTIO_BLK_T_OUT, 0, &[512, 100], true), 0, 1);
    assert_eq!(t, 0);
    assert!(task.is_none());
    let (t, task) = blk_req_handler(&req(VIRTIO_BLK_T_IN, 0, &[512, 100], true), 0, 1);
    assert_eq!(t, 0);
    assert!(task.is_some());
    let (t, task) = blk_req_handler(&req(VIRTIO_BLK_T_OUT, 1, &[512, 1024], true), 0, 1);
    assert_eq!(t, 1536);
    assert_eq!(task.unwrap().count, 3);
    let (t, task) = blk_req_handler(&req(VIRTIO_BLK_T_OUT, 1, &[512], false), 0, 1);
    assert_eq!(t, 512);
    assert!(task.is_none());
}

#[test]
fn get_id_and_unknown_requests() {
    let (t, task) = blk_req_handler(&req(VIRTIO_BLK_T_GET_ID, 0, &[20], true), 0, 1);
    assert_eq!(t, 20);
    assert!(task.is_none());
    let (t, _) = blk_req_handler(&req(4, 0, &[512], true), 0, 1);
    assert_eq!(t, 0);
    assert_eq!(blk_req_status(4), VIRTIO_BLK_S_UNSUPP);
    assert_eq!(blk_req_status(VIRTIO_BLK_T_GET_ID), VIRTIO_BLK_S_OK);
    assert_eq!(blk_req_status(VIRTIO_BLK_T_OUT), VIRTIO_BLK_S_OK);
}

#[test]
fn blk_config_space() {
    let mut d = BlkDescInner::default();
    d.cfg_init(209715200);
    assert_eq!(d.capacity, 209715200);
    assert_eq!(d.size_max, 4096);
    assert_eq!(d.seg_max, 64);
}

fn content(cache_ipa: usize) -> MediatedBlkContent {
    MediatedBlkContent {
        nreq: 5,
        cfg: MediatedBlkCfg { cache_ipa, cache_pa: 0, dma_block_max: 0x100 },
        req: MediatedBlkReq { req_type: 0, sector: 0, count: 0 },
    }
}

#[test]
fn mediated_pool_hands_out_first_free() {
    let mut blks = MediatedBlkList::new();
    assert_eq!(mediated_blk_request(&mut blks), Err(()));
    assert_eq!(mediated_dev_append(&mut blks, 0, 0x5000_0000, content(0x5010_0000), &[None, Some(0)]), Ok(0));
    assert_eq!(mediated_dev_append(&mut blks, 0, 0x5100_0000, content(0x5110_0000), &[None, Some(0)]), Ok(0));
    let b0 = mediated_blk_list_get(&blks, 0);
    assert!(!b0.avail);
    assert_eq!(b0.nreq(), 0);
    assert_eq!(b0.base_addr, 0x5000_0000);
    assert_eq!(b0.cache_pa(), 0x5010_0000);
    assert_eq!(b0.dma_block_max(), 0x100);
    assert_eq!(mediated_blk_request(&mut blks), Ok(1));
    assert_eq!(mediated_blk_request(&mut blks), Err(()));
    mediated_blk_free(&mut blks, 0);
    assert_eq!(mediated_blk_request(&mut blks), Ok(0));
    assert_eq!(mediated_blk_list_get_from_pa(&blks, 0x5100_0000).unwrap().cache_ipa(), 0x5110_0000);
    assert!(mediated_blk_list_get_from_pa(&blks, 0x1234).is_none());
    let mut b = MediatedBlk { base_addr: 1, avail: true, content: content(0) };
    b.set_type(1);
    b.set_sector(77);
    b.set_count(8);
    assert_eq!(b.content.req, MediatedBlkReq { req_type: 1, sector: 77, count: 8 });
    mediated_blk_list_push(&mut blks, b, &[]);
    assert!(blks.blks[2].avail);
}

#[test]
fn mediated_handler_registration_and_messages() {
    let mut handlers = IpiHandlerList::new();
    assert!(mediated_dev_init(&mut handlers));
    assert!(!mediated_dev_init(&mut handlers));
    let mut q = blk_queue(vec![
        VringDesc { addr: 0x1000, len: 16, flags: 1, next: 1 },
        VringDesc { addr: 0x2000, len: 1024, flags: 1, next: 2 },
        VringDesc { addr: 0x3000, len: 1, flags: 2, next: 0 },
    ]);
    let headers = vec![Some(BlkReqHeader { req_type: VIRTIO_BLK_T_OUT, sector: 3 }), None, None];
    let region = BlkReqRegion { start: 100, size: 50 };
    let mut tasks = IoTaskQueue::new();
    let other = IpiMessage { ipi_type: IpiType::IpiTVMM, ipi_message: IpiInnerMsg::MediatedNotifyMsg { vm_id: 2 } };
    assert!(!mediated_ipi_handler(&other, &mut q, &headers, region, 0x9000, &mut tasks));
    assert!(tasks.tasks.is_empty());
    assert_eq!(q.last_avail_idx, 0);
    let m = IpiMessage { ipi_type: IpiType::IpiTMediatedDev, ipi_message: IpiInnerMsg::MediatedMsg { src_id: 2 } };
    assert!(mediated_ipi_handler(&m, &mut q, &headers, region, 0x9000, &mut tasks));
    assert_eq!(q.last_avail_idx, 1);
    assert_eq!(tasks.tasks.len(), 1);
    assert_eq!(tasks.tasks[0].msg.src_vmid, 2);
    assert_eq!(tasks.tasks[0].msg.sector, 103);
    assert_eq!(tasks.tasks[0].used, UsedInfo { desc_chain_head_idx: 0, used_len: 1024 });
}

#[test]
fn served_chain_is_handed_back_with_its_head() {
    let mut q = blk_queue(vec![
        VringDesc { addr: 0x1000, len: 16, flags: 1, next: 1 },
        VringDesc { addr: 0x2000, len: 1024, flags: 1, next: 2 },
        VringDesc { addr: 0x3000, len: 1, flags: 2, next: 0 },
    ]);
    let head = q.pop_avail_desc_idx().unwrap();
    assert_eq!(head, 0);
    let region = BlkReqRegion { start: 0, size: 100 };
    let o = rust_shyper::blk::virtio_blk_process_chain(&mut q, head, VIRTIO_BLK_T_OUT, 4, 2, region, false, 0).unwrap();
    assert_eq!(o.status, VIRTIO_BLK_S_OK);
    assert_eq!(o.status_hva, vm_ipa2hva(2, 0x3000));
    assert_eq!(o.total, 1024);
    assert!(o.task.is_none());
    let used = q.used.as_ref().unwrap();
    assert_eq!(used.idx, 1);
    assert_eq!(used.ring[0], VringUsedElem { id: 0, len: 1024 });
    let o = rust_shyper::blk::virtio_blk_process_chain(&mut q, head, VIRTIO_BLK_T_OUT, 4, 2, region, true, 0x7000).unwrap();
    assert!(o.task.is_some());
    assert_eq!(q.used.as_ref().unwrap().idx, 1);
    assert!(rust_shyper::blk::virtio_blk_process_chain(&mut q, head, VIRTIO_BLK_T_IN, 4, 2, region, false, 0).is_err());
    assert!(rust_shyper::blk::virtio_blk_process_chain(&mut q, 2, VIRTIO_BLK_T_OUT, 4, 2, region, false, 0).is_err());
    assert_eq!(q.used.as_ref().unwrap().idx, 1);
}

#[test]
fn console_chains_are_collected_across_vms() {
    let pair = ConsoleDescInner::new(2, 0xa002000);
    assert_eq!(pair.target_console(), (2, 0xa002000));
    assert_eq!((pair.cols, pair.rows), (80, 25));
    assert!(console_queue_transmits(1) && console_queue_transmits(5) && !console_queue_transmits(0));
    let mut tx = queue(4, vec![0, 0, 0, 0], 1);
    tx.desc_table = Some(vec![
        VringDesc { addr: 0x4000_0000, len: 10, flags: 1, next: 1 },
        VringDesc { addr: 0x4000_1000, len: 6, flags: 0, next: 0 },
    ]);
    let (iov, total) = virtio_console_tx_iov(&tx, 0, 1).unwrap();
    assert_eq!(total, 16);
    assert_eq!(iov, vec![
        BlkIov { data_bg: vm_ipa2hva(1, 0x4000_0000), len: 10 },
        BlkIov { data_bg: vm_ipa2hva(1, 0x4000_1000), len: 6 },
    ]);
    let mut rx = queue(4, vec![0, 0, 0, 0], 1);
    rx.desc_table = Some(vec![
        VringDesc { addr: 0x8000_0000, len: 8, flags: 3, next: 1 },
        VringDesc { addr: 0x8000_2000, len: 64, flags: 2, next: 0 },
    ]);
    let (head, rx_iov) = virtio_console_rx_iov(&mut rx, 2, total).unwrap().unwrap();
    assert_eq!(head, 0);
    assert_eq!(rx_iov.len(), 2);
    assert_eq!(rx_iov[1].data_bg, vm_ipa2hva(2, 0x8000_2000));
    assert_eq!(rx.last_avail_idx, 1);
    assert_eq!(virtio_console_rx_iov(&mut rx, 2, total), Ok(None));
    let mut short = queue(4, vec![0, 0, 0, 0], 1);
    short.desc_table = Some(vec![VringDesc { addr: 0x8000_0000, len: 8, flags: 2, next: 0 }]);
    assert_eq!(virtio_console_rx_iov(&mut short, 2, 16), Err(()));
    assert_eq!(short.last_avail_idx, 0);
}

#[test]
fn requests_stay_inside_the_vm_region() {
    let mut r = req(VIRTIO_BLK_T_IN, 60, &[4096], true);
    r.set_start(1000);
    let (t, task) = blk_req_handler(&r, 0, 1);
    assert_eq!(t, 0);
    assert!(task.is_none());
    let mut r = req(VIRTIO_BLK_T_IN, 56, &[4096], true);
    r.set_start(1000);
    let (t, task) = blk_req_handler(&r, 0, 1);
    assert_eq!(t, 4096);
    assert_eq!(task.unwrap().sector, 1056);
}

#[test]
fn notify_serves_every_offered_chain_in_ring_order() {
    let mut q = queue(4, vec![3, 0, 0, 0], 2);
    q.desc_table = Some(vec![
        VringDesc { addr: 0x1000, len: 16, flags: 1, next: 1 },
        VringDesc { addr: 0x2000, len: 512, flags: 1, next: 2 },
        VringDesc { addr: 0x3000, len: 1, flags: 2, next: 0 },
        VringDesc { addr: 0x4000, len: 16, flags: 1, next: 4 },
        VringDesc { addr: 0x5000, len: 1024, flags: 1, next: 5 },
        VringDesc { addr: 0x6000, len: 1, flags: 2, next: 0 },
    ]);
    let mut headers = vec![None; 6];
    headers[0] = Some(BlkReqHeader { req_type: VIRTIO_BLK_T_OUT, sector: 2 });
    headers[3] = Some(BlkReqHeader { req_type: VIRTIO_BLK_T_OUT, sector: 9 });
    let region = BlkReqRegion { start: 0, size: 100 };
    let (ok, outs) = virtio_blk_notify_handler(&mut q, &headers, 1, region, false, 0);
    assert!(ok);
    assert_eq!(outs.iter().map(|o| o.head).collect::<Vec<_>>(), vec![3, 0]);
    assert_eq!(outs[0].req.sector, 9);
    assert_eq!(q.last_avail_idx, 2);
    let used = q.used.as_ref().unwrap();
    assert_eq!(used.idx, 2);
    assert_eq!(used.ring[0], VringUsedElem { id: 3, len: 1024 });
    assert_eq!(used.ring[1], VringUsedElem { id: 0, len: 512 });
    q.avail.as_mut().unwrap().idx = 3;
    q.avail.as_mut().unwrap().ring[2] = 2;
    let (ok, outs) = virtio_blk_notify_handler(&mut q, &headers, 1, region, false, 0);
    assert!(!ok);
    assert!(outs.is_empty());
    assert_eq!(q.last_avail_idx, 3);
    assert_eq!(q.used.as_ref().unwrap().idx, 2);
}

#[test]
fn notify_on_queue_that_is_not_ready_changes_nothing() {
    let mut q = blk_queue(vec![VringDesc { addr: 0x1000, len: 16, flags: 0, next: 0 }]);
    q.ready = 0;
    let headers = vec![Some(BlkReqHeader { req_type: VIRTIO_BLK_T_OUT, sector: 3 })];
    let (ok, outs) = virtio_blk_notify_handler(&mut q, &headers, 1, BlkReqRegion { start: 0, size: 100 }, false, 0);
    assert!(!ok);
    assert!(outs.is_empty());
    assert_eq!(q.last_avail_idx, 0);
    assert_eq!(q.used.as_ref().unwrap().idx, 0);
}

#[test]
fn blk_config_space_defaults_to_zero() {
    let d = BlkDescInner::default();
    assert_eq!(d.writeback, 0);
    assert_eq!(d.topology.opt_io_size, 0);
    assert_eq!(d.max_discard_sectors, 0);
    assert_eq!(d.max_write_zeroes_seg, 0);
    assert_eq!(d.write_zeroes_may_unmap, 0);
}

#[test]
fn mediated_tasks_complete_in_submission_order() {
    let r = req(VIRTIO_BLK_T_IN, 1, &[512], true);
    let (_, t1) = blk_req_handler(&r, 0, 1);
    let (_, t2) = blk_req_handler(&r, 0, 1);
    let mut q = IoTaskQueue::new();
    add_task(&mut q, t1.unwrap(), UsedInfo { desc_chain_head_idx: 4, used_len: 512 });
    add_task(&mut q, t2.unwrap(), UsedInfo { desc_chain_head_idx: 7, used_len: 512 });
    assert_eq!(finish_front_task(&mut q), None);
    assert!(set_front_io_task_state(&mut q, AsyncTaskState::Finish));
    assert_eq!(finish_front_task(&mut q).unwrap().desc_chain_head_idx, 4);
    assert_eq!(finish_front_task(&mut q), None);
    assert_eq!(q.tasks.len(), 1);
}

#[test]
fn mediated_chains_queue_one_task_each() {

    let mut q = blk_queue(vec![
        VringDesc { addr: 0x1000, len: 16, flags: 1, next: 1 },
        VringDesc { addr: 0x2000, len: 1024, flags: 1, next: 2 },
        VringDesc { addr: 0x3000, len: 1, flags: 2, next: 0 },
    ]);
    let headers = vec![Some(BlkReqHeader { req_type: VIRTIO_BLK_T_OUT, sector: 3 }), None, None];
    let (ok, outs) = virtio_blk_notify_handler(&mut q, &headers, 2, BlkReqRegion { start: 100, size: 50 }, true, 0x9000);
    assert!(ok);
    assert_eq!(q.used.as_ref().unwrap().idx, 0);
    let mut tasks = IoTaskQueue::new();
    queue_mediated_tasks(&mut tasks, outs);
    assert_eq!(tasks.tasks.len(), 1);
    assert_eq!(tasks.tasks[0].msg.sector, 103);
    assert_eq!(tasks.tasks[0].msg.count, 2);
    assert_eq!(tasks.tasks[0].used, UsedInfo { desc_chain_head_idx: 0, used_len: 1024 });
    assert_eq!(tasks.tasks[0].state, AsyncTaskState::Pending);
}

#[test]
fn console_notify_forwards_with_a_copy_plan() {
    let mut tx = queue(4, vec![0, 0, 0, 0], 1);
    tx.vq_index = 1;
    tx.desc_table = Some(vec![
        VringDesc { addr: 0x4000_0000, len: 10, flags: 1, next: 1 },
        VringDesc { addr: 0x4000_1000, len: 6, flags: 0, next: 0 },
    ]);
    let mut rx = queue(4, vec![0, 0, 0, 0], 1);
    rx.desc_table = Some(vec![
        VringDesc { addr: 0x8000_0000, len: 8, flags: 3, next: 1 },
        VringDesc { addr: 0x8000_2000, len: 64, flags: 2, next: 0 },
    ]);
    let (ok, fws) = virtio_console_notify_handler(&mut tx, 1, &mut rx, 2);
    assert!(ok);
    assert_eq!(fws.len(), 1);
    assert_eq!((fws[0].tx_head, fws[0].len), (0, 16));
    let (rh, rx_iov, copies) = fws[0].delivered.clone().unwrap();
    assert_eq!(rh, 0);
    assert_eq!(copies, console_copy_plan(&fws[0].tx_iov, &rx_iov, 16));
    assert_eq!(copies.len(), 3);
    let (r0, r1) = (vm_ipa2hva(2, 0x8000_0000), vm_ipa2hva(2, 0x8000_2000));
    let (t0, t1) = (vm_ipa2hva(1, 0x4000_0000), vm_ipa2hva(1, 0x4000_1000));
    assert_eq!(copies[0], CopySeg { dst: r0, dst_off: 0, src: t0, src_off: 0, n: 8 });
    assert_eq!(copies[1], CopySeg { dst: r1, dst_off: 0, src: t0, src_off: 8, n: 2 });
    assert_eq!(copies[2], CopySeg { dst: r1, dst_off: 2, src: t1, src_off: 0, n: 6 });
    assert_eq!(tx.last_avail_idx, 1);
    assert_eq!(tx.used.as_ref().unwrap().ring[0], VringUsedElem { id: 0, len: 16 });
    assert_eq!(rx.used.as_ref().unwrap().ring[0], VringUsedElem { id: 0, len: 16 });
    let mut other = queue(4, vec![0, 0, 0, 0], 1);
    other.vq_index = 0;
    let (ok, fws) = virtio_console_notify_handler(&mut other, 1, &mut rx, 2);
    assert!(ok && fws.is_empty());
    assert_eq!(other.last_avail_idx, 0);
}
