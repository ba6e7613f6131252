//! Verified core of an AArch64 type-1 hypervisor: the data models and the
//! decision logic behind VM configuration, vCPU placement and scheduling,
//! second-stage translation, emulated-device routing, virtio rings, mediated
//! block I/O, inter-processor messages and hypercall dispatch.

pub mod address;
pub mod bits;
pub mod blk;
pub mod board;
pub mod cache;
pub mod config;
pub mod console;
pub mod emu;
pub mod exception;
pub mod gic;
pub mod hvc;
pub mod ipi;
pub mod mediated;
pub mod pagetable;
pub mod psci;
pub mod sched;
pub mod timer;
pub mod vcpu;
pub mod virtq;
pub mod vm;
