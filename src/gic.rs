//! The GIC distributor's banked registers as the hypervisor programs them:
//! one enable bit, one priority byte and one target byte per interrupt.
use vstd::prelude::*;

verus! {

/// Interrupt ids the distributor covers.
pub const GIC_INTS_MAX: usize = 1024;

pub const GIC_SGIS_NUM: usize = 16;

pub const GIC_PRIVINT_NUM: usize = 32;

/// Priority the hypervisor gives its own interrupts.
pub const GIC_HYP_PRIO: u8 = 0x7f;

/// Byte `off / 8` of register value `v`.
pub open spec fn byte_field(v: u32, off: u32) -> u32 {
    (v >> off) & 0xff
}

/// Byte field of interrupt `int_id` in a bank of byte-per-interrupt
/// registers.
pub open spec fn byte_of(bank: Seq<u32>, int_id: int) -> u32 {
    byte_field(bank[int_id / 4], ((int_id % 4) * 8) as u32)
}

/// Bit of interrupt `int_id` in a bank of bit-per-interrupt registers.
pub open spec fn bit_in(bank: Seq<u32>, int_id: int) -> bool {
    (bank[int_id / 32] >> ((int_id % 32) as u32)) & 1 == 1
}

/// The distributor's enable, priority and target registers.
pub struct GicDistributor {
    pub isenabler: Vec<u32>,
    pub ipriorityr: Vec<u32>,
    pub itargetsr: Vec<u32>,
    pub ctlr: u32,
}

impl GicDistributor {
    /// Register banks of the right size.
    pub open spec fn wf(&self) -> bool {
        &&& self.isenabler@.len() == GIC_INTS_MAX / 32
        &&& self.ipriorityr@.len() == GIC_INTS_MAX / 4
        &&& self.itargetsr@.len() == GIC_INTS_MAX / 4
    }

    /// Priority of interrupt `int_id`.
    pub open spec fn prio_spec(&self, int_id: int) -> u32 {
        byte_of(self.ipriorityr@, int_id)
    }

    /// Target CPU-interface mask of interrupt `int_id`.
    pub open spec fn trgt_spec(&self, int_id: int) -> u32 {
        byte_of(self.itargetsr@, int_id)
    }

    /// Whether interrupt `int_id` is enabled.
    pub open spec fn enabled_spec(&self, int_id: int) -> bool {
        bit_in(self.isenabler@, int_id)
    }

    /// A distributor with every interrupt disabled, at priority 0, targeting
    /// no core.
    pub fn new() -> (r: Self)
        ensures
            r.wf(),
    {
        let mut isenabler: Vec<u32> = Vec::new();
        let mut ipriorityr: Vec<u32> = Vec::new();
        let mut itargetsr: Vec<u32> = Vec::new();
        let mut i: usize = 0;
        while i < GIC_INTS_MAX / 4
            invariant
                i <= GIC_INTS_MAX / 4,
                ipriorityr@.len() == i,
                itargetsr@.len() == i,
                isenabler@.len() == if i < GIC_INTS_MAX / 32 { i } else { GIC_INTS_MAX / 32 },
            decreases GIC_INTS_MAX / 4 - i,
        {
            ipriorityr.push(0);
            itargetsr.push(0);
            if i < GIC_INTS_MAX / 32 {
                isenabler.push(0);
            }
            i = i + 1;
        }
        GicDistributor { isenabler, ipriorityr, itargetsr, ctlr: 0 }
    }

    pub fn prio(&self, int_id: usize) -> (r: u32)
        requires
            self.wf(),
            int_id < GIC_INTS_MAX,
        ensures
            r == self.prio_spec(int_id as int),
    {
        let off: u32 = ((int_id % 4) * 8) as u32;
        (self.ipriorityr[int_id / 4] >> off) & 0xff
    }

    /// Sets the priority of interrupt `int_id`, leaving every other
    /// interrupt's priority as it was.
    pub fn set_prio(&mut self, int_id: usize, prio: u8)
        requires
            old(self).wf(),
            int_id < GIC_INTS_MAX,
        ensures
            final(self).wf(),
            final(self).prio_spec(int_id as int) == prio as u32,
            forall|j: int|
                0 <= j < GIC_INTS_MAX && j != int_id ==> #[trigger] byte_of(final(self).ipriorityr@, j)
                    == byte_of(old(self).ipriorityr@, j),
            final(self).itargetsr == old(self).itargetsr,
            final(self).isenabler == old(self).isenabler,
            final(self).ctlr == old(self).ctlr,
    {
        let idx = int_id / 4;
        let off: u32 = ((int_id % 4) * 8) as u32;
        let prev = self.ipriorityr[idx];
        let value = set_byte_field(prev, off, prio);
        self.ipriorityr.set(idx, value);
        proof {
            assert forall|j: int| 0 <= j < GIC_INTS_MAX && j != int_id implies #[trigger] byte_of(self.ipriorityr@, j) == byte_of(old(self).ipriorityr@, j) by {
                if j / 4 == idx as int {
                    lemma_byte_field_other(prev, off, ((j % 4) * 8) as u32, prio);
                }
            }
        }
    }

    pub fn trgt(&self, int_id: usize) -> (r: u32)
        requires
            self.wf(),
            int_id < GIC_INTS_MAX,
        ensures
            r == self.trgt_spec(int_id as int),
    {
        let off: u32 = ((int_id % 4) * 8) as u32;
        (self.itargetsr[int_id / 4] >> off) & 0xff
    }

    /// Sets the target mask of interrupt `int_id`, leaving every other
    /// interrupt's target as it was.
    pub fn set_trgt(&mut self, int_id: usize, trgt: u8)
        requires
            old(self).wf(),
            int_id < GIC_INTS_MAX,
        ensures
            final(self).wf(),
            final(self).trgt_spec(int_id as int) == trgt as u32,
            forall|j: int|
                0 <= j < GIC_INTS_MAX && j != int_id ==> #[trigger] byte_of(final(self).itargetsr@, j)
                    == byte_of(old(self).itargetsr@, j),
            final(self).ipriorityr == old(self).ipriorityr,
            final(self).isenabler == old(self).isenabler,
            final(self).ctlr == old(self).ctlr,
    {
        let idx = int_id / 4;
        let off: u32 = ((int_id % 4) * 8) as u32;
        let prev = self.itargetsr[idx];
        let value = set_byte_field(prev, off, trgt);
        self.itargetsr.set(idx, value);
        proof {
            assert forall|j: int| 0 <= j < GIC_INTS_MAX && j != int_id implies #[trigger] byte_of(self.itargetsr@, j) == byte_of(old(self).itargetsr@, j) by {
                if j / 4 == idx as int {
                    lemma_byte_field_other(prev, off, ((j % 4) * 8) as u32, trgt);
                }
            }
        }
    }

    /// Enables or disables interrupt `int_id`, leaving the others alone.
    pub fn set_enable(&mut self, int_id: usize, en: bool)
        requires
            old(self).wf(),
            int_id < GIC_INTS_MAX,
        ensures
            final(self).wf(),
            final(self).enabled_spec(int_id as int) == en,
            forall|j: int|
                0 <= j < GIC_INTS_MAX && j != int_id ==> #[trigger] bit_in(final(self).isenabler@, j)
                    == bit_in(old(self).isenabler@, j),
            final(self).ipriorityr == old(self).ipriorityr,
            final(self).itargetsr == old(self).itargetsr,
            final(self).ctlr == old(self).ctlr,
    {
        let idx = int_id / 32;
        let b: u32 = (int_id % 32) as u32;
        let prev = self.isenabler[idx];
        let value = if en {
            prev | (1u32 << b)
        } else {
            prev & !(1u32 << b)
        };
        assert(((prev | (1u32 << b)) >> b) & 1 == 1 && ((prev & !(1u32 << b)) >> b) & 1 != 1) by (bit_vector)
            requires
                b < 32,
        ;
        self.isenabler.set(idx, value);
        proof {
            assert forall|j: int| 0 <= j < GIC_INTS_MAX && j != int_id implies #[trigger] bit_in(self.isenabler@, j) == bit_in(old(self).isenabler@, j) by {
                if j / 32 == idx as int {
                    let c: u32 = (j % 32) as u32;
                    assert(c != b);
                    assert(((prev | (1u32 << b)) >> c) & 1 == (prev >> c) & 1 && ((prev & !(1u32 << b)) >> c) & 1 == (prev >> c) & 1) by (bit_vector)
                        requires
                            b < 32,
                            c < 32,
                            c != b,
                    ;
                }
            }
        }
    }

    /// Brings the shared interrupts to rest and turns the distributor on:
    /// every SPI disabled, at the lowest priority, targeting no core; the
    /// private interrupts are left alone.
    pub fn global_init(&mut self)
        requires
            old(self).wf(),
        ensures
            final(self).wf(),
            final(self).ctlr == old(self).ctlr | 1,
            forall|j: int| GIC_PRIVINT_NUM <= j < GIC_INTS_MAX ==> spi_at_rest(*final(self), j),
            forall|j: int|
                0 <= j < GIC_PRIVINT_NUM ==> #[trigger] bit_in(final(self).isenabler@, j) == bit_in(old(self).isenabler@, j)
                    && byte_of(final(self).ipriorityr@, j) == byte_of(old(self).ipriorityr@, j)
                    && byte_of(final(self).itargetsr@, j) == byte_of(old(self).itargetsr@, j),
    {
        let mut i: usize = 1;
        while i < GIC_INTS_MAX / 32
            invariant
                1 <= i <= GIC_INTS_MAX / 32,
                self.wf(),
                self.ctlr == old(self).ctlr,
                self.ipriorityr == old(self).ipriorityr,
                self.itargetsr == old(self).itargetsr,
                self.isenabler@[0] == old(self).isenabler@[0],
                forall|k: int| 1 <= k < i ==> self.isenabler@[k] == 0,
            decreases GIC_INTS_MAX / 32 - i,
        {
            self.isenabler.set(i, 0);
            i = i + 1;
        }
        let mut i: usize = GIC_PRIVINT_NUM / 4;
        while i < GIC_INTS_MAX / 4
            invariant
                GIC_PRIVINT_NUM / 4 <= i <= GIC_INTS_MAX / 4,
                self.wf(),
                self.ctlr == old(self).ctlr,
                self.isenabler@[0] == old(self).isenabler@[0],
                forall|k: int| 1 <= k < GIC_INTS_MAX / 32 ==> self.isenabler@[k] == 0,
                forall|k: int| 0 <= k < GIC_PRIVINT_NUM / 4 ==> self.ipriorityr@[k] == old(self).ipriorityr@[k]
                    && self.itargetsr@[k] == old(self).itargetsr@[k],
                forall|k: int| GIC_PRIVINT_NUM / 4 <= k < i ==> self.ipriorityr@[k] == 0xffff_ffffu32 && self.itargetsr@[k] == 0,
            decreases GIC_INTS_MAX / 4 - i,
        {
            self.ipriorityr.set(i, 0xffff_ffff);
            self.itargetsr.set(i, 0);
            i = i + 1;
        }
        self.ctlr = self.ctlr | 1;
        proof {
            assert forall|j: int| GIC_PRIVINT_NUM <= j < GIC_INTS_MAX implies spi_at_rest(*self, j) by {
                lemma_rest_bits(j);
            }
        }
    }

    /// Brings this core's private interrupts to rest: disabled, at the
    /// lowest priority. The shared interrupts are left alone.
    pub fn cpu_init(&mut self)
        requires
            old(self).wf(),
        ensures
            final(self).wf(),
            final(self).ctlr == old(self).ctlr,
            forall|j: int| 0 <= j < GIC_PRIVINT_NUM ==> #[trigger] private_at_rest(*final(self), j),
            forall|j: int| GIC_PRIVINT_NUM <= j < GIC_INTS_MAX ==> #[trigger] bit_in(final(self).isenabler@, j)
                == bit_in(old(self).isenabler@, j) && byte_of(final(self).ipriorityr@, j) == byte_of(old(self).ipriorityr@, j)
                && byte_of(final(self).itargetsr@, j) == byte_of(old(self).itargetsr@, j),
    {
        self.isenabler.set(0, 0);
        let mut i: usize = 0;
        while i < GIC_PRIVINT_NUM / 4
            invariant
                i <= GIC_PRIVINT_NUM / 4,
                self.wf(),
                self.ctlr == old(self).ctlr,
                self.isenabler@[0] == 0,
                forall|k: int| 1 <= k < GIC_INTS_MAX / 32 ==> self.isenabler@[k] == old(self).isenabler@[k],
                self.itargetsr == old(self).itargetsr,
                forall|k: int| GIC_PRIVINT_NUM / 4 <= k < GIC_INTS_MAX / 4 ==> self.ipriorityr@[k] == old(self).ipriorityr@[k],
                forall|k: int| 0 <= k < i ==> self.ipriorityr@[k] == 0xffff_ffffu32,
            decreases GIC_PRIVINT_NUM / 4 - i,
        {
            self.ipriorityr.set(i, 0xffff_ffff);
            i = i + 1;
        }
        proof {
            assert forall|j: int| 0 <= j < GIC_PRIVINT_NUM implies #[trigger] private_at_rest(*self, j) by {
                lemma_rest_bits(j);
            }
        }
    }
}

/// SPI `j` is disabled, at the lowest priority and targets no core.
pub open spec fn spi_at_rest(d: GicDistributor, j: int) -> bool {
    !d.enabled_spec(j) && d.prio_spec(j) == 0xff && d.trgt_spec(j) == 0
}

/// Private interrupt `j` is disabled and at the lowest priority.
pub open spec fn private_at_rest(d: GicDistributor, j: int) -> bool {
    !d.enabled_spec(j) && d.prio_spec(j) == 0xff
}

proof fn lemma_rest_bits(j: int)
    requires
        0 <= j,
    ensures
        !(((0u32 >> ((j % 32) as u32)) & 1) == 1),
        byte_field(0xffff_ffffu32, ((j % 4) * 8) as u32) == 0xff,
        byte_field(0u32, ((j % 4) * 8) as u32) == 0,
{
    let c: u32 = (j % 32) as u32;
    let off: u32 = ((j % 4) * 8) as u32;
    assert(off == 0 || off == 8 || off == 16 || off == 24);
    assert(((0u32 >> c) & 1) != 1) by (bit_vector);
    assert((0xffff_ffffu32 >> off) & 0xff == 0xff && (0u32 >> off) & 0xff == 0) by (bit_vector)
        requires
            off == 0 || off == 8 || off == 16 || off == 24,
    ;
}

/// `prev` with byte `off / 8` replaced by `val`.
fn set_byte_field(prev: u32, off: u32, val: u8) -> (r: u32)
    requires
        off == 0 || off == 8 || off == 16 || off == 24,
    ensures
        byte_field(r, off) == val as u32,
        r == (prev & !(0xffu32 << off)) | (((val as u32) << off) & (0xffu32 << off)),
{
    let mask: u32 = 0xffu32 << off;
    let r = (prev & !mask) | (((val as u32) << off) & mask);
    let v = val as u32;
    assert(v <= 0xff);
    assert((((prev & !(0xffu32 << off)) | ((v << off) & (0xffu32 << off))) >> off) & 0xff == v) by (bit_vector)
        requires
            v <= 0xff,
            off == 0 || off == 8 || off == 16 || off == 24,
    ;
    r
}

proof fn lemma_byte_field_other(prev: u32, off: u32, off2: u32, val: u8)
    requires
        off == 0 || off == 8 || off == 16 || off == 24,
        off2 == 0 || off2 == 8 || off2 == 16 || off2 == 24,
        off != off2,
    ensures
        byte_field((prev & !(0xffu32 << off)) | (((val as u32) << off) & (0xffu32 << off)), off2)
            == byte_field(prev, off2),
{
    let v = val as u32;
    assert((((prev & !(0xffu32 << off)) | ((v << off) & (0xffu32 << off))) >> off2) & 0xff == (prev >> off2) & 0xff) by (bit_vector)
        requires
            off == 0 || off == 8 || off == 16 || off == 24,
            off2 == 0 || off2 == 8 || off2 == 16 || off2 == 24,
            off != off2,
    ;
}

/// Whether `int_id` is private to a core (an SGI or a PPI).
pub fn gic_is_priv(int_id: usize) -> (r: bool)
    ensures
        r == (int_id < GIC_PRIVINT_NUM),
{
    int_id < GIC_PRIVINT_NUM
}

/// Whether `int_id` is a software-generated interrupt.
pub fn gic_is_sgi(int_id: usize) -> (r: bool)
    ensures
        r == (int_id < GIC_SGIS_NUM),
{
    int_id < GIC_SGIS_NUM
}

/// GICD_SGIR value that raises SGI `sgi_num` on CPU interface `cpu_if`.
pub fn send_sgi_value(cpu_if: usize, sgi_num: usize) -> (r: u32)
    requires
        cpu_if < 8,
    ensures
        r == (1u32 << (16 + cpu_if) as u32) | ((sgi_num as u64 & 0xf) as u32),
        (r >> 16u32) & 0xff == 1u32 << (cpu_if as u32),
        r & 0xf == (sgi_num as u64 & 0xf) as u32,
{
    let c = cpu_if as u32;
    let s = (sgi_num as u64 & 0xf) as u32;
    assert(s <= 0xf) by (bit_vector)
        requires
            s == (sgi_num as u64 & 0xf) as u32,
    ;
    assert((((1u32 << (16 + c)) | s) >> 16u32) & 0xff == 1u32 << c && ((1u32 << (16 + c)) | s) & 0xf == s) by (bit_vector)
        requires
            c < 8,
            s <= 0xf,
    ;
    (1u32 << (16 + c)) | s
}

/// Makes the hypervisor's interrupt `int_id` reach core `cpu_id` (whose
/// CPU interface has the same number): enabled or disabled as `en` says, at
/// the hypervisor's priority, targeting that core alone.
pub fn interrupt_arch_enable(gicd: &mut GicDistributor, cpu_id: usize, int_id: usize, en: bool)
    requires
        old(gicd).wf(),
        int_id < GIC_INTS_MAX,
        cpu_id < 8,
    ensures
        final(gicd).wf(),
        final(gicd).enabled_spec(int_id as int) == en,
        final(gicd).prio_spec(int_id as int) == GIC_HYP_PRIO as u32,
        final(gicd).trgt_spec(int_id as int) == 1u32 << (cpu_id as u32),
        forall|j: int|
            0 <= j < GIC_INTS_MAX && j != int_id ==> #[trigger] bit_in(final(gicd).isenabler@, j)
                == bit_in(old(gicd).isenabler@, j),
        forall|j: int|
            0 <= j < GIC_INTS_MAX && j != int_id ==> #[trigger] byte_of(final(gicd).ipriorityr@, j)
                == byte_of(old(gicd).ipriorityr@, j),
        forall|j: int|
            0 <= j < GIC_INTS_MAX && j != int_id ==> #[trigger] byte_of(final(gicd).itargetsr@, j)
                == byte_of(old(gicd).itargetsr@, j),
        final(gicd).ctlr == old(gicd).ctlr,
{
    let cpuif = crate::board::cpuid_to_cpuif(cpu_id);
    gicd.set_enable(int_id, en);
    gicd.set_prio(int_id, GIC_HYP_PRIO);
    assert((1u8 << (cpuif as u8)) as u32 == 1u32 << (cpuif as u32)) by (bit_vector)
        requires
            cpuif < 8,
    ;
    gicd.set_trgt(int_id, 1u8 << (cpuif as u8));
}

/// Interrupt set-up of core `cpu_id`: core 0 first brings the shared
/// interrupts to rest and turns the distributor on; every core then brings
/// its private interrupts to rest and takes the GIC maintenance interrupt.
pub fn interrupt_arch_init(gicd: &mut GicDistributor, cpu_id: usize)
    requires
        old(gicd).wf(),
        cpu_id < 8,
    ensures
        final(gicd).wf(),
        final(gicd).enabled_spec(crate::board::GIC_MAINTENANCE_INT_ID as int),
        final(gicd).prio_spec(crate::board::GIC_MAINTENANCE_INT_ID as int) == GIC_HYP_PRIO as u32,
        final(gicd).trgt_spec(crate::board::GIC_MAINTENANCE_INT_ID as int) == 1u32 << (cpu_id as u32),
        forall|j: int|
            0 <= j < GIC_PRIVINT_NUM && j != crate::board::GIC_MAINTENANCE_INT_ID ==> #[trigger] private_at_rest(*final(gicd), j),
        cpu_id == 0 ==> final(gicd).ctlr == old(gicd).ctlr | 1,
        cpu_id != 0 ==> final(gicd).ctlr == old(gicd).ctlr,
        cpu_id == 0 ==> forall|j: int| GIC_PRIVINT_NUM <= j < GIC_INTS_MAX ==> spi_at_rest(*final(gicd), j),
        cpu_id != 0 ==> forall|j: int| GIC_PRIVINT_NUM <= j < GIC_INTS_MAX ==> #[trigger] bit_in(final(gicd).isenabler@, j)
            == bit_in(old(gicd).isenabler@, j) && byte_of(final(gicd).ipriorityr@, j) == byte_of(old(gicd).ipriorityr@, j)
            && byte_of(final(gicd).itargetsr@, j) == byte_of(old(gicd).itargetsr@, j),
{
    if cpu_id == 0 {
        gicd.global_init();
    }
    let ghost g1 = *gicd;
    gicd.cpu_init();
    let ghost g2 = *gicd;
    interrupt_arch_enable(gicd, cpu_id, crate::board::GIC_MAINTENANCE_INT_ID, true);
    proof {
        assert forall|j: int| 0 <= j < GIC_PRIVINT_NUM && j != crate::board::GIC_MAINTENANCE_INT_ID implies #[trigger] private_at_rest(*gicd, j) by {
            assert(private_at_rest(g2, j));
            assert(bit_in(gicd.isenabler@, j) == bit_in(g2.isenabler@, j));
            assert(byte_of(gicd.ipriorityr@, j) == byte_of(g2.ipriorityr@, j));
        }
        if cpu_id == 0 {
            assert forall|j: int| GIC_PRIVINT_NUM <= j < GIC_INTS_MAX implies spi_at_rest(*gicd, j) by {
                assert(spi_at_rest(g1, j));
                assert(bit_in(g2.isenabler@, j) == bit_in(g1.isenabler@, j));
                assert(bit_in(gicd.isenabler@, j) == bit_in(g2.isenabler@, j));
                assert(byte_of(gicd.ipriorityr@, j) == byte_of(g2.ipriorityr@, j));
                assert(byte_of(gicd.itargetsr@, j) == byte_of(g2.itargetsr@, j));
            }
        } else {
            assert forall|j: int| GIC_PRIVINT_NUM <= j < GIC_INTS_MAX implies #[trigger] bit_in(gicd.isenabler@, j)
                == bit_in(old(gicd).isenabler@, j) && byte_of(gicd.ipriorityr@, j) == byte_of(old(gicd).ipriorityr@, j)
                && byte_of(gicd.itargetsr@, j) == byte_of(old(gicd).itargetsr@, j) by {
                assert(bit_in(g2.isenabler@, j) == bit_in(g1.isenabler@, j));
                assert(bit_in(gicd.isenabler@, j) == bit_in(g2.isenabler@, j));
                assert(byte_of(gicd.ipriorityr@, j) == byte_of(g2.ipriorityr@, j));
                assert(byte_of(gicd.itargetsr@, j) == byte_of(g2.itargetsr@, j));
            }
        }
    }
}

/// State of an interrupt in the distributor or a list register.
#[derive(Clone, Copy, Debug, PartialEq, Eq, Structural)]
pub enum IrqState {
    IrqSInactive,
    IrqSPend,
    IrqSActive,
    IrqSPendActive,
}

impl IrqState {
    /// The state encoded in the two low bits of `num` (pending in bit 0,
    /// active in bit 1).
    pub fn num_to_state(num: usize) -> (r: IrqState)
        ensures
            r.to_num_spec() == (num as u64 & 3),
    {
        let v = num as u64 & 3;
        assert(v <= 3) by (bit_vector)
            requires
                v == num as u64 & 3,
        ;
        match v {
            0 => IrqState::IrqSInactive,
            1 => IrqState::IrqSPend,
            2 => IrqState::IrqSActive,
            _ => IrqState::IrqSPendActive,
        }
    }

    pub open spec fn to_num_spec(self) -> u64 {
        match self {
            IrqState::IrqSInactive => 0,
            IrqState::IrqSPend => 1,
            IrqState::IrqSActive => 2,
            IrqState::IrqSPendActive => 3,
        }
    }

    /// The two-bit encoding of the state.
    pub fn to_num(&self) -> (r: usize)
        ensures
            r == self.to_num_spec(),
    {
        match self {
            IrqState::IrqSInactive => 0,
            IrqState::IrqSPend => 1,
            IrqState::IrqSActive => 2,
            IrqState::IrqSPendActive => 3,
        }
    }
}

} // verus!
