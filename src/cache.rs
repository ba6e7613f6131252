//! Cache geometry: the cache levels a core reports through CLIDR_EL1 and
//! CCSIDR_EL1, the number of page colours of the last-level cache, and the
//! cache lines a maintenance operation over an address range touches.
use vstd::prelude::*;

use crate::address::PAGE_SIZE;

verus! {

/// Most cache levels the architecture describes.
pub const MAX_CACHE_LEVEL: usize = 7;

/// Line size assumed by cache maintenance over a range.
pub const MIN_LINE_SIZE: usize = 64;

#[derive(Clone, Copy, Debug, PartialEq, Eq, Structural)]
pub enum CacheType {
    NoCache,
    Instruction,
    Data,
    Separate,
    Unified,
}

#[derive(Clone, Copy, Debug, PartialEq, Eq, Structural)]
pub enum CacheIndexed {
    Pipt,
    Vipt,
}

/// One cache level.
#[derive(Clone, Copy, Debug, PartialEq, Eq, Structural)]
pub struct Aarch64CacheInfo {
    pub level: usize,
    pub size: u64,
    pub num_sets: u64,
    pub cache_type: CacheType,
    pub indexed: CacheIndexed,
    pub associativity: u64,
    pub line_size: u64,
    pub has_ccidx: bool,
}

/// All cache levels of a core, the first unified level (shared by the
/// cores), and the number of levels.
pub struct CpuCacheInfo {
    pub info_list: Vec<Aarch64CacheInfo>,
    pub min_share_level: usize,
    pub num_levels: usize,
}

impl Aarch64CacheInfo {
    /// A cache level of `num_sets` sets of `associativity` lines of
    /// `line_size` bytes.
    pub fn new(
        level: usize,
        num_sets: u64,
        associativity: u64,
        line_size: u64,
        cache_type: CacheType,
        indexed: CacheIndexed,
        has_ccidx: bool,
    ) -> (r: Self)
        requires
            line_size > 0,
            num_sets * associativity * line_size <= u64::MAX,
        ensures
            r.size == num_sets * associativity * line_size,
            r.level == level,
            r.num_sets == num_sets,
            r.associativity == associativity,
            r.line_size == line_size,
            r.cache_type == cache_type,
            r.indexed == indexed,
            r.has_ccidx == has_ccidx,
    {
        assert(num_sets * associativity <= u64::MAX) by (nonlinear_arith)
            requires
                num_sets * associativity * line_size <= u64::MAX,
                line_size > 0,
                num_sets >= 0,
                associativity >= 0,
        {
            assert(num_sets * associativity * line_size >= num_sets * associativity);
        }
        let size = num_sets * associativity * line_size;
        Aarch64CacheInfo {
            level,
            size,
            num_sets,
            associativity,
            line_size,
            cache_type,
            indexed,
            has_ccidx,
        }
    }

    /// Page colours of this cache: the pages that fit in one way.
    pub fn num_colors(&self) -> (r: u64)
        requires
            self.associativity > 0,
            self.associativity * (PAGE_SIZE as u64) <= u64::MAX,
        ensures
            r == self.size as int / (self.associativity * (PAGE_SIZE as u64)) as int,
    {
        let d = self.associativity * (PAGE_SIZE as u64);
        assert(d > 0) by (nonlinear_arith)
            requires
                d == self.associativity * 4096,
                self.associativity > 0,
        ;
        self.size / d
    }

    pub fn level(&self) -> (r: usize)
        ensures
            r == self.level,
    {
        self.level
    }

    pub fn num_sets(&self) -> (r: u64)
        ensures
            r == self.num_sets,
    {
        self.num_sets
    }

    pub fn size(&self) -> (r: u64)
        ensures
            r == self.size,
    {
        self.size
    }

    pub fn ways(&self) -> (r: u64)
        ensures
            r == self.associativity,
    {
        self.associativity
    }

    pub fn line_size(&self) -> (r: u64)
        ensures
            r == self.line_size,
    {
        self.line_size
    }
}

/// The cache type CLIDR_EL1 reports for `level` (1-based): its 3-bit Ctype
/// field.
pub open spec fn ctype_spec(clidr: u64, level: int) -> u64 {
    (clidr >> (3 * (level - 1)) as u64) & 7
}

pub fn ctype(clidr: u64, level: usize) -> (r: u64)
    requires
        1 <= level <= MAX_CACHE_LEVEL,
    ensures
        r == ctype_spec(clidr, level as int),
        r < 8,
{
    let shift: u64 = 3 * (level as u64 - 1);
    assert((clidr >> shift) & 7 < 8) by (bit_vector);
    (clidr >> shift) & 7
}

/// The cache type a Ctype value names.
pub open spec fn cache_type_of(ctype: u64) -> CacheType {
    if ctype == 1 {
        CacheType::Instruction
    } else if ctype == 2 {
        CacheType::Data
    } else if ctype == 3 {
        CacheType::Separate
    } else if ctype == 4 {
        CacheType::Unified
    } else {
        CacheType::NoCache
    }
}

/// The levels from `level` on that CLIDR_EL1 reports present, counted up
/// to the first absent one, with at most six levels in all.
pub open spec fn clidr_levels_from(clidr: u64, level: int) -> int
    decreases MAX_CACHE_LEVEL - level,
{
    if level < 1 || level >= MAX_CACHE_LEVEL || ctype_spec(clidr, level) == 0 {
        level - 1
    } else {
        clidr_levels_from(clidr, level + 1)
    }
}

/// Number of cache levels: the levels before the first one CLIDR_EL1
/// reports as absent, at most six.
pub fn init_cache_level(clidr: u64) -> (r: usize)
    ensures
        r < MAX_CACHE_LEVEL,
        forall|l: int| 1 <= l <= r ==> #[trigger] ctype_spec(clidr, l) != 0,
        r + 1 < MAX_CACHE_LEVEL ==> ctype_spec(clidr, r + 1) == 0,
        r == clidr_levels_from(clidr, 1),
{
    let mut level: usize = 1;
    while level < MAX_CACHE_LEVEL && ctype(clidr, level) != 0
        invariant
            1 <= level <= MAX_CACHE_LEVEL,
            clidr_levels_from(clidr, 1) == clidr_levels_from(clidr, level as int),
            forall|l: int| 1 <= l < level ==> #[trigger] ctype_spec(clidr, l) != 0,
        decreases MAX_CACHE_LEVEL - level,
    {
        level = level + 1;
    }
    level - 1
}

/// Sets, ways and line size a CCSIDR_EL1 value reports: with FEAT_CCIDX
/// NumSets is bits [55:32] and Associativity bits [23:3], otherwise bits
/// [27:13] and [12:3]; LineSize, bits [2:0], is log2(bytes) - 4.
pub open spec fn ccsidr_geometry(ccsidr: u64, has_ccidx: bool) -> (u64, u64, u64) {
    let sets = if has_ccidx {
        ((ccsidr >> 32u64) & 0xff_ffff) + 1
    } else {
        ((ccsidr >> 13u64) & 0x7fff) + 1
    };
    let ways = if has_ccidx {
        ((ccsidr >> 3u64) & 0x1f_ffff) + 1
    } else {
        ((ccsidr >> 3u64) & 0x3ff) + 1
    };
    (sets as u64, ways as u64, 1u64 << ((ccsidr & 7) + 4))
}

/// Describes cache level `level` from the register values the core reports
/// for it.
pub fn get_cache_info(level: usize, clidr: u64, ccsidr: u64, ctr: u64, has_ccidx: bool) -> (r:
    Aarch64CacheInfo)
    requires
        1 <= level <= MAX_CACHE_LEVEL,
    ensures
        r.level == level,
        (r.num_sets, r.associativity, r.line_size) == ccsidr_geometry(
            ccsidr,
            has_ccidx,
        ),
        r.size == r.num_sets * r.associativity * r.line_size,
        r.cache_type == cache_type_of(ctype_spec(clidr, level as int)),
        r.indexed == (if level == 1 && ctr & 0xc000 != 0xc000 {
            CacheIndexed::Vipt
        } else {
            CacheIndexed::Pipt
        }),
        r.has_ccidx == has_ccidx,
{
    assert((ccsidr >> 32u64) & 0xff_ffff <= 0xff_ffff && (ccsidr >> 13u64) & 0x7fff <= 0x7fff && (
    ccsidr >> 3u64) & 0x1f_ffff <= 0x1f_ffff && (ccsidr >> 3u64) & 0x3ff <= 0x3ff) by (bit_vector);
    let sets: u64 = if has_ccidx {
        ((ccsidr >> 32u64) & 0xff_ffff) + 1
    } else {
        ((ccsidr >> 13u64) & 0x7fff) + 1
    };
    let ways: u64 = if has_ccidx {
        ((ccsidr >> 3u64) & 0x1f_ffff) + 1
    } else {
        ((ccsidr >> 3u64) & 0x3ff) + 1
    };
    let ls = ccsidr & 7;
    assert(ls < 8) by (bit_vector)
        requires
            ls == ccsidr & 7,
    ;
    assert((ccsidr >> 32u64) & 0xff_ffff <= 0xff_ffff && (ccsidr >> 13u64) & 0x7fff <= 0x7fff && (
    ccsidr >> 3u64) & 0x1f_ffff <= 0x1f_ffff && (ccsidr >> 3u64) & 0x3ff <= 0x3ff) by (bit_vector);
    assert(1u64 << (ls + 4) <= 2048) by (bit_vector)
        requires
            ls < 8,
    ;
    let line: u64 = 1u64 << (ls + 4);
    assert(sets * ways * line <= 0x100_0000 * 0x20_0000 * 2048) by (nonlinear_arith)
        requires
            sets <= 0x100_0000,
            ways <= 0x20_0000,
            line <= 2048,
    ;
    let ct = match ctype(clidr, level) {
        1 => CacheType::Instruction,
        2 => CacheType::Data,
        3 => CacheType::Separate,
        4 => CacheType::Unified,
        _ => CacheType::NoCache,
    };
    let indexed = if level == 1 && ctr & 0xc000 != 0xc000 {
        CacheIndexed::Vipt
    } else {
        CacheIndexed::Pipt
    };
    assert(line > 0) by (bit_vector)
        requires
            line == 1u64 << (ls + 4),
            ls < 8,
    ;
    Aarch64CacheInfo::new(
        level,
        sets,
        ways,
        line,
        ct,
        indexed,
        has_ccidx,
    )
}

/// Whether `info` describes the cache level it names as the core's
/// registers do: geometry from its CCSIDR_EL1 value, type from CLIDR_EL1,
/// indexing from CTR_EL0.
pub open spec fn level_described(info: Aarch64CacheInfo, clidr: u64, ccsidr: u64, ctr: u64, has_ccidx: bool) -> bool {
    &&& (info.num_sets, info.associativity, info.line_size) == ccsidr_geometry(ccsidr, has_ccidx)
    &&& info.size == info.num_sets * info.associativity * info.line_size
    &&& info.cache_type == cache_type_of(ctype_spec(clidr, info.level as int))
    &&& info.indexed == (if info.level == 1 && ctr & 0xc000 != 0xc000 {
        CacheIndexed::Vipt
    } else {
        CacheIndexed::Pipt
    })
    &&& info.has_ccidx == has_ccidx
}

/// Whether `l` is the first unified level among levels `1..=n` of `info`.
pub open spec fn first_unified(info: Seq<Aarch64CacheInfo>, l: int) -> bool {
    &&& 1 <= l <= info.len()
    &&& info[l - 1].cache_type == CacheType::Unified
    &&& forall|k: int| 0 <= k < l - 1 ==> info[k].cache_type != CacheType::Unified
}

/// The cache-identification registers a guest's reads of which are trapped.
#[derive(Clone, Copy, Debug, PartialEq, Eq, Structural)]
pub enum CacheReg {
    Ccsidr,
    Clidr,
    Csselr,
    Ctr,
}

/// The emulators cache initialisation registers, keyed by the encoding of
/// CCSIDR_EL1, CLIDR_EL1, CSSELR_EL1 and CTR_EL0.
pub open spec fn cache_reg_entries() -> Seq<(u64, CacheReg)> {
    seq![(0x30_4000u64, CacheReg::Ccsidr), (0x32_4000u64, CacheReg::Clidr), (0x30_8000u64, CacheReg::Csselr), (0x32_c000u64, CacheReg::Ctr)]
}

/// Describes every cache level of a core from its CLIDR_EL1, the CCSIDR_EL1
/// value of each level (level 1 first) and its CTR_EL0, and registers the
/// emulators of the cache-identification registers in `regs`. The shared
/// level is the first unified one, 0 when there is none.
pub fn cache_init(clidr: u64, ccsidrs: &[u64], ctr: u64, has_ccidx: bool, regs: &mut Vec<(u64, CacheReg)>) -> (r: CpuCacheInfo)
    ensures
        final(regs)@ == old(regs)@ + cache_reg_entries(),
        r.num_levels <= ccsidrs@.len(),
        r.num_levels < MAX_CACHE_LEVEL,
        r.info_list@.len() == r.num_levels,
        forall|k: int| 0 <= k < r.num_levels ==> (#[trigger] r.info_list@[k]).level == k + 1,
        r.min_share_level == 0 ==> forall|k: int| 0 <= k < r.num_levels ==> (#[trigger] r.info_list@[k]).cache_type != CacheType::Unified,
        r.min_share_level != 0 ==> first_unified(r.info_list@, r.min_share_level as int),
        r.num_levels == (if clidr_levels_from(clidr, 1) < ccsidrs@.len() { clidr_levels_from(clidr, 1) } else { ccsidrs@.len() as int }),
        forall|k: int| 0 <= k < r.num_levels ==> level_described(#[trigger] r.info_list@[k], clidr, ccsidrs@[k], ctr, has_ccidx),
{
    let levels = init_cache_level(clidr);
    let num_levels = if levels < ccsidrs.len() { levels } else { ccsidrs.len() };
    let mut info_list: Vec<Aarch64CacheInfo> = Vec::new();
    let mut min_share_level: usize = 0;
    let mut i: usize = 1;
    while i <= num_levels
        invariant
            1 <= i <= num_levels + 1,
            num_levels < MAX_CACHE_LEVEL,
            num_levels <= ccsidrs@.len(),
            info_list@.len() == i - 1,
            forall|k: int| 0 <= k < i - 1 ==> (#[trigger] info_list@[k]).level == k + 1,
            min_share_level == 0 ==> forall|k: int| 0 <= k < i - 1 ==> (#[trigger] info_list@[k]).cache_type != CacheType::Unified,
            min_share_level < i,
            min_share_level != 0 ==> first_unified(info_list@, min_share_level as int),
            forall|k: int| 0 <= k < i - 1 ==> level_described(#[trigger] info_list@[k], clidr, ccsidrs@[k], ctr, has_ccidx),
        decreases num_levels + 1 - i,
    {
        let info = get_cache_info(i, clidr, ccsidrs[i - 1], ctr, has_ccidx);
        let ghost before = info_list@;
        info_list.push(info);
        proof {
            assert forall|k: int| 0 <= k < i - 1 implies #[trigger] info_list@[k] == before[k] by {}
        }
        if info.cache_type == CacheType::Unified && min_share_level == 0 {
            min_share_level = i;
        }
        i = i + 1;
    }
    let ghost r0 = regs@;
    regs.push((crate::exception::sysreg_encode_addr(3, 1, 0, 0, 0), CacheReg::Ccsidr));
    regs.push((crate::exception::sysreg_encode_addr(3, 1, 0, 0, 1), CacheReg::Clidr));
    regs.push((crate::exception::sysreg_encode_addr(3, 2, 0, 0, 0), CacheReg::Csselr));
    regs.push((crate::exception::sysreg_encode_addr(3, 3, 0, 0, 1), CacheReg::Ctr));
    assert(regs@ =~= r0 + cache_reg_entries());
    CpuCacheInfo { info_list, min_share_level, num_levels }
}

/// Value a guest reads from CCSIDR_EL1: the core's own for the level that
/// CSSELR_EL1 selects; writes are refused. The shared level's geometry is
/// not shadowed, so a read that selects it is not handled here.
pub fn vcache_ccsidr_el1_handler(write: bool, csselr: u64, min_share_level: usize, ccsidr: u64) -> (r: Option<u64>)
    requires
        write || ((csselr >> 1u64) & 7) + 1 != min_share_level,
    ensures
        r == (if write { None } else { Some(ccsidr) }),
{
    if write {
        None
    } else {
        Some(ccsidr)
    }
}

/// Value a guest reads from CLIDR_EL1: the core's own; writes are refused.
pub fn vcache_clidr_el1_handler(write: bool, clidr: u64) -> (r: Option<u64>)
    ensures
        r == (if write { None } else { Some(clidr) }),
{
    if write {
        None
    } else {
        Some(clidr)
    }
}

/// A guest access to CSSELR_EL1: a write sets it to the guest's register
/// value, a read returns it. Gives the new CSSELR_EL1 and the value read.
pub fn vcache_csselr_el1_handler(write: bool, gpr: u64, csselr: u64) -> (r: (u64, Option<u64>))
    ensures
        r == (if write { (gpr, None::<u64>) } else { (csselr, Some(csselr)) }),
{
    if write {
        (gpr, None)
    } else {
        (csselr, Some(csselr))
    }
}

/// Value a guest reads from CTR_EL0: the core's own; writes are refused.
pub fn vcache_ctr_el0_handler(write: bool, ctr: u64) -> (r: Option<u64>)
    ensures
        r == (if write { None } else { Some(ctr) }),
{
    if write {
        None
    } else {
        Some(ctr)
    }
}

/// The cache lines maintenance over `[va, va + len)` touches: the first
/// line's address and the number of lines.
pub fn cache_flush_lines(va: u64, len: u64) -> (r: (u64, u64))
    requires
        va + len + MIN_LINE_SIZE <= u64::MAX,
    ensures
        r.0 == va - va % 64,
        r.0 + r.1 * 64 >= va + len,
        len > 0 ==> r.0 + (r.1 - 1) * 64 < va + len,
        len == 0 ==> r.1 == if va % 64 == 0 { 0u64 } else { 1u64 },
{
    let start = va - va % 64;
    let end = va + len;
    let count = (end - start + 63) / 64;
    assert(start + count * 64 >= end && (end > start ==> start + (count - 1) * 64 < end)) by (nonlinear_arith)
        requires
            count == (end - start + 63) / 64,
            start <= end,
    ;
    (start, count)
}

/// Bytes per unit `index`: B, KiB, MiB.
pub open spec fn unit_div(index: usize) -> int {
    if index == 0 {
        1
    } else if index == 1 {
        1024
    } else {
        1048576
    }
}

/// A size in bytes shown in the largest unit (B, KiB, MiB) that leaves a
/// non-zero value: the value and the unit's index.
pub fn size_with_unit(size: u64) -> (r: (u64, usize))
    ensures
        r.1 <= 2,
        r.0 == size as int / unit_div(r.1),
        r.1 < 2 ==> r.0 < 1024,
{
    let mut s = size;
    let mut index: usize = 0;
    while index < 2
        invariant
            index <= 2,
            s == size as int / unit_div(index),
        decreases 2 - index,
    {
        if s / 1024 == 0 {
            return (s, index);
        }
        assert(size as int / 1048576 == (size as int / 1024) / 1024) by (nonlinear_arith);
        s = s / 1024;
        index = index + 1;
    }
    (s, index)
}

} // verus!
