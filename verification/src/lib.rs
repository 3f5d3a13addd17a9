//! Peripheral access for the Arm Fixed Virtual Platform (Base platform FVPs): the register
//! encodings of the FVP power controller and system peripheral, and the rule by which the
//! peripherals are handed out once.

pub mod power_controller;
pub mod system;

use core::ops::RangeInclusive;
use vstd::prelude::*;

verus! {

/// The regions of 'Table 3-3 Base Platform memory map', in ascending order, each as its first
/// and last address: trusted boot ROM, trusted SRAM, trusted DRAM, NOR flash 0, NOR flash 1,
/// PSRAM, VRAM, non-trusted ROM, non-trusted SRAM, DRAM 0, DRAM 1, DRAM 2.
pub open spec fn memory_map_regions() -> Seq<(u64, u64)> {
    seq![
        (0x00_0000_0000u64, 0x00_03FF_FFFFu64),
        (0x00_0400_0000u64, 0x00_0403_FFFFu64),
        (0x00_0600_0000u64, 0x00_07FF_FFFFu64),
        (0x00_0800_0000u64, 0x00_0BFF_FFFFu64),
        (0x00_0C00_0000u64, 0x00_0FFF_FFFFu64),
        (0x00_1400_0000u64, 0x00_17FF_FFFFu64),
        (0x00_1800_0000u64, 0x00_19FF_FFFFu64),
        (0x00_1F00_0000u64, 0x00_1F00_0FFFu64),
        (0x00_2E00_0000u64, 0x00_2E00_FFFFu64),
        (0x00_8000_0000u64, 0x00_FFFF_FFFFu64),
        (0x08_8000_0000u64, 0x0F_FFFF_FFFFu64),
        (0x88_0000_0000u64, 0xFF_FFFF_FFFFu64),
    ]
}

/// Whether `range` covers exactly the region at `index` of the memory map.
pub open spec fn is_memory_region(range: RangeInclusive<u64>, index: int) -> bool {
    &&& range@.start == memory_map_regions()[index].0
    &&& range@.end == memory_map_regions()[index].1
    &&& !range@.exhausted
}

/// Memory map based on 'Table 3-3 Base Platform memory map'.
pub struct MemoryMap;

impl MemoryMap {
    #[allow(non_snake_case)]
    pub fn TRUSTED_BOOT_ROM() -> (r: RangeInclusive<u64>)
        ensures
            is_memory_region(r, 0),
    {
        0x00_0000_0000..=0x00_03FF_FFFF
    }

    #[allow(non_snake_case)]
    pub fn TRUSTED_SRAM() -> (r: RangeInclusive<u64>)
        ensures
            is_memory_region(r, 1),
    {
        0x00_0400_0000..=0x00_0403_FFFF
    }

    #[allow(non_snake_case)]
    pub fn TRUSTED_DRAM() -> (r: RangeInclusive<u64>)
        ensures
            is_memory_region(r, 2),
    {
        0x00_0600_0000..=0x00_07FF_FFFF
    }

    #[allow(non_snake_case)]
    pub fn NOR_FLASH0() -> (r: RangeInclusive<u64>)
        ensures
            is_memory_region(r, 3),
    {
        0x00_0800_0000..=0x00_0BFF_FFFF
    }

    #[allow(non_snake_case)]
    pub fn NOR_FLASH1() -> (r: RangeInclusive<u64>)
        ensures
            is_memory_region(r, 4),
    {
        0x00_0C00_0000..=0x00_0FFF_FFFF
    }

    #[allow(non_snake_case)]
    pub fn PSRAM() -> (r: RangeInclusive<u64>)
        ensures
            is_memory_region(r, 5),
    {
        0x00_1400_0000..=0x00_17FF_FFFF
    }

    #[allow(non_snake_case)]
    pub fn VRAM() -> (r: RangeInclusive<u64>)
        ensures
            is_memory_region(r, 6),
    {
        0x00_1800_0000..=0x00_19FF_FFFF
    }

    #[allow(non_snake_case)]
    pub fn NON_TRUSTED_ROM() -> (r: RangeInclusive<u64>)
        ensures
            is_memory_region(r, 7),
    {
        0x00_1F00_0000..=0x00_1F00_0FFF
    }

    #[allow(non_snake_case)]
    pub fn NON_TRUSTED_SRAM() -> (r: RangeInclusive<u64>)
        ensures
            is_memory_region(r, 8),
    {
        0x00_2E00_0000..=0x00_2E00_FFFF
    }

    #[allow(non_snake_case)]
    pub fn DRAM0() -> (r: RangeInclusive<u64>)
        ensures
            is_memory_region(r, 9),
    {
        0x00_8000_0000..=0x00_FFFF_FFFF
    }

    #[allow(non_snake_case)]
    pub fn DRAM1() -> (r: RangeInclusive<u64>)
        ensures
            is_memory_region(r, 10),
    {
        0x08_8000_0000..=0x0F_FFFF_FFFF
    }

    #[allow(non_snake_case)]
    pub fn DRAM2() -> (r: RangeInclusive<u64>)
        ensures
            is_memory_region(r, 11),
    {
        0x88_0000_0000..=0xFF_FFFF_FFFF
    }
}

/// Physical base address of UART0 (PL011).
pub const UART0_BASE: usize = 0x1c09_0000;
/// Physical base address of UART1 (PL011).
pub const UART1_BASE: usize = 0x1c0a_0000;
/// Physical base address of UART2 (PL011).
pub const UART2_BASE: usize = 0x1c0b_0000;
/// Physical base address of UART3 (PL011).
pub const UART3_BASE: usize = 0x1c0c_0000;
/// Physical base address of the watchdog (SP805).
pub const WATCHDOG_BASE: usize = 0x1c0f_0000;
/// Physical base address of the FVP power controller.
pub const POWER_CONTROLLER_BASE: usize = 0x1c10_0000;
/// Physical base address of the GIC distributor.
pub const GICD_BASE: usize = 0x2f00_0000;

/// The base addresses of the peripherals, in the order uart0, uart1, uart2, uart3, watchdog,
/// power controller, GIC distributor.
pub open spec fn peripheral_bases() -> Seq<usize> {
    seq![
        UART0_BASE,
        UART1_BASE,
        UART2_BASE,
        UART3_BASE,
        WATCHDOG_BASE,
        POWER_CONTROLLER_BASE,
        GICD_BASE,
    ]
}

/// Region `i` of the memory map ends below the start of region `j` when `i` comes first.
pub open spec fn regions_ordered(i: int, j: int) -> bool {
    i < j ==> memory_map_regions()[i].1 < memory_map_regions()[j].0
}

/// Region `i` of the memory map holds at least one address.
pub open spec fn region_nonempty(i: int) -> bool {
    memory_map_regions()[i].0 <= memory_map_regions()[i].1
}

/// Peripheral `p` has its base address outside region `i` of the memory map.
pub open spec fn base_outside_region(p: int, i: int) -> bool {
    !(memory_map_regions()[i].0 <= peripheral_bases()[p] <= memory_map_regions()[i].1)
}

/// Peripherals `p` and `q` have different base addresses when they are different.
pub open spec fn bases_distinct(p: int, q: int) -> bool {
    p != q ==> peripheral_bases()[p] != peripheral_bases()[q]
}

/// Each region of the memory map is non-empty and ends below the start of the next one.
proof fn lemma_memory_map_consecutive()
    ensures
        forall|k: int| 0 <= k < 12 ==> #[trigger] region_nonempty(k),
        forall|k: int|
            0 <= k < 11 ==> #[trigger] memory_map_regions()[k].1 < memory_map_regions()[k + 1].0,
{
    let r = memory_map_regions();
    assert(r[0] == (0x00_0000_0000u64, 0x00_03FF_FFFFu64));
    assert(r[1] == (0x00_0400_0000u64, 0x00_0403_FFFFu64));
    assert(r[2] == (0x00_0600_0000u64, 0x00_07FF_FFFFu64));
    assert(r[3] == (0x00_0800_0000u64, 0x00_0BFF_FFFFu64));
    assert(r[4] == (0x00_0C00_0000u64, 0x00_0FFF_FFFFu64));
    assert(r[5] == (0x00_1400_0000u64, 0x00_17FF_FFFFu64));
    assert(r[6] == (0x00_1800_0000u64, 0x00_19FF_FFFFu64));
    assert(r[7] == (0x00_1F00_0000u64, 0x00_1F00_0FFFu64));
    assert(r[8] == (0x00_2E00_0000u64, 0x00_2E00_FFFFu64));
    assert(r[9] == (0x00_8000_0000u64, 0x00_FFFF_FFFFu64));
    assert(r[10] == (0x08_8000_0000u64, 0x0F_FFFF_FFFFu64));
    assert(r[11] == (0x88_0000_0000u64, 0xFF_FFFF_FFFFu64));
}

/// Region `i` ends below the start of every later region `j`.
proof fn lemma_memory_map_ordered_pair(i: int, j: int)
    requires
        0 <= i < j < 12,
    ensures
        memory_map_regions()[i].1 < memory_map_regions()[j].0,
    decreases j - i,
{
    lemma_memory_map_consecutive();
    if j > i + 1 {
        lemma_memory_map_ordered_pair(i, j - 1);
        assert(region_nonempty(j - 1));
    }
}

/// The peripheral base addresses stand in ascending order.
proof fn lemma_peripheral_bases_ascending(p: int, q: int)
    requires
        0 <= p < q < 7,
    ensures
        peripheral_bases()[p] < peripheral_bases()[q],
    decreases q - p,
{
    let b = peripheral_bases();
    assert(b[0] == 0x1c09_0000 && b[1] == 0x1c0a_0000 && b[2] == 0x1c0b_0000 && b[3]
        == 0x1c0c_0000 && b[4] == 0x1c0f_0000 && b[5] == 0x1c10_0000 && b[6] == 0x2f00_0000);
    if q > p + 1 {
        lemma_peripheral_bases_ascending(p, q - 1);
    }
}

/// An address strictly between the end of region `k` and the start of region `k + 1` lies in
/// no region.
proof fn lemma_gap_outside_regions(k: int, address: int, i: int)
    requires
        0 <= k < 11,
        0 <= i < 12,
        memory_map_regions()[k].1 < address < memory_map_regions()[k + 1].0,
    ensures
        !(memory_map_regions()[i].0 <= address <= memory_map_regions()[i].1),
{
    lemma_memory_map_consecutive();
    if i < k {
        lemma_memory_map_ordered_pair(i, k);
    } else if i > k + 1 {
        lemma_memory_map_ordered_pair(k + 1, i);
    }
}

/// The regions of the memory map are non-empty and stand in ascending order, so no two of
/// them overlap; no peripheral base address lies in any of them; and no two peripherals share
/// a base address.
pub proof fn lemma_memory_map_layout()
    ensures
        memory_map_regions().len() == 12,
        peripheral_bases().len() == 7,
        forall|i: int| 0 <= i < 12 ==> #[trigger] region_nonempty(i),
        forall|i: int, j: int| 0 <= i < 12 && 0 <= j < 12 ==> #[trigger] regions_ordered(i, j),
        forall|p: int, i: int| 0 <= p < 7 && 0 <= i < 12 ==> #[trigger] base_outside_region(p, i),
        forall|p: int, q: int| 0 <= p < 7 && 0 <= q < 7 ==> #[trigger] bases_distinct(p, q),
{
    lemma_memory_map_consecutive();
    assert forall|i: int, j: int| 0 <= i < 12 && 0 <= j < 12 implies #[trigger] regions_ordered(
        i,
        j,
    ) by {
        if i < j {
            lemma_memory_map_ordered_pair(i, j);
        }
    }
    let b = peripheral_bases();
    let r = memory_map_regions();
    assert(b[0] == 0x1c09_0000 && b[1] == 0x1c0a_0000 && b[2] == 0x1c0b_0000 && b[3]
        == 0x1c0c_0000 && b[4] == 0x1c0f_0000 && b[5] == 0x1c10_0000 && b[6] == 0x2f00_0000);
    assert(r[6].1 == 0x00_19FF_FFFFu64 && r[7].0 == 0x00_1F00_0000u64);
    assert(r[8].1 == 0x00_2E00_FFFFu64 && r[9].0 == 0x00_8000_0000u64);
    assert forall|p: int, i: int| 0 <= p < 7 && 0 <= i < 12 implies #[trigger] base_outside_region(
        p,
        i,
    ) by {
        if p < 6 {
            lemma_gap_outside_regions(6, b[p] as int, i);
        } else {
            lemma_gap_outside_regions(8, b[p] as int, i);
        }
    }
    assert forall|p: int, q: int| 0 <= p < 7 && 0 <= q < 7 implies #[trigger] bases_distinct(
        p,
        q,
    ) by {
        if p < q {
            lemma_peripheral_bases_ascending(p, q);
        } else if q < p {
            lemma_peripheral_bases_ascending(q, p);
        }
    }
}

/// What one request for the peripherals does to the record of whether they were handed out:
/// the request is granted exactly when they were not, and afterwards they are.
pub open spec fn claim_outcome(taken: bool) -> (bool, bool) {
    (!taken, true)
}

/// Handles one request for the peripherals against the record `taken` of whether they were
/// handed out: grants it when they were not, and records that they now are.
pub fn claim_peripherals(taken: &mut bool) -> (granted: bool)
    ensures
        (granted, *final(taken)) == claim_outcome(*old(taken)),
        granted == !*old(taken),
        *final(taken),
{
    let granted = !*taken;
    *taken = true;
    granted
}

/// The number of requests granted among `n` successive requests, starting from the record
/// `taken`.
pub open spec fn grants_in_requests(taken: bool, n: nat) -> nat
    decreases n,
{
    if n == 0 {
        0
    } else {
        let (granted, next) = claim_outcome(taken);
        (if granted {
            1nat
        } else {
            0nat
        }) + grants_in_requests(next, (n - 1) as nat)
    }
}

/// The peripherals are handed out once: of any run of requests, none is granted once they were
/// taken, and exactly one (the first) is granted when they were not.
pub proof fn lemma_peripherals_taken_once(taken: bool, n: nat)
    requires
        n >= 1,
    ensures
        grants_in_requests(taken, n) == (if taken {
            0nat
        } else {
            1nat
        }),
        claim_outcome(taken).0 == !taken,
        !claim_outcome(claim_outcome(taken).1).0,
    decreases n,
{
    assert(grants_in_requests(true, 0) == 0);
    if n > 1 {
        lemma_peripherals_taken_once(true, (n - 1) as nat);
    }
}

} // verus!
