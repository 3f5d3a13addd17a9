use arm_fvp_base_pac::claim_peripherals;

#[test]
fn peripherals_are_handed_out_once() {
    let mut taken = false;
    assert!(claim_peripherals(&mut taken));
    assert!(taken);
    assert!(!claim_peripherals(&mut taken));
    assert!(!claim_peripherals(&mut taken));
    assert!(taken);
}

#[test]
fn peripherals_taken_before_are_not_handed_out() {
    let mut taken = true;
    assert!(!claim_peripherals(&mut taken));
    assert!(taken);
}

use arm_fvp_base_pac::{
    MemoryMap, GICD_BASE, POWER_CONTROLLER_BASE, UART0_BASE, UART1_BASE, UART2_BASE, UART3_BASE,
    WATCHDOG_BASE,
};

#[test]
fn memory_map_regions() {
    assert_eq!(MemoryMap::TRUSTED_BOOT_ROM(), 0x00_0000_0000..=0x00_03FF_FFFF);
    assert_eq!(MemoryMap::TRUSTED_SRAM(), 0x00_0400_0000..=0x00_0403_FFFF);
    assert_eq!(MemoryMap::TRUSTED_DRAM(), 0x00_0600_0000..=0x00_07FF_FFFF);
    assert_eq!(MemoryMap::NOR_FLASH0(), 0x00_0800_0000..=0x00_0BFF_FFFF);
    assert_eq!(MemoryMap::NOR_FLASH1(), 0x00_0C00_0000..=0x00_0FFF_FFFF);
    assert_eq!(MemoryMap::PSRAM(), 0x00_1400_0000..=0x00_17FF_FFFF);
    assert_eq!(MemoryMap::VRAM(), 0x00_1800_0000..=0x00_19FF_FFFF);
    assert_eq!(MemoryMap::NON_TRUSTED_ROM(), 0x00_1F00_0000..=0x00_1F00_0FFF);
    assert_eq!(MemoryMap::NON_TRUSTED_SRAM(), 0x00_2E00_0000..=0x00_2E00_FFFF);
    assert_eq!(MemoryMap::DRAM0(), 0x00_8000_0000..=0x00_FFFF_FFFF);
    assert_eq!(MemoryMap::DRAM1(), 0x08_8000_0000..=0x0F_FFFF_FFFF);
    assert_eq!(MemoryMap::DRAM2(), 0x88_0000_0000..=0xFF_FFFF_FFFF);
}

#[test]
fn memory_map_regions_are_ascending_and_disjoint() {
    let regions = [
        MemoryMap::TRUSTED_BOOT_ROM(),
        MemoryMap::TRUSTED_SRAM(),
        MemoryMap::TRUSTED_DRAM(),
        MemoryMap::NOR_FLASH0(),
        MemoryMap::NOR_FLASH1(),
        MemoryMap::PSRAM(),
        MemoryMap::VRAM(),
        MemoryMap::NON_TRUSTED_ROM(),
        MemoryMap::NON_TRUSTED_SRAM(),
        MemoryMap::DRAM0(),
        MemoryMap::DRAM1(),
        MemoryMap::DRAM2(),
    ];
    for pair in regions.windows(2) {
        assert!(pair[0].start() <= pair[0].end());
        assert!(pair[0].end() < pair[1].start());
    }
    let bases = [
        UART0_BASE,
        UART1_BASE,
        UART2_BASE,
        UART3_BASE,
        WATCHDOG_BASE,
        POWER_CONTROLLER_BASE,
        GICD_BASE,
    ];
    for base in bases {
        for region in &regions {
            assert!(!region.contains(&(base as u64)));
        }
    }
    assert_eq!(UART0_BASE, 0x1c09_0000);
    assert_eq!(GICD_BASE, 0x2f00_0000);
}
