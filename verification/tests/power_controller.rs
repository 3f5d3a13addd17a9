use arm_fvp_base_pac::power_controller::{
    mpidr_request, wakeup_request, PowerOnReason, SystemStatus,
};

#[test]
fn power_on_reason_enum() {
    // Power on Reason bits: 00 -> Cold power-on.
    let sysr_cold_pwr_on = 0b1011_1100_1010_0010_1010_0010_1010_0010;
    // Power on Reason bits: 11 -> Wake by GIC WakeRequest signal.
    let sysr_gic_wake_req_sig = !sysr_cold_pwr_on;
    // Power on Reason bits: 01 -> System reset pin.
    let sysr_system_reset_pin = 0b0110_1001_1010_0110_1111_0000_1010_0010;
    // Power on Reason bits: 10 -> Wake by PPONR.
    let sysr_by_pponr = !sysr_system_reset_pin;

    assert_eq!(
        PowerOnReason::from(sysr_cold_pwr_on),
        PowerOnReason::ColdPowerOn
    );
    assert_eq!(
        PowerOnReason::from(sysr_gic_wake_req_sig),
        PowerOnReason::WakeByGicSignal
    );
    assert_eq!(
        PowerOnReason::from(sysr_system_reset_pin),
        PowerOnReason::SystemResetPin
    );
    assert_eq!(
        PowerOnReason::from(sysr_by_pponr),
        PowerOnReason::WakeByProcessorOn
    );
}

#[test]
fn power_on_reason_of_a_cleared_register() {
    // A PSYSR that reads back as zero reports a cold power-on.
    assert_eq!(PowerOnReason::from(0), PowerOnReason::ColdPowerOn);
    let reason: PowerOnReason = 0x0300_0000u32.into();
    assert_eq!(reason, PowerOnReason::WakeByGicSignal);
}

#[test]
fn power_on_reason_depends_on_bits_25_24_only() {
    assert_eq!(PowerOnReason::from(0x0100_0000), PowerOnReason::SystemResetPin);
    assert_eq!(PowerOnReason::from(0xfdff_ffff), PowerOnReason::SystemResetPin);
    assert_eq!(PowerOnReason::from(0x0200_0000), PowerOnReason::WakeByProcessorOn);
    assert_eq!(PowerOnReason::from(0xfeff_ffff), PowerOnReason::WakeByProcessorOn);
}

#[test]
fn system_status_of_a_cleared_register() {
    let sys_status = SystemStatus::from_bits_truncate(0);

    assert!(!sys_status.contains(SystemStatus::L2()));
    assert!(!sys_status.contains(SystemStatus::L1()));
    assert!(!sys_status.contains(SystemStatus::L0()));
    assert!(!sys_status.contains(SystemStatus::WEN()));
    assert!(!sys_status.contains(SystemStatus::PC()));
    assert!(!sys_status.contains(SystemStatus::PP()));
    assert!(sys_status.is_empty());
}

#[test]
fn system_status_truncates_unknown_bits() {
    let status = SystemStatus::from_bits_truncate(0xffff_ffff);
    assert_eq!(status.bits(), 0xfc00_0000);
    assert!(status.is_all());
    assert_eq!(status, SystemStatus::all());
    let status = SystemStatus::from_bits_truncate(0x9012_3456);
    assert_eq!(status.bits(), 0x9000_0000);
    assert!(status.contains(SystemStatus::L2()));
    assert!(status.contains(SystemStatus::WEN()));
    assert!(!status.contains(SystemStatus::L1()));
}

#[test]
fn system_status_from_bits() {
    assert_eq!(SystemStatus::from_bits(0x2400_0000).map(|s| s.bits()), Some(0x2400_0000));
    assert_eq!(SystemStatus::from_bits(0x2400_0001), None);
    assert_eq!(SystemStatus::from_bits_retain(0x2400_0001).bits(), 0x2400_0001);
    assert_eq!(SystemStatus::empty().bits(), 0);
}

#[test]
fn system_status_set_operations() {
    let l0_pp = SystemStatus::L0().union(SystemStatus::PP());
    assert_eq!(l0_pp.bits(), 0x2400_0000);
    assert!(l0_pp.intersects(SystemStatus::PP()));
    assert!(!l0_pp.intersects(SystemStatus::PC()));
    assert_eq!(l0_pp.intersection(SystemStatus::L0()).bits(), 0x2000_0000);
    assert_eq!(l0_pp.difference(SystemStatus::L0()).bits(), 0x0400_0000);
    assert_eq!(
        l0_pp.symmetric_difference(SystemStatus::L0().union(SystemStatus::L1())).bits(),
        0x4400_0000
    );
    assert_eq!(l0_pp.complement().bits(), 0xd800_0000);
    assert_eq!(SystemStatus::from_bits_retain(0x2400_0001).complement().bits(), 0xd800_0000);

    let mut status = SystemStatus::empty();
    status.insert(SystemStatus::WEN());
    assert!(status.contains(SystemStatus::WEN()));
    status.toggle(SystemStatus::L2().union(SystemStatus::WEN()));
    assert_eq!(status.bits(), 0x8000_0000);
    status.set(SystemStatus::PC(), true);
    assert_eq!(status.bits(), 0x8800_0000);
    status.set(SystemStatus::L2(), false);
    assert_eq!(status.bits(), 0x0800_0000);
    status.remove(SystemStatus::PC());
    assert!(status.is_empty());
}

#[test]
fn wakeup_requests() {
    let fake_mpidr = 865032;
    let wen_flag = 1 << 31;
    assert_eq!(wakeup_request(fake_mpidr, true), fake_mpidr | wen_flag);
    assert_eq!(wakeup_request(fake_mpidr, false), fake_mpidr);
}

#[test]
fn wakeup_requests_mask_the_mpidr() {
    assert_eq!(wakeup_request(0xffff_ffff, true), 0x80ff_ffff);
    assert_eq!(wakeup_request(0xffff_ffff, false), 0x00ff_ffff);
}

#[test]
fn processor_requests() {
    let fake_mpidr = 865032;
    assert_eq!(mpidr_request(fake_mpidr), fake_mpidr);
    let fake_mpidr = 0b1010_0010_1010_0010_1010_0010;
    assert_eq!(mpidr_request(fake_mpidr), fake_mpidr);
    // Only the affinity fields are kept.
    assert_eq!(mpidr_request(0x8123_4567), 0x0023_4567);
    assert_eq!(mpidr_request(111234), 111234);
}

#[test]
fn power_on_reason_of_a_processor_request() {
    // Bits 25:24 of a request are clear, so a PSYSR that reads back the request reports a
    // cold power-on.
    let fake_mpidr = 0b1010_0010_1010_0010_1010_0010;
    assert_eq!(
        PowerOnReason::from(mpidr_request(fake_mpidr)),
        PowerOnReason::ColdPowerOn
    );
}

#[test]
fn system_status_of_a_processor_request() {
    // A request keeps no bit of the status flags.
    assert!(SystemStatus::from_bits_truncate(mpidr_request(111234)).is_empty());
    assert!(SystemStatus::from_bits_truncate(mpidr_request(u32::MAX)).is_empty());
}

#[test]
fn system_status_operators() {
    let l0_pp = SystemStatus::L0() | SystemStatus::PP();
    assert_eq!(l0_pp.bits(), 0x2400_0000);
    assert_eq!((l0_pp & SystemStatus::L0()).bits(), 0x2000_0000);
    assert_eq!((l0_pp ^ SystemStatus::all()).bits(), 0xd800_0000);
    assert_eq!((l0_pp - SystemStatus::PP()).bits(), 0x2000_0000);
    assert_eq!((!l0_pp).bits(), 0xd800_0000);
    assert_eq!((!SystemStatus::from_bits_retain(0x0000_0001)).bits(), 0xfc00_0000);

    let mut status = SystemStatus::empty();
    status |= SystemStatus::L2();
    status |= SystemStatus::PC();
    assert_eq!(status.bits(), 0x8800_0000);
    status &= SystemStatus::PC() | SystemStatus::PP();
    assert_eq!(status.bits(), 0x0800_0000);
    status ^= SystemStatus::L1() | SystemStatus::PC();
    assert_eq!(status.bits(), 0x4000_0000);
    status -= SystemStatus::L1();
    assert!(status.is_empty());
}

#[test]
fn system_status_iteration() {
    let status = SystemStatus::from_bits_retain(0x8c00_0003);
    let bits: Vec<u32> = status.iter().iter().map(|f| f.bits()).collect();
    assert_eq!(bits, vec![0x8000_0000, 0x0800_0000, 0x0400_0000, 0x0000_0003]);

    let bits: Vec<u32> = SystemStatus::all().iter().iter().map(|f| f.bits()).collect();
    assert_eq!(
        bits,
        vec![0x8000_0000, 0x4000_0000, 0x2000_0000, 0x1000_0000, 0x0800_0000, 0x0400_0000]
    );

    assert!(SystemStatus::empty().iter().is_empty());
    let bits: Vec<u32> = SystemStatus::from_bits_retain(0x10).iter().iter().map(|f| f.bits()).collect();
    assert_eq!(bits, vec![0x10]);
}
