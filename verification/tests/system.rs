use arm_fvp_base_pac::system::{
    mmc_card_present_in, register_low_byte, BoardRevision, Error, Hbi, PlatformType,
    SystemConfigFunction, SystemId, Variant,
};

#[test]
fn board_revision() {
    assert_eq!(Ok(BoardRevision::RevA), BoardRevision::try_from(0x0));
    assert_eq!(Ok(BoardRevision::RevB), BoardRevision::try_from(0x1));
    assert_eq!(Ok(BoardRevision::RevC), BoardRevision::try_from(0x2));
    assert_eq!(
        Err(Error::InvalidBoardRevision),
        BoardRevision::try_from(0x3)
    );
}

#[test]
fn hbi() {
    assert_eq!(Ok(Hbi::V8FoundationPlatform), Hbi::try_from(0x10));
    assert_eq!(Ok(Hbi::V8BasePlatform), Hbi::try_from(0x20));
    assert_eq!(Err(Error::InvalidHbi), Hbi::try_from(0xff));
}

#[test]
fn variant() {
    assert_eq!(Ok(Variant::VariantA), Variant::try_from(0x0));
    assert_eq!(Ok(Variant::VariantB), Variant::try_from(0x1));
    assert_eq!(Ok(Variant::VariantC), Variant::try_from(0x2));
    assert_eq!(Err(Error::InvalidVariant), Variant::try_from(0x3));
}

#[test]
fn platform_type() {
    assert_eq!(Ok(PlatformType::Board), PlatformType::try_from(0x0));
    assert_eq!(Ok(PlatformType::Model), PlatformType::try_from(0x1));
    assert_eq!(Ok(PlatformType::Emulator), PlatformType::try_from(0x2));
    assert_eq!(Ok(PlatformType::Simulator), PlatformType::try_from(0x3));
    assert_eq!(Ok(PlatformType::Fpga), PlatformType::try_from(0x4));
    assert_eq!(Err(Error::InvalidPlatformType), PlatformType::try_from(0x5));
}

#[test]
fn system_id() {
    assert_eq!(
        Ok(SystemId {
            revision: BoardRevision::RevC,
            hbi: Hbi::V8BasePlatform,
            variant: Variant::VariantC,
            platform_type: PlatformType::Fpga,
            fpga_build: 0x5a
        }),
        SystemId::try_from(0x2020_245a)
    );

    assert_eq!(
        Err(Error::InvalidBoardRevision),
        SystemId::try_from(0xf020_245a)
    );
    assert_eq!(Err(Error::InvalidHbi), SystemId::try_from(0x20f0_245a));
    assert_eq!(Err(Error::InvalidVariant), SystemId::try_from(0x2020_f45a));
    assert_eq!(
        Err(Error::InvalidPlatformType),
        SystemId::try_from(0x2020_2f5a)
    );
}

#[test]
fn board_revision_rejects_large_codes() {
    assert_eq!(Err(Error::InvalidBoardRevision), BoardRevision::try_from(0xf));
    assert_eq!(Err(Error::InvalidBoardRevision), BoardRevision::try_from(u32::MAX));
}

#[test]
fn hbi_rejects_neighbouring_codes() {
    assert_eq!(Err(Error::InvalidHbi), Hbi::try_from(0x0));
    assert_eq!(Err(Error::InvalidHbi), Hbi::try_from(0x11));
    assert_eq!(Err(Error::InvalidHbi), Hbi::try_from(0x1f));
    assert_eq!(Err(Error::InvalidHbi), Hbi::try_from(0x21));
}

#[test]
fn system_id_foundation_model() {
    // REV = A, HBI = 0x010, VAR = B, PLAT = Model, build 0x00.
    assert_eq!(
        Ok(SystemId {
            revision: BoardRevision::RevA,
            hbi: Hbi::V8FoundationPlatform,
            variant: Variant::VariantB,
            platform_type: PlatformType::Model,
            fpga_build: 0x00
        }),
        SystemId::try_from(0x0010_1100)
    );
}

#[test]
fn system_id_ignores_reserved_bits() {
    // Bits 27:26 stand outside every field.
    assert_eq!(SystemId::try_from(0x2020_245a), SystemId::try_from(0x2c20_245a));
}

#[test]
fn system_id_reports_the_first_invalid_field() {
    // Every field is invalid: the revision is reported.
    assert_eq!(Err(Error::InvalidBoardRevision), SystemId::try_from(0xf3ff_ffff));
    // Revision valid, the rest invalid: the HBI is reported.
    assert_eq!(Err(Error::InvalidHbi), SystemId::try_from(0x03ff_ffff));
    // Revision and HBI valid, variant and platform invalid: the variant is reported.
    assert_eq!(Err(Error::InvalidVariant), SystemId::try_from(0x0020_ff00));
}

#[test]
fn system_configuration_control_values() {
    assert_eq!(0xc080_0000, SystemConfigFunction::Shutdown.control_value());
    assert_eq!(0xc090_0000, SystemConfigFunction::Reboot.control_value());
}

#[test]
fn register_low_bytes() {
    // Switches and LEDs are the low byte of their registers.
    assert_eq!(0x5a, register_low_byte(0xabcd_ef5a));
    assert_eq!(0x00, register_low_byte(0xffff_ff00));
    assert_eq!(0xff, register_low_byte(0x0000_00ff));
}

#[test]
fn mmc_card_presence() {
    assert!(mmc_card_present_in(0x0000_0001));
    assert!(mmc_card_present_in(0xffff_ffff));
    assert!(!mmc_card_present_in(0x0000_0000));
    assert!(!mmc_card_present_in(0xffff_fffe));
}

#[test]
fn system_configuration_function_numbers() {
    assert_eq!(0x08, SystemConfigFunction::Shutdown.function_number());
    assert_eq!(0x09, SystemConfigFunction::Reboot.function_number());
}
