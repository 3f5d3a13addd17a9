//! FVP system peripheral: decoding of the system identification and the other register
//! values, and encoding of the system configuration commands.

use vstd::prelude::*;

verus! {

/// FVP System Peripheral error type.
#[derive(Debug, Clone, Copy, PartialEq, Eq, Structural)]
pub enum Error {
    InvalidBoardRevision,
    InvalidHbi,
    InvalidVariant,
    InvalidPlatformType,
}

/// Board revision.
#[derive(Debug, Clone, Copy, PartialEq, Eq, Structural)]
pub enum BoardRevision {
    RevA,
    RevB,
    RevC,
}

impl BoardRevision {
    /// The code of the revision in the REV field of SYS_ID.
    pub open spec fn code(self) -> u32 {
        match self {
            BoardRevision::RevA => 0x0,
            BoardRevision::RevB => 0x1,
            BoardRevision::RevC => 0x2,
        }
    }
}

/// The revision whose code is `value`, or the error for a code that names none.
pub open spec fn board_revision_of(value: u32) -> Result<BoardRevision, Error> {
    if value == 0x0 {
        Ok(BoardRevision::RevA)
    } else if value == 0x1 {
        Ok(BoardRevision::RevB)
    } else if value == 0x2 {
        Ok(BoardRevision::RevC)
    } else {
        Err(Error::InvalidBoardRevision)
    }
}

impl TryFrom<u32> for BoardRevision {
    type Error = Error;

    /// Decodes a board revision code.
    fn try_from(value: u32) -> (r: Result<Self, Self::Error>)
        ensures
            r == board_revision_of(value),
            r is Ok <==> value <= 0x2,
            r matches Ok(revision) ==> revision.code() == value,
            r matches Err(e) ==> e == Error::InvalidBoardRevision,
            (r == Ok::<BoardRevision, Error>(BoardRevision::RevA)) <==> value == 0x0,
            (r == Ok::<BoardRevision, Error>(BoardRevision::RevB)) <==> value == 0x1,
            (r == Ok::<BoardRevision, Error>(BoardRevision::RevC)) <==> value == 0x2,
    {
        if value == 0x0 {
            Ok(Self::RevA)
        } else if value == 0x1 {
            Ok(Self::RevB)
        } else if value == 0x2 {
            Ok(Self::RevC)
        } else {
            Err(Error::InvalidBoardRevision)
        }
    }
}

impl vstd::std_specs::convert::TryFromSpecImpl<u32> for BoardRevision {
    open spec fn obeys_try_from_spec() -> bool {
        true
    }

    open spec fn try_from_spec(v: u32) -> Result<Self, Error> {
        board_revision_of(v)
    }
}

/// HBI platform description.
#[derive(Debug, Clone, Copy, PartialEq, Eq, Structural)]
pub enum Hbi {
    V8FoundationPlatform,
    V8BasePlatform,
}

impl Hbi {
    /// The code of the platform in the HBI field of SYS_ID.
    pub open spec fn code(self) -> u32 {
        match self {
            Hbi::V8FoundationPlatform => 0x10,
            Hbi::V8BasePlatform => 0x20,
        }
    }
}

/// The HBI platform whose code is `value`, or the error for a code that names none.
pub open spec fn hbi_of(value: u32) -> Result<Hbi, Error> {
    if value == 0x10 {
        Ok(Hbi::V8FoundationPlatform)
    } else if value == 0x20 {
        Ok(Hbi::V8BasePlatform)
    } else {
        Err(Error::InvalidHbi)
    }
}

impl TryFrom<u32> for Hbi {
    type Error = Error;

    /// Decodes an HBI platform code.
    fn try_from(value: u32) -> (r: Result<Self, Self::Error>)
        ensures
            r == hbi_of(value),
            r is Ok <==> (value == 0x10 || value == 0x20),
            r matches Ok(hbi) ==> hbi.code() == value,
            r matches Err(e) ==> e == Error::InvalidHbi,
            (r == Ok::<Hbi, Error>(Hbi::V8FoundationPlatform)) <==> value == 0x10,
            (r == Ok::<Hbi, Error>(Hbi::V8BasePlatform)) <==> value == 0x20,
    {
        if value == 0x10 {
            Ok(Self::V8FoundationPlatform)
        } else if value == 0x20 {
            Ok(Self::V8BasePlatform)
        } else {
            Err(Error::InvalidHbi)
        }
    }
}

impl vstd::std_specs::convert::TryFromSpecImpl<u32> for Hbi {
    open spec fn obeys_try_from_spec() -> bool {
        true
    }

    open spec fn try_from_spec(v: u32) -> Result<Self, Error> {
        hbi_of(v)
    }
}

/// Platform variant.
#[derive(Debug, Clone, Copy, PartialEq, Eq, Structural)]
pub enum Variant {
    VariantA,
    VariantB,
    VariantC,
}

impl Variant {
    /// The code of the variant in the VAR field of SYS_ID.
    pub open spec fn code(self) -> u32 {
        match self {
            Variant::VariantA => 0x0,
            Variant::VariantB => 0x1,
            Variant::VariantC => 0x2,
        }
    }
}

/// The variant whose code is `value`, or the error for a code that names none.
pub open spec fn variant_of(value: u32) -> Result<Variant, Error> {
    if value == 0x0 {
        Ok(Variant::VariantA)
    } else if value == 0x1 {
        Ok(Variant::VariantB)
    } else if value == 0x2 {
        Ok(Variant::VariantC)
    } else {
        Err(Error::InvalidVariant)
    }
}

impl TryFrom<u32> for Variant {
    type Error = Error;

    /// Decodes a platform variant code.
    fn try_from(value: u32) -> (r: Result<Self, Self::Error>)
        ensures
            r == variant_of(value),
            r is Ok <==> value <= 0x2,
            r matches Ok(variant) ==> variant.code() == value,
            r matches Err(e) ==> e == Error::InvalidVariant,
            (r == Ok::<Variant, Error>(Variant::VariantA)) <==> value == 0x0,
            (r == Ok::<Variant, Error>(Variant::VariantB)) <==> value == 0x1,
            (r == Ok::<Variant, Error>(Variant::VariantC)) <==> value == 0x2,
    {
        if value == 0x0 {
            Ok(Self::VariantA)
        } else if value == 0x1 {
            Ok(Self::VariantB)
        } else if value == 0x2 {
            Ok(Self::VariantC)
        } else {
            Err(Error::InvalidVariant)
        }
    }
}

impl vstd::std_specs::convert::TryFromSpecImpl<u32> for Variant {
    open spec fn obeys_try_from_spec() -> bool {
        true
    }

    open spec fn try_from_spec(v: u32) -> Result<Self, Error> {
        variant_of(v)
    }
}

/// Platform type.
#[derive(Debug, Clone, Copy, PartialEq, Eq, Structural)]
pub enum PlatformType {
    Board,
    Model,
    Emulator,
    Simulator,
    Fpga,
}

impl PlatformType {
    /// The code of the platform type in the PLAT field of SYS_ID.
    pub open spec fn code(self) -> u32 {
        match self {
            PlatformType::Board => 0x0,
            PlatformType::Model => 0x1,
            PlatformType::Emulator => 0x2,
            PlatformType::Simulator => 0x3,
            PlatformType::Fpga => 0x4,
        }
    }
}

/// The platform type whose code is `value`, or the error for a code that names none.
pub open spec fn platform_type_of(value: u32) -> Result<PlatformType, Error> {
    if value == 0x0 {
        Ok(PlatformType::Board)
    } else if value == 0x1 {
        Ok(PlatformType::Model)
    } else if value == 0x2 {
        Ok(PlatformType::Emulator)
    } else if value == 0x3 {
        Ok(PlatformType::Simulator)
    } else if value == 0x4 {
        Ok(PlatformType::Fpga)
    } else {
        Err(Error::InvalidPlatformType)
    }
}

impl TryFrom<u32> for PlatformType {
    type Error = Error;

    /// Decodes a platform type code.
    fn try_from(value: u32) -> (r: Result<Self, Self::Error>)
        ensures
            r == platform_type_of(value),
            r is Ok <==> value <= 0x4,
            r matches Ok(platform_type) ==> platform_type.code() == value,
            r matches Err(e) ==> e == Error::InvalidPlatformType,
            (r == Ok::<PlatformType, Error>(PlatformType::Board)) <==> value == 0x0,
            (r == Ok::<PlatformType, Error>(PlatformType::Model)) <==> value == 0x1,
            (r == Ok::<PlatformType, Error>(PlatformType::Emulator)) <==> value == 0x2,
            (r == Ok::<PlatformType, Error>(PlatformType::Simulator)) <==> value == 0x3,
            (r == Ok::<PlatformType, Error>(PlatformType::Fpga)) <==> value == 0x4,
    {
        if value == 0x0 {
            Ok(Self::Board)
        } else if value == 0x1 {
            Ok(Self::Model)
        } else if value == 0x2 {
            Ok(Self::Emulator)
        } else if value == 0x3 {
            Ok(Self::Simulator)
        } else if value == 0x4 {
            Ok(Self::Fpga)
        } else {
            Err(Error::InvalidPlatformType)
        }
    }
}

impl vstd::std_specs::convert::TryFromSpecImpl<u32> for PlatformType {
    open spec fn obeys_try_from_spec() -> bool {
        true
    }

    open spec fn try_from_spec(v: u32) -> Result<Self, Error> {
        platform_type_of(v)
    }
}

/// System identification of the FVP platform.
#[derive(Debug, Clone, Copy, PartialEq, Eq, Structural)]
pub struct SystemId {
    pub revision: BoardRevision,
    pub hbi: Hbi,
    pub variant: Variant,
    pub platform_type: PlatformType,
    pub fpga_build: u8,
}

/// The REV field of a SYS_ID value: bits 31:28.
pub open spec fn revision_field(value: u32) -> u32 {
    (value >> 28u32) & 0x0fu32
}

/// The HBI field of a SYS_ID value: bits 25:16.
pub open spec fn hbi_field(value: u32) -> u32 {
    (value >> 16u32) & 0x3ffu32
}

/// The VAR field of a SYS_ID value: bits 15:12.
pub open spec fn variant_field(value: u32) -> u32 {
    (value >> 12u32) & 0x0fu32
}

/// The PLAT field of a SYS_ID value: bits 11:8.
pub open spec fn platform_type_field(value: u32) -> u32 {
    (value >> 8u32) & 0x0fu32
}

/// The FPGA build field of a SYS_ID value: bits 7:0.
pub open spec fn fpga_build_field(value: u32) -> u8 {
    (value & 0xffu32) as u8
}

/// The system identification that a SYS_ID value holds. The fields are decoded in the order
/// revision, HBI, variant, platform type, and the error is that of the first field that names
/// nothing.
pub open spec fn system_id_of(value: u32) -> Result<SystemId, Error> {
    match board_revision_of(revision_field(value)) {
        Err(e) => Err(e),
        Ok(revision) => match hbi_of(hbi_field(value)) {
            Err(e) => Err(e),
            Ok(hbi) => match variant_of(variant_field(value)) {
                Err(e) => Err(e),
                Ok(variant) => match platform_type_of(platform_type_field(value)) {
                    Err(e) => Err(e),
                    Ok(platform_type) => Ok(
                        SystemId {
                            revision,
                            hbi,
                            variant,
                            platform_type,
                            fpga_build: fpga_build_field(value),
                        },
                    ),
                },
            },
        },
    }
}

impl SystemId {
    /// The SYS_ID value that holds this identification, with every reserved bit clear.
    pub open spec fn encoding(self) -> u32 {
        ((self.revision.code() << 28u32) | (self.hbi.code() << 16u32) | (self.variant.code()
            << 12u32) | (self.platform_type.code() << 8u32) | (self.fpga_build as u32)) as u32
    }
}

impl TryFrom<u32> for SystemId {
    type Error = Error;

    /// Decodes a SYS_ID register value.
    fn try_from(value: u32) -> (r: Result<Self, Self::Error>)
        ensures
            r == system_id_of(value),
            (r == Err::<SystemId, Error>(Error::InvalidBoardRevision)) <==> (value >> 28u32) & 0x0fu32
                > 0x2,
            (r == Err::<SystemId, Error>(Error::InvalidHbi)) <==> ((value >> 28u32) & 0x0fu32 <= 0x2
                && (value >> 16u32) & 0x3ffu32 != 0x10 && (value >> 16u32) & 0x3ffu32 != 0x20),
            (r == Err::<SystemId, Error>(Error::InvalidVariant)) <==> ((value >> 28u32) & 0x0fu32
                <= 0x2 && ((value >> 16u32) & 0x3ffu32 == 0x10 || (value >> 16u32) & 0x3ffu32
                == 0x20) && (value >> 12u32) & 0x0fu32 > 0x2),
            r matches Ok(id) ==> {
                &&& (id.revision == BoardRevision::RevA) <==> (value >> 28u32) & 0x0fu32 == 0x0
                &&& (id.revision == BoardRevision::RevB) <==> (value >> 28u32) & 0x0fu32 == 0x1
                &&& (id.revision == BoardRevision::RevC) <==> (value >> 28u32) & 0x0fu32 == 0x2
                &&& (id.hbi == Hbi::V8FoundationPlatform) <==> (value >> 16u32) & 0x3ffu32 == 0x10
                &&& (id.hbi == Hbi::V8BasePlatform) <==> (value >> 16u32) & 0x3ffu32 == 0x20
                &&& (id.variant == Variant::VariantA) <==> (value >> 12u32) & 0x0fu32 == 0x0
                &&& (id.variant == Variant::VariantB) <==> (value >> 12u32) & 0x0fu32 == 0x1
                &&& (id.variant == Variant::VariantC) <==> (value >> 12u32) & 0x0fu32 == 0x2
                &&& (id.platform_type == PlatformType::Board) <==> (value >> 8u32) & 0x0fu32 == 0x0
                &&& (id.platform_type == PlatformType::Model) <==> (value >> 8u32) & 0x0fu32 == 0x1
                &&& (id.platform_type == PlatformType::Emulator) <==> (value >> 8u32) & 0x0fu32
                    == 0x2
                &&& (id.platform_type == PlatformType::Simulator) <==> (value >> 8u32) & 0x0fu32
                    == 0x3
                &&& (id.platform_type == PlatformType::Fpga) <==> (value >> 8u32) & 0x0fu32 == 0x4
                &&& id.fpga_build == value & 0xffu32
            },
    {
        let revision = match BoardRevision::try_from((value >> 28) & 0x0f) {
            Ok(revision) => revision,
            Err(e) => {
                return Err(e);
            },
        };
        let hbi = match Hbi::try_from((value >> 16) & 0x3ff) {
            Ok(hbi) => hbi,
            Err(e) => {
                return Err(e);
            },
        };
        let variant = match Variant::try_from((value >> 12) & 0x0f) {
            Ok(variant) => variant,
            Err(e) => {
                return Err(e);
            },
        };
        let platform_type = match PlatformType::try_from((value >> 8) & 0x0f) {
            Ok(platform_type) => platform_type,
            Err(e) => {
                return Err(e);
            },
        };
        proof {
            assert(value as u8 == (value & 0xffu32) as u8) by (bit_vector);
            assert(value as u8 == value & 0xffu32) by (bit_vector);
        }
        Ok(Self { revision, hbi, variant, platform_type, fpga_build: value as u8 })
    }
}

impl vstd::std_specs::convert::TryFromSpecImpl<u32> for SystemId {
    open spec fn obeys_try_from_spec() -> bool {
        true
    }

    open spec fn try_from_spec(v: u32) -> Result<Self, Error> {
        system_id_of(v)
    }
}

/// Each field decoder gives back the value whose code it reads, and a decoded value has the
/// code that was read.
pub proof fn lemma_field_codes_decode(
    revision: BoardRevision,
    hbi: Hbi,
    variant: Variant,
    platform_type: PlatformType,
    value: u32,
)
    ensures
        board_revision_of(revision.code()) == Ok::<BoardRevision, Error>(revision),
        hbi_of(hbi.code()) == Ok::<Hbi, Error>(hbi),
        variant_of(variant.code()) == Ok::<Variant, Error>(variant),
        platform_type_of(platform_type.code()) == Ok::<PlatformType, Error>(platform_type),
        board_revision_of(value) matches Ok(r) ==> r.code() == value,
        hbi_of(value) matches Ok(h) ==> h.code() == value,
        variant_of(value) matches Ok(v) ==> v.code() == value,
        platform_type_of(value) matches Ok(p) ==> p.code() == value,
{
}

/// Every system identification is read back from its SYS_ID encoding.
pub proof fn lemma_system_id_encoding_decodes(id: SystemId)
    ensures
        system_id_of(id.encoding()) == Ok::<SystemId, Error>(id),
{
    let r = id.revision.code();
    let h = id.hbi.code();
    let v = id.variant.code();
    let p = id.platform_type.code();
    let b = id.fpga_build;
    let e = id.encoding();
    assert(e == (r << 28u32) | (h << 16u32) | (v << 12u32) | (p << 8u32) | (b as u32));
    assert(((e >> 28u32) & 0x0fu32) == r && ((e >> 16u32) & 0x3ffu32) == h && ((e >> 12u32)
        & 0x0fu32) == v && ((e >> 8u32) & 0x0fu32) == p && (e & 0xffu32) as u8 == b)
        by (bit_vector)
        requires
            r < 16,
            h < 0x400,
            v < 16,
            p < 16,
            e == (r << 28u32) | (h << 16u32) | (v << 12u32) | (p << 8u32) | (b as u32),
    ;
}

/// System configuration functions
///
/// The function number of a variant is given by `function_number`.
#[derive(Debug, Clone, Copy, PartialEq, Eq, Structural)]
pub enum SystemConfigFunction {
    /// Shutdown system.
    Shutdown,
    /// Reboot system.
    Reboot,
}

/// Bit 31 of SYS_CFGCTRL: start the transfer.
pub const SYSCFG_START: u32 = 0x8000_0000;
/// Bit 30 of SYS_CFGCTRL: the transfer is a write.
pub const SYSCFG_WRITE: u32 = 0x4000_0000;
/// The position of the function field in SYS_CFGCTRL.
pub const SYSCFG_FUNC_SHIFT: u32 = 20;

impl SystemConfigFunction {
    /// The function number of this system configuration function.
    pub open spec fn code(self) -> u32 {
        match self {
            SystemConfigFunction::Shutdown => 0x08,
            SystemConfigFunction::Reboot => 0x09,
        }
    }

    /// The function number of this system configuration function: 0x08 for shutdown, 0x09 for
    /// reboot.
    pub fn function_number(self) -> (number: u32)
        ensures
            number == self.code(),
            self == SystemConfigFunction::Shutdown ==> number == 0x08,
            self == SystemConfigFunction::Reboot ==> number == 0x09,
    {
        match self {
            SystemConfigFunction::Shutdown => 0x08,
            SystemConfigFunction::Reboot => 0x09,
        }
    }

    /// The SYS_CFGCTRL value that starts a write of this system configuration function: the
    /// start and write bits, with the function number in bits 25:20.
    pub fn control_value(self) -> (value: u32)
        ensures
            value == SYSCFG_START | SYSCFG_WRITE | (self.code() << SYSCFG_FUNC_SHIFT),
    {
        let function = self.function_number();
        SYSCFG_START | SYSCFG_WRITE | (function << SYSCFG_FUNC_SHIFT)
    }
}

/// The low byte of a register value: the state of the eight switches of SYS_SW, or of the
/// eight user LEDs of SYS_LED.
pub fn register_low_byte(value: u32) -> (byte: u8)
    ensures
        byte == value & 0xffu32,
{
    proof {
        assert(value as u8 == value & 0xffu32) by (bit_vector);
    }
    value as u8
}

/// Whether a SYS_MCI value reports an MMC card: its bit 0.
pub fn mmc_card_present_in(value: u32) -> (present: bool)
    ensures
        present == (value & 0x0000_0001u32 != 0),
{
    (value & 0x0000_0001) != 0
}

} // verus!
