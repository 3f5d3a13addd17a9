//! FVP power controller: register encodings and decodings.

use vstd::prelude::*;

verus! {

/// Power on reason.
#[derive(Clone, Copy, PartialEq, Eq, Debug, Structural)]
pub enum PowerOnReason {
    /// Cold power-on.
    ColdPowerOn,
    /// System reset pin.
    SystemResetPin,
    /// Wake by PPONR.
    WakeByProcessorOn,
    /// Wake by GIC WakeRequest signal.
    WakeByGicSignal,
}

impl PowerOnReason {
    const SHIFT: u32 = 24;
    const MASK: u32 = 0b11;
    const COLD_PWR_ON: u32 = 0b00;
    const SYS_RESET_PIN: u32 = 0b01;
    const BY_PPONR: u32 = 0b10;

    /// The two-bit code that the PSYSR register gives for this reason.
    pub open spec fn code(self) -> u32 {
        match self {
            PowerOnReason::ColdPowerOn => 0b00,
            PowerOnReason::SystemResetPin => 0b01,
            PowerOnReason::WakeByProcessorOn => 0b10,
            PowerOnReason::WakeByGicSignal => 0b11,
        }
    }
}

/// Bits 25:24 of a PSYSR value: the reason field.
pub open spec fn power_on_reason_field(value: u32) -> u32 {
    (value >> 24u32) & 0b11u32
}

/// The reason whose code stands in bits 25:24 of a PSYSR value.
pub open spec fn power_on_reason_of(value: u32) -> PowerOnReason {
    let field = power_on_reason_field(value);
    if field == 0 {
        PowerOnReason::ColdPowerOn
    } else if field == 1 {
        PowerOnReason::SystemResetPin
    } else if field == 2 {
        PowerOnReason::WakeByProcessorOn
    } else {
        PowerOnReason::WakeByGicSignal
    }
}

/// The reason field of a PSYSR value is a two-bit number.
pub proof fn lemma_power_on_reason_field_bound(value: u32)
    ensures
        power_on_reason_field(value) < 4,
{
    assert((value >> 24u32) & 0b11u32 < 4) by (bit_vector);
}

/// A PSYSR value decodes to a given reason exactly when bits 25:24 hold that reason's code,
/// whatever the other bits hold.
pub proof fn lemma_power_on_reason_code(value: u32, reason: PowerOnReason)
    ensures
        (power_on_reason_of(value) == reason) <==> (power_on_reason_field(value) == reason.code()),
{
    lemma_power_on_reason_field_bound(value);
}

/// The decoded reason is named by bits 25:24 of the PSYSR value alone: 0b00 cold power-on,
/// 0b01 system reset pin, 0b10 wake by PPONR, 0b11 wake by GIC signal; so two values that
/// agree on bits 25:24 decode to the same reason, whatever their other bits.
pub proof fn lemma_power_on_reason_decoding(value: u32, other: u32)
    ensures
        (power_on_reason_of(value) == PowerOnReason::ColdPowerOn) <==> ((value >> 24u32) & 0b11u32
            == 0b00),
        (power_on_reason_of(value) == PowerOnReason::SystemResetPin) <==> ((value >> 24u32)
            & 0b11u32 == 0b01),
        (power_on_reason_of(value) == PowerOnReason::WakeByProcessorOn) <==> ((value >> 24u32)
            & 0b11u32 == 0b10),
        (power_on_reason_of(value) == PowerOnReason::WakeByGicSignal) <==> ((value >> 24u32)
            & 0b11u32 == 0b11),
        (value >> 24u32) & 0b11u32 == (other >> 24u32) & 0b11u32 ==> power_on_reason_of(value)
            == power_on_reason_of(other),
{
    assert((value >> 24u32) & 0b11u32 < 4) by (bit_vector);
    assert((other >> 24u32) & 0b11u32 < 4) by (bit_vector);
}

impl From<u32> for PowerOnReason {
    /// Decodes the power on reason from bits 25:24 of a PSYSR value; every other bit is ignored.
    fn from(value: u32) -> (reason: Self)
        ensures
            reason == power_on_reason_of(value),
            reason.code() == power_on_reason_field(value),
            (reason == PowerOnReason::ColdPowerOn) <==> ((value >> 24u32) & 0b11u32 == 0b00),
            (reason == PowerOnReason::SystemResetPin) <==> ((value >> 24u32) & 0b11u32 == 0b01),
            (reason == PowerOnReason::WakeByProcessorOn) <==> ((value >> 24u32) & 0b11u32 == 0b10),
            (reason == PowerOnReason::WakeByGicSignal) <==> ((value >> 24u32) & 0b11u32 == 0b11),
    {
        proof {
            lemma_power_on_reason_field_bound(value);
        }
        let masked_shifted_value = (value >> Self::SHIFT) & Self::MASK;
        if masked_shifted_value == Self::COLD_PWR_ON {
            PowerOnReason::ColdPowerOn
        } else if masked_shifted_value == Self::SYS_RESET_PIN {
            PowerOnReason::SystemResetPin
        } else if masked_shifted_value == Self::BY_PPONR {
            PowerOnReason::WakeByProcessorOn
        } else {
            PowerOnReason::WakeByGicSignal
        }
    }
}

impl vstd::std_specs::convert::FromSpecImpl<u32> for PowerOnReason {
    open spec fn obeys_from_spec() -> bool {
        true
    }

    open spec fn from_spec(v: u32) -> Self {
        power_on_reason_of(v)
    }
}

/// Bit 31 of PSYSR: affinity level 2 is on.
pub const SYSTEM_STATUS_L2: u32 = 0x8000_0000;
/// Bit 30 of PSYSR: affinity level 1 is on.
pub const SYSTEM_STATUS_L1: u32 = 0x4000_0000;
/// Bit 29 of PSYSR: affinity level 0 is on.
pub const SYSTEM_STATUS_L0: u32 = 0x2000_0000;
/// Bit 28 of PSYSR: wakeup interrupts are enabled for the processor.
pub const SYSTEM_STATUS_WEN: u32 = 0x1000_0000;
/// Bit 27 of PSYSR: a cluster power-off is pending.
pub const SYSTEM_STATUS_PC: u32 = 0x0800_0000;
/// Bit 26 of PSYSR: a processor power-off is pending.
pub const SYSTEM_STATUS_PP: u32 = 0x0400_0000;
/// The union of all the flags that `SystemStatus` knows.
pub const SYSTEM_STATUS_ALL: u32 = 0xFC00_0000;

/// Power Control SYS Status Register, as a set of flags over its bits.
///
/// The value may hold bits that name no flag (see `from_bits_retain`); the operations that
/// build a value from raw bits say which bits they keep.
#[derive(Clone, Copy, PartialEq, Eq, Debug, Hash, Structural)]
pub struct SystemStatus {
    bits: u32,
}

impl View for SystemStatus {
    type V = u32;

    /// The raw bits of the flags value.
    closed spec fn view(&self) -> u32 {
        self.bits
    }
}

impl SystemStatus {
    /// A value of 1 indicates that affinity level 2 is active/on. If affinity level 2 is not
    /// implemented this bit is RAZ.
    #[allow(non_snake_case)]
    pub fn L2() -> (flag: Self)
        ensures
            flag@ == SYSTEM_STATUS_L2,
    {
        SystemStatus { bits: SYSTEM_STATUS_L2 }
    }

    /// A value of 1 indicates that affinity level 1 is active/on. If affinity level 1 is not
    /// implemented this bit is RAZ.
    #[allow(non_snake_case)]
    pub fn L1() -> (flag: Self)
        ensures
            flag@ == SYSTEM_STATUS_L1,
    {
        SystemStatus { bits: SYSTEM_STATUS_L1 }
    }

    /// A value of 1 indicates that affinity level 0 is active/on.
    #[allow(non_snake_case)]
    pub fn L0() -> (flag: Self)
        ensures
            flag@ == SYSTEM_STATUS_L0,
    {
        SystemStatus { bits: SYSTEM_STATUS_L0 }
    }

    /// A value of 1 indicates wakeup interrupts, return from SUSPEND, enabled for this
    /// processor. This is an alias of PWKUPR.WEN for this core.
    #[allow(non_snake_case)]
    pub fn WEN() -> (flag: Self)
        ensures
            flag@ == SYSTEM_STATUS_WEN,
    {
        SystemStatus { bits: SYSTEM_STATUS_WEN }
    }

    /// A value of 1 indicates pending cluster off, the cluster enters low-power mode the next
    /// time it raises signal STANDBYWFIL2.
    #[allow(non_snake_case)]
    pub fn PC() -> (flag: Self)
        ensures
            flag@ == SYSTEM_STATUS_PC,
    {
        SystemStatus { bits: SYSTEM_STATUS_PC }
    }

    /// A value of 1 indicates pending processor off, the processor enters low-power mode the
    /// next time it raises signal STANDBYWFI.
    #[allow(non_snake_case)]
    pub fn PP() -> (flag: Self)
        ensures
            flag@ == SYSTEM_STATUS_PP,
    {
        SystemStatus { bits: SYSTEM_STATUS_PP }
    }

    /// The flags value with no bit set.
    pub fn empty() -> (r: Self)
        ensures
            r@ == 0,
    {
        SystemStatus { bits: 0 }
    }

    /// The flags value with every known flag set.
    pub fn all() -> (r: Self)
        ensures
            r@ == SYSTEM_STATUS_ALL,
    {
        SystemStatus { bits: SYSTEM_STATUS_ALL }
    }

    /// The raw bits of the value.
    pub fn bits(&self) -> (r: u32)
        ensures
            r == self@,
    {
        self.bits
    }

    /// The value with exactly these bits, if every one of them names a known flag.
    pub fn from_bits(bits: u32) -> (r: Option<Self>)
        ensures
            r is Some <==> bits & SYSTEM_STATUS_ALL == bits,
            r matches Some(v) ==> v@ == bits,
    {
        let truncated = bits & SYSTEM_STATUS_ALL;
        if truncated == bits {
            Some(SystemStatus { bits })
        } else {
            None
        }
    }

    /// The value with the bits of `bits` that name a known flag; the other bits are dropped.
    pub fn from_bits_truncate(bits: u32) -> (r: Self)
        ensures
            r@ == bits & SYSTEM_STATUS_ALL,
    {
        SystemStatus { bits: bits & SYSTEM_STATUS_ALL }
    }

    /// The value with exactly these bits, known flags or not.
    pub fn from_bits_retain(bits: u32) -> (r: Self)
        ensures
            r@ == bits,
    {
        SystemStatus { bits }
    }

    /// Whether no bit is set.
    pub fn is_empty(&self) -> (r: bool)
        ensures
            r == (self@ == 0),
    {
        self.bits == 0
    }

    /// Whether every known flag is set.
    pub fn is_all(&self) -> (r: bool)
        ensures
            r == (SYSTEM_STATUS_ALL | self@ == self@),
    {
        SYSTEM_STATUS_ALL | self.bits == self.bits
    }

    /// Whether some bit is set in both values.
    pub fn intersects(&self, other: Self) -> (r: bool)
        ensures
            r == (self@ & other@ != 0),
    {
        self.bits & other.bits != 0
    }

    /// Whether every bit of `other` is set in this value.
    pub fn contains(&self, other: Self) -> (r: bool)
        ensures
            r == (self@ & other@ == other@),
    {
        self.bits & other.bits == other.bits
    }

    /// Sets the bits of `other`.
    pub fn insert(&mut self, other: Self)
        ensures
            final(self)@ == old(self)@ | other@,
    {
        self.bits = self.bits | other.bits;
    }

    /// Clears the bits of `other`.
    pub fn remove(&mut self, other: Self)
        ensures
            final(self)@ == old(self)@ & !other@,
    {
        self.bits = self.bits & !other.bits;
    }

    /// Flips the bits of `other`.
    pub fn toggle(&mut self, other: Self)
        ensures
            final(self)@ == old(self)@ ^ other@,
    {
        self.bits = self.bits ^ other.bits;
    }

    /// Sets the bits of `other` when `value` holds, and clears them when it does not.
    pub fn set(&mut self, other: Self, value: bool)
        ensures
            final(self)@ == (if value {
                old(self)@ | other@
            } else {
                old(self)@ & !other@
            }),
    {
        if value {
            self.insert(other);
        } else {
            self.remove(other);
        }
    }

    /// The bits set in both values.
    pub fn intersection(self, other: Self) -> (r: Self)
        ensures
            r@ == self@ & other@,
    {
        SystemStatus { bits: self.bits & other.bits }
    }

    /// The bits set in either value.
    pub fn union(self, other: Self) -> (r: Self)
        ensures
            r@ == self@ | other@,
    {
        SystemStatus { bits: self.bits | other.bits }
    }

    /// The bits of this value that `other` does not set.
    pub fn difference(self, other: Self) -> (r: Self)
        ensures
            r@ == self@ & !other@,
    {
        SystemStatus { bits: self.bits & !other.bits }
    }

    /// The bits set in exactly one of the two values.
    pub fn symmetric_difference(self, other: Self) -> (r: Self)
        ensures
            r@ == self@ ^ other@,
    {
        SystemStatus { bits: self.bits ^ other.bits }
    }

    /// The known flags that this value does not set.
    pub fn complement(self) -> (r: Self)
        ensures
            r@ == !self@ & SYSTEM_STATUS_ALL,
    {
        Self::from_bits_truncate(!self.bits)
    }
}

/// The one-flag sequence `[flag]` when `bits` sets `flag`, and the empty sequence otherwise.
pub open spec fn flag_if_set(bits: u32, flag: u32) -> Seq<u32> {
    if bits & flag != 0 {
        seq![flag]
    } else {
        Seq::empty()
    }
}

/// The raw bits of the values that iterating over a `SystemStatus` gives: each known flag that
/// `bits` sets, in the order L2, L1, L0, WEN, PC, PP, then, when `bits` sets bits that name no
/// flag, one last value holding exactly those bits.
pub open spec fn system_status_iter_bits(bits: u32) -> Seq<u32> {
    flag_if_set(bits, SYSTEM_STATUS_L2) + flag_if_set(bits, SYSTEM_STATUS_L1) + flag_if_set(
        bits,
        SYSTEM_STATUS_L0,
    ) + flag_if_set(bits, SYSTEM_STATUS_WEN) + flag_if_set(bits, SYSTEM_STATUS_PC)
        + flag_if_set(bits, SYSTEM_STATUS_PP) + (if bits & !SYSTEM_STATUS_ALL != 0 {
        seq![bits & !SYSTEM_STATUS_ALL]
    } else {
        Seq::empty()
    })
}

/// The raw bits of a sequence of flags values.
pub open spec fn system_status_bits_of(values: Seq<SystemStatus>) -> Seq<u32> {
    values.map_values(|v: SystemStatus| v@)
}

/// Whether every element of `s` is greater than every later one.
pub open spec fn strictly_descending(s: Seq<u32>) -> bool {
    forall|i: int, j: int| 0 <= i < j < s.len() ==> s[i] > s[j]
}

/// Appending `part`, whose elements are at least `low` and below every element of `s`, keeps
/// the sequence strictly descending, and the result holds exactly what the two hold.
proof fn lemma_append_descending(s: Seq<u32>, part: Seq<u32>, high: u32, low: u32)
    requires
        strictly_descending(s),
        strictly_descending(part),
        forall|i: int| 0 <= i < s.len() ==> s[i] >= high,
        forall|j: int| 0 <= j < part.len() ==> low <= #[trigger] part[j] < high,
    ensures
        strictly_descending(s + part),
        forall|i: int| 0 <= i < (s + part).len() ==> #[trigger] (s + part)[i] >= low || (s
            + part)[i] >= high,
        forall|x: u32| #[trigger] (s + part).contains(x) <==> s.contains(x) || part.contains(x),
{
    let t = s + part;
    assert forall|i: int, j: int| 0 <= i < j < t.len() implies t[i] > t[j] by {
        if j < s.len() {
        } else if i < s.len() {
            assert(part[j - s.len()] < high);
        } else {
            assert(t[i] == part[i - s.len()] && t[j] == part[j - s.len()]);
        }
    }
    assert forall|x: u32| #[trigger] t.contains(x) <==> s.contains(x) || part.contains(x) by {
        if t.contains(x) {
            let k = choose|k: int| 0 <= k < t.len() && t[k] == x;
            if k < s.len() {
                assert(s[k] == x);
            } else {
                assert(part[k - s.len()] == x);
            }
        }
        if s.contains(x) {
            let k = choose|k: int| 0 <= k < s.len() && s[k] == x;
            assert(t[k] == x);
        }
        if part.contains(x) {
            let k = choose|k: int| 0 <= k < part.len() && part[k] == x;
            assert(t[s.len() + k] == x);
        }
    }
    assert forall|i: int| 0 <= i < t.len() implies #[trigger] t[i] >= low || t[i] >= high by {
        if i >= s.len() {
            assert(t[i] == part[i - s.len()]);
        }
    }
}

/// What one flag contributes to an iteration: nothing, or the flag itself when `bits` sets it.
proof fn lemma_flag_if_set_facts(bits: u32, flag: u32)
    ensures
        strictly_descending(flag_if_set(bits, flag)),
        forall|j: int|
            0 <= j < flag_if_set(bits, flag).len() ==> #[trigger] flag_if_set(bits, flag)[j]
                == flag,
        forall|x: u32| #[trigger]
            flag_if_set(bits, flag).contains(x) <==> (bits & flag != 0 && x == flag),
{
    if bits & flag != 0 {
        assert(flag_if_set(bits, flag)[0] == flag);
    }
}

/// Whether `x` is one of the values that iterating over `bits` gives, by the bit that each
/// flag owns.
pub open spec fn yielded_by(bits: u32, x: u32) -> bool {
    ||| (bits & 0x8000_0000u32 != 0 && x == 0x8000_0000u32)
    ||| (bits & 0x4000_0000u32 != 0 && x == 0x4000_0000u32)
    ||| (bits & 0x2000_0000u32 != 0 && x == 0x2000_0000u32)
    ||| (bits & 0x1000_0000u32 != 0 && x == 0x1000_0000u32)
    ||| (bits & 0x0800_0000u32 != 0 && x == 0x0800_0000u32)
    ||| (bits & 0x0400_0000u32 != 0 && x == 0x0400_0000u32)
    ||| (bits & 0x03ff_ffffu32 != 0 && x == bits & 0x03ff_ffffu32)
}

/// The iteration over `bits` is strictly descending and holds exactly the values that
/// `yielded_by` names.
proof fn lemma_system_status_iter_structure(bits: u32)
    ensures
        strictly_descending(system_status_iter_bits(bits)),
        forall|x: u32| #[trigger]
            system_status_iter_bits(bits).contains(x) <==> yielded_by(bits, x),
{
    let p1 = flag_if_set(bits, SYSTEM_STATUS_L2);
    let p2 = flag_if_set(bits, SYSTEM_STATUS_L1);
    let p3 = flag_if_set(bits, SYSTEM_STATUS_L0);
    let p4 = flag_if_set(bits, SYSTEM_STATUS_WEN);
    let p5 = flag_if_set(bits, SYSTEM_STATUS_PC);
    let p6 = flag_if_set(bits, SYSTEM_STATUS_PP);
    let rest = bits & !SYSTEM_STATUS_ALL;
    let p7: Seq<u32> = if rest != 0 {
        seq![rest]
    } else {
        Seq::empty()
    };
    assert(rest == bits & 0x03ff_ffffu32 && rest < 0x0400_0000u32) by (bit_vector)
        requires
            rest == bits & !0xFC00_0000u32,
    ;
    lemma_flag_if_set_facts(bits, SYSTEM_STATUS_L2);
    lemma_flag_if_set_facts(bits, SYSTEM_STATUS_L1);
    lemma_flag_if_set_facts(bits, SYSTEM_STATUS_L0);
    lemma_flag_if_set_facts(bits, SYSTEM_STATUS_WEN);
    lemma_flag_if_set_facts(bits, SYSTEM_STATUS_PC);
    lemma_flag_if_set_facts(bits, SYSTEM_STATUS_PP);
    let q0 = Seq::<u32>::empty();
    lemma_append_descending(q0, p1, 0xffff_ffff, SYSTEM_STATUS_L2);
    let q1 = q0 + p1;
    lemma_append_descending(q1, p2, SYSTEM_STATUS_L2, SYSTEM_STATUS_L1);
    let q2 = q1 + p2;
    lemma_append_descending(q2, p3, SYSTEM_STATUS_L1, SYSTEM_STATUS_L0);
    let q3 = q2 + p3;
    lemma_append_descending(q3, p4, SYSTEM_STATUS_L0, SYSTEM_STATUS_WEN);
    let q4 = q3 + p4;
    lemma_append_descending(q4, p5, SYSTEM_STATUS_WEN, SYSTEM_STATUS_PC);
    let q5 = q4 + p5;
    lemma_append_descending(q5, p6, SYSTEM_STATUS_PC, SYSTEM_STATUS_PP);
    let q6 = q5 + p6;
    if rest != 0 {
        assert(p7[0] == rest);
    }
    lemma_append_descending(q6, p7, SYSTEM_STATUS_PP, 0);
    assert(q0 + p1 =~= p1);
    assert(q6 + p7 =~= system_status_iter_bits(bits));
    assert forall|x: u32| #[trigger] p7.contains(x) <==> (rest != 0 && x == rest) by {
        if rest != 0 && x == rest {
            assert(p7[0] == x);
        }
    }
}

/// Iterating over a status value gives its set flags as distinct values in descending order of
/// their bits (L2, L1, L0, WEN, PC, PP), each flag present exactly when its own bit is set, and
/// then the bits that name no flag, when there are any. Every value yielded is a non-empty part
/// of the status.
pub proof fn lemma_system_status_iteration(bits: u32)
    ensures
        strictly_descending(system_status_iter_bits(bits)),
        system_status_iter_bits(bits).contains(0x8000_0000u32) <==> bits & 0x8000_0000u32 != 0,
        system_status_iter_bits(bits).contains(0x4000_0000u32) <==> bits & 0x4000_0000u32 != 0,
        system_status_iter_bits(bits).contains(0x2000_0000u32) <==> bits & 0x2000_0000u32 != 0,
        system_status_iter_bits(bits).contains(0x1000_0000u32) <==> bits & 0x1000_0000u32 != 0,
        system_status_iter_bits(bits).contains(0x0800_0000u32) <==> bits & 0x0800_0000u32 != 0,
        system_status_iter_bits(bits).contains(0x0400_0000u32) <==> bits & 0x0400_0000u32 != 0,
        system_status_iter_bits(bits).contains(bits & 0x03ff_ffffu32) <==> bits & 0x03ff_ffffu32
            != 0,
        forall|i: int|
            0 <= i < system_status_iter_bits(bits).len() ==> {
                let v = #[trigger] system_status_iter_bits(bits)[i];
                &&& v != 0
                &&& v & bits == v
                &&& (v == 0x8000_0000u32 || v == 0x4000_0000u32 || v == 0x2000_0000u32 || v
                    == 0x1000_0000u32 || v == 0x0800_0000u32 || v == 0x0400_0000u32 || v == bits
                    & 0x03ff_ffffu32)
            },
{
    let s = system_status_iter_bits(bits);
    lemma_system_status_iter_structure(bits);
    let rest = bits & 0x03ff_ffffu32;
    assert(rest < 0x0400_0000u32) by (bit_vector)
        requires
            rest == bits & 0x03ff_ffffu32,
    ;
    assert(s.contains(0x8000_0000u32) == yielded_by(bits, 0x8000_0000u32));
    assert(s.contains(0x4000_0000u32) == yielded_by(bits, 0x4000_0000u32));
    assert(s.contains(0x2000_0000u32) == yielded_by(bits, 0x2000_0000u32));
    assert(s.contains(0x1000_0000u32) == yielded_by(bits, 0x1000_0000u32));
    assert(s.contains(0x0800_0000u32) == yielded_by(bits, 0x0800_0000u32));
    assert(s.contains(0x0400_0000u32) == yielded_by(bits, 0x0400_0000u32));
    assert(s.contains(rest) == yielded_by(bits, rest));
    assert(rest & bits == rest) by (bit_vector)
        requires
            rest == bits & 0x03ff_ffffu32,
    ;
    assert(bits & 0x8000_0000u32 != 0 ==> 0x8000_0000u32 & bits == 0x8000_0000u32)
        by (bit_vector);
    assert(bits & 0x4000_0000u32 != 0 ==> 0x4000_0000u32 & bits == 0x4000_0000u32)
        by (bit_vector);
    assert(bits & 0x2000_0000u32 != 0 ==> 0x2000_0000u32 & bits == 0x2000_0000u32)
        by (bit_vector);
    assert(bits & 0x1000_0000u32 != 0 ==> 0x1000_0000u32 & bits == 0x1000_0000u32)
        by (bit_vector);
    assert(bits & 0x0800_0000u32 != 0 ==> 0x0800_0000u32 & bits == 0x0800_0000u32)
        by (bit_vector);
    assert(bits & 0x0400_0000u32 != 0 ==> 0x0400_0000u32 & bits == 0x0400_0000u32)
        by (bit_vector);
    assert forall|i: int| 0 <= i < s.len() implies {
        let v = #[trigger] s[i];
        &&& v != 0
        &&& v & bits == v
        &&& (v == 0x8000_0000u32 || v == 0x4000_0000u32 || v == 0x2000_0000u32 || v
            == 0x1000_0000u32 || v == 0x0800_0000u32 || v == 0x0400_0000u32 || v == bits
            & 0x03ff_ffffu32)
    } by {
        assert(s.contains(s[i]));
        assert(yielded_by(bits, s[i]));
    }
}

/// Appends `flag` to `flags` when `bits` sets it.
fn push_flag_if_set(flags: &mut Vec<SystemStatus>, bits: u32, flag: u32)
    ensures
        system_status_bits_of(final(flags)@) == system_status_bits_of(old(flags)@) + flag_if_set(
            bits,
            flag,
        ),
{
    if bits & flag != 0 {
        flags.push(SystemStatus { bits: flag });
    }
    assert(system_status_bits_of(flags@) =~= system_status_bits_of(old(flags)@) + flag_if_set(
        bits,
        flag,
    ));
}

impl SystemStatus {
    /// The flags that this value sets, one value per known flag in the order L2, L1, L0, WEN,
    /// PC, PP, followed by one value holding the bits that name no flag, when there are any.
    pub fn iter(&self) -> (flags: Vec<SystemStatus>)
        ensures
            system_status_bits_of(flags@) == system_status_iter_bits(self@),
    {
        let bits = self.bits;
        let mut flags: Vec<SystemStatus> = Vec::new();
        assert(system_status_bits_of(flags@) =~= Seq::<u32>::empty());
        push_flag_if_set(&mut flags, bits, SYSTEM_STATUS_L2);
        push_flag_if_set(&mut flags, bits, SYSTEM_STATUS_L1);
        push_flag_if_set(&mut flags, bits, SYSTEM_STATUS_L0);
        push_flag_if_set(&mut flags, bits, SYSTEM_STATUS_WEN);
        push_flag_if_set(&mut flags, bits, SYSTEM_STATUS_PC);
        push_flag_if_set(&mut flags, bits, SYSTEM_STATUS_PP);
        let remaining = bits & !SYSTEM_STATUS_ALL;
        let ghost before = system_status_bits_of(flags@);
        if remaining != 0 {
            flags.push(SystemStatus { bits: remaining });
        }
        assert(system_status_bits_of(flags@) =~= before + (if remaining != 0 {
            seq![remaining]
        } else {
            Seq::<u32>::empty()
        }));
        assert(system_status_bits_of(flags@) =~= system_status_iter_bits(bits));
        flags
    }
}

impl core::ops::BitOr for SystemStatus {
    type Output = Self;

    /// The union of the two values.
    fn bitor(self, other: Self) -> (r: Self)
        ensures
            r@ == self@ | other@,
    {
        self.union(other)
    }
}

impl vstd::std_specs::ops::BitOrSpecImpl for SystemStatus {
    open spec fn obeys_bitor_spec() -> bool {
        true
    }

    open spec fn bitor_req(self, other: Self) -> bool {
        true
    }

    closed spec fn bitor_spec(self, other: Self) -> Self {
        SystemStatus { bits: self.bits | other.bits }
    }
}

impl core::ops::BitAnd for SystemStatus {
    type Output = Self;

    /// The intersection of the two values.
    fn bitand(self, other: Self) -> (r: Self)
        ensures
            r@ == self@ & other@,
    {
        self.intersection(other)
    }
}

impl vstd::std_specs::ops::BitAndSpecImpl for SystemStatus {
    open spec fn obeys_bitand_spec() -> bool {
        true
    }

    open spec fn bitand_req(self, other: Self) -> bool {
        true
    }

    closed spec fn bitand_spec(self, other: Self) -> Self {
        SystemStatus { bits: self.bits & other.bits }
    }
}

impl core::ops::BitXor for SystemStatus {
    type Output = Self;

    /// The symmetric difference of the two values.
    fn bitxor(self, other: Self) -> (r: Self)
        ensures
            r@ == self@ ^ other@,
    {
        self.symmetric_difference(other)
    }
}

impl vstd::std_specs::ops::BitXorSpecImpl for SystemStatus {
    open spec fn obeys_bitxor_spec() -> bool {
        true
    }

    open spec fn bitxor_req(self, other: Self) -> bool {
        true
    }

    closed spec fn bitxor_spec(self, other: Self) -> Self {
        SystemStatus { bits: self.bits ^ other.bits }
    }
}

impl core::ops::Sub for SystemStatus {
    type Output = Self;

    /// The difference of the two values.
    fn sub(self, other: Self) -> (r: Self)
        ensures
            r@ == self@ & !other@,
    {
        self.difference(other)
    }
}

impl vstd::std_specs::ops::SubSpecImpl for SystemStatus {
    open spec fn obeys_sub_spec() -> bool {
        true
    }

    open spec fn sub_req(self, other: Self) -> bool {
        true
    }

    closed spec fn sub_spec(self, other: Self) -> Self {
        SystemStatus { bits: self.bits & !other.bits }
    }
}

impl core::ops::Not for SystemStatus {
    type Output = Self;

    /// The complement of the value. Verus cannot take the `!` operator on a value of this type
    /// in verified code, where `complement` gives the same result.
    fn not(self) -> (r: Self)
        ensures
            r@ == !self@ & SYSTEM_STATUS_ALL,
    {
        self.complement()
    }
}

impl vstd::std_specs::ops::NotSpecImpl for SystemStatus {
    open spec fn obeys_not_spec() -> bool {
        true
    }

    open spec fn not_req(self) -> bool {
        true
    }

    closed spec fn not_spec(self) -> Self {
        SystemStatus { bits: !self.bits & SYSTEM_STATUS_ALL }
    }
}

impl core::ops::BitOrAssign for SystemStatus {
    /// Sets the bits of `other`.
    fn bitor_assign(&mut self, other: Self)
        ensures
            final(self)@ == old(self)@ | other@,
    {
        self.insert(other);
    }
}

impl core::ops::BitAndAssign for SystemStatus {
    /// Keeps only the bits that `other` sets too.
    fn bitand_assign(&mut self, other: Self)
        ensures
            final(self)@ == old(self)@ & other@,
    {
        self.bits = self.bits & other.bits;
    }
}

impl core::ops::BitXorAssign for SystemStatus {
    /// Flips the bits of `other`.
    fn bitxor_assign(&mut self, other: Self)
        ensures
            final(self)@ == old(self)@ ^ other@,
    {
        self.toggle(other);
    }
}

impl core::ops::SubAssign for SystemStatus {
    /// Clears the bits of `other`.
    fn sub_assign(&mut self, other: Self)
        ensures
            final(self)@ == old(self)@ & !other@,
    {
        self.remove(other);
    }
}

/// After `insert(other)` the value contains `other`, and after `remove(other)` it shares no bit
/// with `other`; the bits outside `other` are kept by both.
pub proof fn lemma_system_status_insert_remove(status: u32, other: u32)
    ensures
        (status | other) & other == other,
        (status & !other) & other == 0,
        (status | other) & !other == status & !other,
        (status & !other) | other == status | other,
{
    assert((status | other) & other == other) by (bit_vector);
    assert((status & !other) & other == 0) by (bit_vector);
    assert((status | other) & !other == status & !other) by (bit_vector);
    assert((status & !other) | other == status | other) by (bit_vector);
}

/// `from_bits_truncate` keeps only known flags, so its result is accepted by `from_bits`,
/// truncating twice is truncating once, and raw bits that are all known flags are kept as they
/// are.
pub proof fn lemma_system_status_truncate(bits: u32)
    ensures
        (bits & SYSTEM_STATUS_ALL) & SYSTEM_STATUS_ALL == bits & SYSTEM_STATUS_ALL,
        bits & SYSTEM_STATUS_ALL == bits <==> bits & !SYSTEM_STATUS_ALL == 0,
{
    assert((bits & 0xFC00_0000u32) & 0xFC00_0000u32 == bits & 0xFC00_0000u32) by (bit_vector);
    assert(bits & 0xFC00_0000u32 == bits <==> bits & !0xFC00_0000u32 == 0) by (bit_vector);
}

/// The complement of the complement is the value with its unknown bits dropped, and a value
/// and its complement share no bit and together hold every known flag.
pub proof fn lemma_system_status_complement(status: u32)
    ensures
        !(!status & SYSTEM_STATUS_ALL) & SYSTEM_STATUS_ALL == status & SYSTEM_STATUS_ALL,
        status & (!status & SYSTEM_STATUS_ALL) == 0,
        SYSTEM_STATUS_ALL | (status | (!status & SYSTEM_STATUS_ALL)) == (status | (!status
            & SYSTEM_STATUS_ALL)),
{
    assert(!(!status & 0xFC00_0000u32) & 0xFC00_0000u32 == status & 0xFC00_0000u32)
        by (bit_vector);
    assert(status & (!status & 0xFC00_0000u32) == 0) by (bit_vector);
    assert(0xFC00_0000u32 | (status | (!status & 0xFC00_0000u32)) == (status | (!status
        & 0xFC00_0000u32))) by (bit_vector);
}

/// The flags that `SystemStatus` knows are exactly bits 31:26, one bit each.
pub proof fn lemma_system_status_all_flags()
    ensures
        SYSTEM_STATUS_ALL == SYSTEM_STATUS_L2 | SYSTEM_STATUS_L1 | SYSTEM_STATUS_L0
            | SYSTEM_STATUS_WEN | SYSTEM_STATUS_PC | SYSTEM_STATUS_PP,
{
    assert(0xFC00_0000u32 == 0x8000_0000u32 | 0x4000_0000u32 | 0x2000_0000u32 | 0x1000_0000u32
        | 0x0800_0000u32 | 0x0400_0000u32) by (bit_vector);
}

/// Power Control Wakeup Register, as a set of flags over its bits.
struct WakeupRegister {
    bits: u32,
}

impl WakeupRegister {
    /// If set, enables wakeup interrupts (return from SUSPEND) for this cluster.
    #[allow(non_snake_case)]
    fn WEN() -> (flag: Self)
        ensures
            flag.bits == PWKUPR_WEN,
    {
        WakeupRegister { bits: PWKUPR_WEN }
    }

    fn empty() -> (r: Self)
        ensures
            r.bits == 0,
    {
        WakeupRegister { bits: 0 }
    }

    fn union(self, other: Self) -> (r: Self)
        ensures
            r.bits == self.bits | other.bits,
    {
        WakeupRegister { bits: self.bits | other.bits }
    }

    fn bits(&self) -> (r: u32)
        ensures
            r == self.bits,
    {
        self.bits
    }
}

/// Bit 31 of PWKUPR: wakeup requests from the GIC are enabled.
pub const PWKUPR_WEN: u32 = 0x8000_0000;

/// The affinity fields of an MPIDR value that the power controller registers take.
pub const MPIDR_MASK: u32 = 0xff_ffff;

/// The value that names the processor or cluster `mpidr` in PPONR, PPOFFR, PCOFFR and PSYSR:
/// the affinity fields of `mpidr`, every higher bit clear.
pub fn mpidr_request(mpidr: u32) -> (value: u32)
    ensures
        value == mpidr & MPIDR_MASK,
{
    mpidr & MPIDR_MASK
}

/// The PWKUPR value that enables (`enable`) or disables wakeup requests from the GIC for the
/// cluster of `mpidr`: the affinity fields of `mpidr`, with the WEN bit set exactly when
/// `enable` holds.
pub fn wakeup_request(mpidr: u32, enable: bool) -> (value: u32)
    ensures
        value == (mpidr & MPIDR_MASK) | (if enable {
            PWKUPR_WEN
        } else {
            0
        }),
{
    let wkup_reg = if enable {
        WakeupRegister::empty().union(WakeupRegister::WEN())
    } else {
        WakeupRegister::empty()
    };
    assert(0u32 | PWKUPR_WEN == PWKUPR_WEN) by (bit_vector);
    (mpidr & MPIDR_MASK) | wkup_reg.bits()
}

/// A wakeup request keeps the affinity fields of the MPIDR, leaves bits 30:24 clear, and sets
/// bit 31 exactly when it enables wakeups; disabling writes the plain processor request.
pub proof fn lemma_wakeup_request_fields(mpidr: u32, enable: bool)
    ensures
        ((mpidr & MPIDR_MASK) | (if enable {
            PWKUPR_WEN
        } else {
            0
        })) & MPIDR_MASK == mpidr & MPIDR_MASK,
        ((mpidr & MPIDR_MASK) | (if enable {
            PWKUPR_WEN
        } else {
            0
        })) & 0x7f00_0000 == 0,
        (((mpidr & MPIDR_MASK) | (if enable {
            PWKUPR_WEN
        } else {
            0
        })) & PWKUPR_WEN != 0) == enable,
        !enable ==> ((mpidr & MPIDR_MASK) | (if enable {
            PWKUPR_WEN
        } else {
            0
        })) == mpidr & MPIDR_MASK,
{
    let w: u32 = if enable {
        PWKUPR_WEN
    } else {
        0
    };
    assert(((mpidr & 0xff_ffffu32) | w) & 0xff_ffffu32 == mpidr & 0xff_ffffu32) by (bit_vector)
        requires
            w == 0 || w == 0x8000_0000u32,
    ;
    assert(((mpidr & 0xff_ffffu32) | w) & 0x7f00_0000u32 == 0) by (bit_vector)
        requires
            w == 0 || w == 0x8000_0000u32,
    ;
    assert((((mpidr & 0xff_ffffu32) | w) & 0x8000_0000u32 != 0) == (w == 0x8000_0000u32))
        by (bit_vector)
        requires
            w == 0 || w == 0x8000_0000u32,
    ;
    assert(((mpidr & 0xff_ffffu32) | 0u32) == mpidr & 0xff_ffffu32) by (bit_vector);
}

} // verus!
