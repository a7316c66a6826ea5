//! Control and status registers: addresses, field layouts, and the codec
//! between a raw register byte and its typed view.

use vstd::prelude::*;

verus! {

/// Input Source Control Register REG00
pub const REG_INPUT_SOURCE_CONTROL: u8 = 0x00;

/// Power-On Configuration Register REG01
pub const REG_POWER_ON_CONFIGURATION: u8 = 0x01;

/// Boost mode current limit, a 1-bit field.
#[derive(Copy, Clone, Debug, PartialEq, Eq, Structural, PartialOrd, Ord)]
pub enum BoostLim {
    Amp1_0,
    Amp1_5,
}

impl BoostLim {
    /// The bit pattern of each variant.
    pub open spec fn code(self) -> u8 {
        match self {
            BoostLim::Amp1_0 => 0,
            BoostLim::Amp1_5 => 1,
        }
    }

    /// The variant of a bit pattern below 2.
    pub open spec fn of_code(bits: u8) -> Self {
        if bits == 0 {
            BoostLim::Amp1_0
        } else {
            BoostLim::Amp1_5
        }
    }

    /// Decodes a 1-bit pattern; every pattern names a variant.
    pub fn from_bits(bits: u8) -> (r: Self)
        requires
            bits < 2,
        ensures
            r == Self::of_code(bits),
            r.code() == bits,
    {
        if bits == 0 {
            BoostLim::Amp1_0
        } else {
            BoostLim::Amp1_5
        }
    }

    /// Encodes the variant as its bit pattern.
    pub fn bits(self) -> (r: u8)
        ensures
            r == self.code(),
    {
        match self {
            BoostLim::Amp1_0 => 0,
            BoostLim::Amp1_5 => 1,
        }
    }

    /// Every bit pattern of the field names a variant, and encoding that
    /// variant gives the pattern back, so distinct patterns name distinct variants.
    pub proof fn lemma_code_round_trip(bits: u8)
        requires
            bits < 2,
        ensures
            Self::of_code(bits).code() == bits,
    {
    }

    /// Each variant has a pattern within the field's width, which decodes to it.
    pub proof fn lemma_variant_round_trip(self)
        ensures
            self.code() < 2,
            Self::of_code(self.code()) == self,
    {
    }
}

/// Power-On Configuration Register: the typed view of one byte, bit 0 first.
#[derive(Copy, Clone, Debug, PartialEq, Eq, Structural)]
pub struct PowerOnConfiguration {
    /// Bit 0: boost mode current limit.
    pub boost_lim: BoostLim,
    /// Bits 1..3: minimum system voltage limit.
    pub sys_min: u8,
    /// Bit 4: charge enable.
    pub en_charge: bool,
    /// Bit 5: OTG enable.
    pub en_otg: bool,
    /// Bit 6: watchdog timer reset.
    pub watchdog_reset: bool,
    /// Bit 7: register reset.
    pub register_reset: bool,
}

impl PowerOnConfiguration {
    /// Every integer field fits in its width.
    pub open spec fn wf(self) -> bool {
        self.sys_min < 8
    }

    /// The typed view of a register byte.
    pub open spec fn decode(v: u8) -> Self {
        PowerOnConfiguration {
            boost_lim: BoostLim::of_code(v & 0x01),
            sys_min: (v >> 1) & 0x07,
            en_charge: v & 0x10 != 0,
            en_otg: v & 0x20 != 0,
            watchdog_reset: v & 0x40 != 0,
            register_reset: v & 0x80 != 0,
        }
    }

    /// The register byte of a view; each field goes to its own bits, an
    /// integer field cut to its width.
    pub open spec fn encode(self) -> u8 {
        self.boost_lim.code() |
        ((self.sys_min & 0x07) << 1) |
        (if self.en_charge { 0x10u8 } else { 0u8 }) |
        (if self.en_otg { 0x20u8 } else { 0u8 }) |
        (if self.watchdog_reset { 0x40u8 } else { 0u8 }) |
        (if self.register_reset { 0x80u8 } else { 0u8 })
    }

    /// Returns the boost mode current limit field.
    pub fn boost_lim(&self) -> (r: BoostLim)
        ensures
            r == self.boost_lim,
    {
        self.boost_lim
    }

    /// Returns the minimum system voltage limit field.
    pub fn sys_min(&self) -> (r: u8)
        ensures
            r == self.sys_min,
    {
        self.sys_min
    }

    /// Returns the charge enable field.
    pub fn en_charge(&self) -> (r: bool)
        ensures
            r == self.en_charge,
    {
        self.en_charge
    }

    /// Returns the OTG enable field.
    pub fn en_otg(&self) -> (r: bool)
        ensures
            r == self.en_otg,
    {
        self.en_otg
    }

    /// Returns the watchdog timer reset field.
    pub fn watchdog_reset(&self) -> (r: bool)
        ensures
            r == self.watchdog_reset,
    {
        self.watchdog_reset
    }

    /// Returns the register reset field.
    pub fn register_reset(&self) -> (r: bool)
        ensures
            r == self.register_reset,
    {
        self.register_reset
    }

    /// Sets the boost mode current limit field; the other fields keep their values.
    pub fn set_boost_lim(&mut self, value: BoostLim)
        ensures
            *final(self) == (PowerOnConfiguration { boost_lim: value, ..*old(self) }),
    {
        self.boost_lim = value;
    }

    /// Sets the minimum system voltage limit field; the other fields keep their values.
    pub fn set_sys_min(&mut self, value: u8)
        requires
            value < 8,
        ensures
            *final(self) == (PowerOnConfiguration { sys_min: value, ..*old(self) }),
    {
        self.sys_min = value;
    }

    /// Sets the charge enable field; the other fields keep their values.
    pub fn set_en_charge(&mut self, value: bool)
        ensures
            *final(self) == (PowerOnConfiguration { en_charge: value, ..*old(self) }),
    {
        self.en_charge = value;
    }

    /// Sets the OTG enable field; the other fields keep their values.
    pub fn set_en_otg(&mut self, value: bool)
        ensures
            *final(self) == (PowerOnConfiguration { en_otg: value, ..*old(self) }),
    {
        self.en_otg = value;
    }

    /// Sets the watchdog timer reset field; the other fields keep their values.
    pub fn set_watchdog_reset(&mut self, value: bool)
        ensures
            *final(self) == (PowerOnConfiguration { watchdog_reset: value, ..*old(self) }),
    {
        self.watchdog_reset = value;
    }

    /// Sets the register reset field; the other fields keep their values.
    pub fn set_register_reset(&mut self, value: bool)
        ensures
            *final(self) == (PowerOnConfiguration { register_reset: value, ..*old(self) }),
    {
        self.register_reset = value;
    }

    /// Decoding a byte and encoding the view gives back the byte, reserved
    /// bits included; the decoded view is well formed.
    pub proof fn lemma_round_trip(v: u8)
        ensures
            Self::decode(v).wf(),
            Self::decode(v).encode() == v,
    {
        assert(v & 0x01 < 2 &&
            (v >> 1) & 0x07 < 8) by (bit_vector);
        BoostLim::lemma_code_round_trip(v & 0x01);
        assert(((v & 0x01) |
            ((((v >> 1) & 0x07) & 0x07) << 1) |
            (if v & 0x10 != 0 { 0x10u8 } else { 0u8 }) |
            (if v & 0x20 != 0 { 0x20u8 } else { 0u8 }) |
            (if v & 0x40 != 0 { 0x40u8 } else { 0u8 }) |
            (if v & 0x80 != 0 { 0x80u8 } else { 0u8 })) == v) by (bit_vector);
    }

    /// Each field owns its bits: the bits of a field in the encoded byte
    /// depend on that field alone, so changing one field of a view changes
    /// no other field's bits of the byte.
    pub proof fn lemma_field_isolation(self)
        ensures
            self.encode() & 0x01 == self.boost_lim.code(),
            self.encode() & 0x0e == ((self.sys_min & 0x07) << 1),
            self.encode() & 0x10 == (if self.en_charge { 0x10u8 } else { 0u8 }),
            self.encode() & 0x20 == (if self.en_otg { 0x20u8 } else { 0u8 }),
            self.encode() & 0x40 == (if self.watchdog_reset { 0x40u8 } else { 0u8 }),
            self.encode() & 0x80 == (if self.register_reset { 0x80u8 } else { 0u8 }),
    {
        let boost_lim = self.boost_lim.code();
        self.boost_lim.lemma_variant_round_trip();
        let sys_min = self.sys_min;
        let en_charge = self.en_charge;
        let en_otg = self.en_otg;
        let watchdog_reset = self.watchdog_reset;
        let register_reset = self.register_reset;
        let encoded = self.encode();
        assert((boost_lim < 2 && encoded == (boost_lim |
            ((sys_min & 0x07) << 1) |
            (if en_charge { 0x10u8 } else { 0u8 }) |
            (if en_otg { 0x20u8 } else { 0u8 }) |
            (if watchdog_reset { 0x40u8 } else { 0u8 }) |
            (if register_reset { 0x80u8 } else { 0u8 }))) ==> (
            encoded & 0x01 == boost_lim &&
            encoded & 0x0e == ((sys_min & 0x07) << 1) &&
            encoded & 0x10 == (if en_charge { 0x10u8 } else { 0u8 }) &&
            encoded & 0x20 == (if en_otg { 0x20u8 } else { 0u8 }) &&
            encoded & 0x40 == (if watchdog_reset { 0x40u8 } else { 0u8 }) &&
            encoded & 0x80 == (if register_reset { 0x80u8 } else { 0u8 }))) by (bit_vector);
    }

    /// Encoding a well-formed view and decoding the byte gives back the view,
    /// so the codec is a bijection between bytes and well-formed views.
    pub proof fn lemma_view_round_trip(self)
        requires
            self.wf(),
        ensures
            Self::decode(self.encode()) == self,
    {
        self.lemma_field_isolation();
        let encoded = self.encode();
        let boost_lim = self.boost_lim.code();
        self.boost_lim.lemma_variant_round_trip();
        let sys_min = self.sys_min;
        assert((boost_lim < 2 &&
            encoded & 0x01 == boost_lim &&
            sys_min < 8 &&
            encoded & 0x0e == ((sys_min & 0x07) << 1)) ==> (encoded & 0x01 == boost_lim &&
            (encoded >> 1) & 0x07 == sys_min)) by (bit_vector);
    }

}

impl From<u8> for PowerOnConfiguration {
    fn from(v: u8) -> Self {
        assert(v & 0x01 < 2) by (bit_vector);
        PowerOnConfiguration {
            boost_lim: BoostLim::from_bits(v & 0x01),
            sys_min: (v >> 1) & 0x07,
            en_charge: v & 0x10 != 0,
            en_otg: v & 0x20 != 0,
            watchdog_reset: v & 0x40 != 0,
            register_reset: v & 0x80 != 0,
        }
    }
}

impl vstd::std_specs::convert::FromSpecImpl<u8> for PowerOnConfiguration {
    open spec fn obeys_from_spec() -> bool {
        true
    }

    open spec fn from_spec(v: u8) -> Self {
        Self::decode(v)
    }
}

impl From<PowerOnConfiguration> for u8 {
    fn from(reg: PowerOnConfiguration) -> u8 {
        reg.boost_lim.bits() |
        ((reg.sys_min & 0x07) << 1) |
        (if reg.en_charge { 0x10u8 } else { 0u8 }) |
        (if reg.en_otg { 0x20u8 } else { 0u8 }) |
        (if reg.watchdog_reset { 0x40u8 } else { 0u8 }) |
        (if reg.register_reset { 0x80u8 } else { 0u8 })
    }
}

impl vstd::std_specs::convert::FromSpecImpl<PowerOnConfiguration> for u8 {
    open spec fn obeys_from_spec() -> bool {
        true
    }

    open spec fn from_spec(reg: PowerOnConfiguration) -> u8 {
        reg.encode()
    }
}

/// Charge Current Control Register REG02
pub const REG_CHARGE_CURRENT_CONTROL: u8 = 0x02;

/// Charge Current Control Register: the typed view of one byte, bit 0 first.
#[derive(Copy, Clone, Debug, PartialEq, Eq, Structural)]
pub struct ChargeCurrentControl {
    /// Bit 0: force 20% of the charge current.
    pub force_20pct: bool,
    /// Bit 1: boost mode cold temperature threshold.
    pub bcold: bool,
    /// Bits 2..6: fast charge current limit code.
    pub ichg: u8,
    /// Bit 7: reserved bit, kept as read.
    pub reserved: u8,
}

impl ChargeCurrentControl {
    /// Every integer field fits in its width.
    pub open spec fn wf(self) -> bool {
        self.ichg < 32 && self.reserved < 2
    }

    /// The typed view of a register byte.
    pub open spec fn decode(v: u8) -> Self {
        ChargeCurrentControl {
            force_20pct: v & 0x01 != 0,
            bcold: v & 0x02 != 0,
            ichg: (v >> 2) & 0x1f,
            reserved: (v >> 7) & 0x01,
        }
    }

    /// The register byte of a view; each field goes to its own bits, an
    /// integer field cut to its width.
    pub open spec fn encode(self) -> u8 {
        (if self.force_20pct { 0x01u8 } else { 0u8 }) |
        (if self.bcold { 0x02u8 } else { 0u8 }) |
        ((self.ichg & 0x1f) << 2) |
        ((self.reserved & 0x01) << 7)
    }

    /// Returns the force 20% of the charge current field.
    pub fn force_20pct(&self) -> (r: bool)
        ensures
            r == self.force_20pct,
    {
        self.force_20pct
    }

    /// Returns the boost mode cold temperature threshold field.
    pub fn bcold(&self) -> (r: bool)
        ensures
            r == self.bcold,
    {
        self.bcold
    }

    /// Returns the fast charge current limit code field.
    pub fn ichg(&self) -> (r: u8)
        ensures
            r == self.ichg,
    {
        self.ichg
    }

    /// Returns the reserved bit.
    pub fn reserved(&self) -> (r: u8)
        ensures
            r == self.reserved,
    {
        self.reserved
    }

    /// Sets the force 20% of the charge current field; the other fields keep their values.
    pub fn set_force_20pct(&mut self, value: bool)
        ensures
            *final(self) == (ChargeCurrentControl { force_20pct: value, ..*old(self) }),
    {
        self.force_20pct = value;
    }

    /// Sets the boost mode cold temperature threshold field; the other fields keep their values.
    pub fn set_bcold(&mut self, value: bool)
        ensures
            *final(self) == (ChargeCurrentControl { bcold: value, ..*old(self) }),
    {
        self.bcold = value;
    }

    /// Sets the fast charge current limit code field; the other fields keep their values.
    pub fn set_ichg(&mut self, value: u8)
        requires
            value < 32,
        ensures
            *final(self) == (ChargeCurrentControl { ichg: value, ..*old(self) }),
    {
        self.ichg = value;
    }

    /// Decoding a byte and encoding the view gives back the byte, reserved
    /// bits included; the decoded view is well formed.
    pub proof fn lemma_round_trip(v: u8)
        ensures
            Self::decode(v).wf(),
            Self::decode(v).encode() == v,
    {
        assert((v >> 2) & 0x1f < 32 &&
            (v >> 7) & 0x01 < 2) by (bit_vector);
        assert(((if v & 0x01 != 0 { 0x01u8 } else { 0u8 }) |
            (if v & 0x02 != 0 { 0x02u8 } else { 0u8 }) |
            ((((v >> 2) & 0x1f) & 0x1f) << 2) |
            ((((v >> 7) & 0x01) & 0x01) << 7)) == v) by (bit_vector);
    }

    /// Each field owns its bits: the bits of a field in the encoded byte
    /// depend on that field alone, so changing one field of a view changes
    /// no other field's bits of the byte.
    pub proof fn lemma_field_isolation(self)
        ensures
            self.encode() & 0x01 == (if self.force_20pct { 0x01u8 } else { 0u8 }),
            self.encode() & 0x02 == (if self.bcold { 0x02u8 } else { 0u8 }),
            self.encode() & 0x7c == ((self.ichg & 0x1f) << 2),
            self.encode() & 0x80 == ((self.reserved & 0x01) << 7),
    {
        let force_20pct = self.force_20pct;
        let bcold = self.bcold;
        let ichg = self.ichg;
        let reserved = self.reserved;
        let encoded = self.encode();
        assert((encoded == ((if force_20pct { 0x01u8 } else { 0u8 }) |
            (if bcold { 0x02u8 } else { 0u8 }) |
            ((ichg & 0x1f) << 2) |
            ((reserved & 0x01) << 7))) ==> (
            encoded & 0x01 == (if force_20pct { 0x01u8 } else { 0u8 }) &&
            encoded & 0x02 == (if bcold { 0x02u8 } else { 0u8 }) &&
            encoded & 0x7c == ((ichg & 0x1f) << 2) &&
            encoded & 0x80 == ((reserved & 0x01) << 7))) by (bit_vector);
    }

    /// Encoding a well-formed view and decoding the byte gives back the view,
    /// so the codec is a bijection between bytes and well-formed views.
    pub proof fn lemma_view_round_trip(self)
        requires
            self.wf(),
        ensures
            Self::decode(self.encode()) == self,
    {
        self.lemma_field_isolation();
        let encoded = self.encode();
        let ichg = self.ichg;
        let reserved = self.reserved;
        assert((ichg < 32 &&
            encoded & 0x7c == ((ichg & 0x1f) << 2) &&
            reserved < 2 &&
            encoded & 0x80 == ((reserved & 0x01) << 7)) ==> ((encoded >> 2) & 0x1f == ichg &&
            (encoded >> 7) & 0x01 == reserved)) by (bit_vector);
    }

}

impl From<u8> for ChargeCurrentControl {
    fn from(v: u8) -> Self {
        ChargeCurrentControl {
            force_20pct: v & 0x01 != 0,
            bcold: v & 0x02 != 0,
            ichg: (v >> 2) & 0x1f,
            reserved: (v >> 7) & 0x01,
        }
    }
}

impl vstd::std_specs::convert::FromSpecImpl<u8> for ChargeCurrentControl {
    open spec fn obeys_from_spec() -> bool {
        true
    }

    open spec fn from_spec(v: u8) -> Self {
        Self::decode(v)
    }
}

impl From<ChargeCurrentControl> for u8 {
    fn from(reg: ChargeCurrentControl) -> u8 {
        (if reg.force_20pct { 0x01u8 } else { 0u8 }) |
        (if reg.bcold { 0x02u8 } else { 0u8 }) |
        ((reg.ichg & 0x1f) << 2) |
        ((reg.reserved & 0x01) << 7)
    }
}

impl vstd::std_specs::convert::FromSpecImpl<ChargeCurrentControl> for u8 {
    open spec fn obeys_from_spec() -> bool {
        true
    }

    open spec fn from_spec(reg: ChargeCurrentControl) -> u8 {
        reg.encode()
    }
}

/// Pre-Charge/Termination Current Control Register REG03
pub const REG_PCT_CURRENT_CONTROL: u8 = 0x03;

/// Charge Voltage Control Register REG04
pub const REG_CHARGE_VOLTAGE_CONTROL: u8 = 0x04;

/// Charge Termination/Timer Control Register REG05
pub const REG_TERM_TIMER_CONTROL: u8 = 0x05;

/// Fast charge safety timer setting, a 2-bit field.
#[derive(Copy, Clone, Debug, PartialEq, Eq, Structural, PartialOrd, Ord)]
pub enum ChgTimer {
    FiveHours,
    EightHours,
    TwelveHours,
    TwentyHours,
}

impl ChgTimer {
    /// The bit pattern of each variant.
    pub open spec fn code(self) -> u8 {
        match self {
            ChgTimer::FiveHours => 0,
            ChgTimer::EightHours => 1,
            ChgTimer::TwelveHours => 2,
            ChgTimer::TwentyHours => 3,
        }
    }

    /// The variant of a bit pattern below 4.
    pub open spec fn of_code(bits: u8) -> Self {
        if bits == 0 {
            ChgTimer::FiveHours
        } else if bits == 1 {
            ChgTimer::EightHours
        } else if bits == 2 {
            ChgTimer::TwelveHours
        } else {
            ChgTimer::TwentyHours
        }
    }

    /// Decodes a 2-bit pattern; every pattern names a variant.
    pub fn from_bits(bits: u8) -> (r: Self)
        requires
            bits < 4,
        ensures
            r == Self::of_code(bits),
            r.code() == bits,
    {
        if bits == 0 {
            ChgTimer::FiveHours
        } else if bits == 1 {
            ChgTimer::EightHours
        } else if bits == 2 {
            ChgTimer::TwelveHours
        } else {
            ChgTimer::TwentyHours
        }
    }

    /// Encodes the variant as its bit pattern.
    pub fn bits(self) -> (r: u8)
        ensures
            r == self.code(),
    {
        match self {
            ChgTimer::FiveHours => 0,
            ChgTimer::EightHours => 1,
            ChgTimer::TwelveHours => 2,
            ChgTimer::TwentyHours => 3,
        }
    }

    /// Every bit pattern of the field names a variant, and encoding that
    /// variant gives the pattern back, so distinct patterns name distinct variants.
    pub proof fn lemma_code_round_trip(bits: u8)
        requires
            bits < 4,
        ensures
            Self::of_code(bits).code() == bits,
    {
    }

    /// Each variant has a pattern within the field's width, which decodes to it.
    pub proof fn lemma_variant_round_trip(self)
        ensures
            self.code() < 4,
            Self::of_code(self.code()) == self,
    {
    }
}

/// I2C watchdog timer setting, a 2-bit field.
#[derive(Copy, Clone, Debug, PartialEq, Eq, Structural, PartialOrd, Ord)]
pub enum Watchdog {
    Disabled,
    Sec40,
    Sec80,
    Sec160,
}

impl Watchdog {
    /// The bit pattern of each variant.
    pub open spec fn code(self) -> u8 {
        match self {
            Watchdog::Disabled => 0,
            Watchdog::Sec40 => 1,
            Watchdog::Sec80 => 2,
            Watchdog::Sec160 => 3,
        }
    }

    /// The variant of a bit pattern below 4.
    pub open spec fn of_code(bits: u8) -> Self {
        if bits == 0 {
            Watchdog::Disabled
        } else if bits == 1 {
            Watchdog::Sec40
        } else if bits == 2 {
            Watchdog::Sec80
        } else {
            Watchdog::Sec160
        }
    }

    /// Decodes a 2-bit pattern; every pattern names a variant.
    pub fn from_bits(bits: u8) -> (r: Self)
        requires
            bits < 4,
        ensures
            r == Self::of_code(bits),
            r.code() == bits,
    {
        if bits == 0 {
            Watchdog::Disabled
        } else if bits == 1 {
            Watchdog::Sec40
        } else if bits == 2 {
            Watchdog::Sec80
        } else {
            Watchdog::Sec160
        }
    }

    /// Encodes the variant as its bit pattern.
    pub fn bits(self) -> (r: u8)
        ensures
            r == self.code(),
    {
        match self {
            Watchdog::Disabled => 0,
            Watchdog::Sec40 => 1,
            Watchdog::Sec80 => 2,
            Watchdog::Sec160 => 3,
        }
    }

    /// Every bit pattern of the field names a variant, and encoding that
    /// variant gives the pattern back, so distinct patterns name distinct variants.
    pub proof fn lemma_code_round_trip(bits: u8)
        requires
            bits < 4,
        ensures
            Self::of_code(bits).code() == bits,
    {
    }

    /// Each variant has a pattern within the field's width, which decodes to it.
    pub proof fn lemma_variant_round_trip(self)
        ensures
            self.code() < 4,
            Self::of_code(self.code()) == self,
    {
    }
}

/// Charge Termination/Timer Control Register: the typed view of one byte, bit 0 first.
#[derive(Copy, Clone, Debug, PartialEq, Eq, Structural)]
pub struct ChargeTerminationTimerControl {
    /// Bit 0: reserved bit, kept as read.
    pub reserved_0: u8,
    /// Bits 1..2: fast charge timer setting.
    pub charge_timer: ChgTimer,
    /// Bit 3: safety timer enable.
    pub en_timer: bool,
    /// Bits 4..5: watchdog timer setting.
    pub watchdog: Watchdog,
    /// Bit 6: reserved bit, kept as read.
    pub reserved_6: u8,
    /// Bit 7: charge termination enable.
    pub en_term: bool,
}

impl ChargeTerminationTimerControl {
    /// Every integer field fits in its width.
    pub open spec fn wf(self) -> bool {
        self.reserved_0 < 2 && self.reserved_6 < 2
    }

    /// The typed view of a register byte.
    pub open spec fn decode(v: u8) -> Self {
        ChargeTerminationTimerControl {
            reserved_0: v & 0x01,
            charge_timer: ChgTimer::of_code((v >> 1) & 0x03),
            en_timer: v & 0x08 != 0,
            watchdog: Watchdog::of_code((v >> 4) & 0x03),
            reserved_6: (v >> 6) & 0x01,
            en_term: v & 0x80 != 0,
        }
    }

    /// The register byte of a view; each field goes to its own bits, an
    /// integer field cut to its width.
    pub open spec fn encode(self) -> u8 {
        (self.reserved_0 & 0x01) |
        (self.charge_timer.code() << 1) |
        (if self.en_timer { 0x08u8 } else { 0u8 }) |
        (self.watchdog.code() << 4) |
        ((self.reserved_6 & 0x01) << 6) |
        (if self.en_term { 0x80u8 } else { 0u8 })
    }

    /// Returns the reserved bit.
    pub fn reserved_0(&self) -> (r: u8)
        ensures
            r == self.reserved_0,
    {
        self.reserved_0
    }

    /// Returns the fast charge timer setting field.
    pub fn charge_timer(&self) -> (r: ChgTimer)
        ensures
            r == self.charge_timer,
    {
        self.charge_timer
    }

    /// Returns the safety timer enable field.
    pub fn en_timer(&self) -> (r: bool)
        ensures
            r == self.en_timer,
    {
        self.en_timer
    }

    /// Returns the watchdog timer setting field.
    pub fn watchdog(&self) -> (r: Watchdog)
        ensures
            r == self.watchdog,
    {
        self.watchdog
    }

    /// Returns the reserved bit.
    pub fn reserved_6(&self) -> (r: u8)
        ensures
            r == self.reserved_6,
    {
        self.reserved_6
    }

    /// Returns the charge termination enable field.
    pub fn en_term(&self) -> (r: bool)
        ensures
            r == self.en_term,
    {
        self.en_term
    }

    /// Sets the fast charge timer setting field; the other fields keep their values.
    pub fn set_charge_timer(&mut self, value: ChgTimer)
        ensures
            *final(self) == (ChargeTerminationTimerControl { charge_timer: value, ..*old(self) }),
    {
        self.charge_timer = value;
    }

    /// Sets the safety timer enable field; the other fields keep their values.
    pub fn set_en_timer(&mut self, value: bool)
        ensures
            *final(self) == (ChargeTerminationTimerControl { en_timer: value, ..*old(self) }),
    {
        self.en_timer = value;
    }

    /// Sets the watchdog timer setting field; the other fields keep their values.
    pub fn set_watchdog(&mut self, value: Watchdog)
        ensures
            *final(self) == (ChargeTerminationTimerControl { watchdog: value, ..*old(self) }),
    {
        self.watchdog = value;
    }

    /// Sets the charge termination enable field; the other fields keep their values.
    pub fn set_en_term(&mut self, value: bool)
        ensures
            *final(self) == (ChargeTerminationTimerControl { en_term: value, ..*old(self) }),
    {
        self.en_term = value;
    }

    /// Decoding a byte and encoding the view gives back the byte, reserved
    /// bits included; the decoded view is well formed.
    pub proof fn lemma_round_trip(v: u8)
        ensures
            Self::decode(v).wf(),
            Self::decode(v).encode() == v,
    {
        assert(v & 0x01 < 2 &&
            (v >> 1) & 0x03 < 4 &&
            (v >> 4) & 0x03 < 4 &&
            (v >> 6) & 0x01 < 2) by (bit_vector);
        ChgTimer::lemma_code_round_trip((v >> 1) & 0x03);
        Watchdog::lemma_code_round_trip((v >> 4) & 0x03);
        assert((((v & 0x01) & 0x01) |
            (((v >> 1) & 0x03) << 1) |
            (if v & 0x08 != 0 { 0x08u8 } else { 0u8 }) |
            (((v >> 4) & 0x03) << 4) |
            ((((v >> 6) & 0x01) & 0x01) << 6) |
            (if v & 0x80 != 0 { 0x80u8 } else { 0u8 })) == v) by (bit_vector);
    }

    /// Each field owns its bits: the bits of a field in the encoded byte
    /// depend on that field alone, so changing one field of a view changes
    /// no other field's bits of the byte.
    pub proof fn lemma_field_isolation(self)
        ensures
            self.encode() & 0x01 == (self.reserved_0 & 0x01),
            self.encode() & 0x06 == (self.charge_timer.code() << 1),
            self.encode() & 0x08 == (if self.en_timer { 0x08u8 } else { 0u8 }),
            self.encode() & 0x30 == (self.watchdog.code() << 4),
            self.encode() & 0x40 == ((self.reserved_6 & 0x01) << 6),
            self.encode() & 0x80 == (if self.en_term { 0x80u8 } else { 0u8 }),
    {
        let reserved_0 = self.reserved_0;
        let charge_timer = self.charge_timer.code();
        self.charge_timer.lemma_variant_round_trip();
        let en_timer = self.en_timer;
        let watchdog = self.watchdog.code();
        self.watchdog.lemma_variant_round_trip();
        let reserved_6 = self.reserved_6;
        let en_term = self.en_term;
        let encoded = self.encode();
        assert((charge_timer < 4 && watchdog < 4 && encoded == ((reserved_0 & 0x01) |
            (charge_timer << 1) |
            (if en_timer { 0x08u8 } else { 0u8 }) |
            (watchdog << 4) |
            ((reserved_6 & 0x01) << 6) |
            (if en_term { 0x80u8 } else { 0u8 }))) ==> (
            encoded & 0x01 == (reserved_0 & 0x01) &&
            encoded & 0x06 == (charge_timer << 1) &&
            encoded & 0x08 == (if en_timer { 0x08u8 } else { 0u8 }) &&
            encoded & 0x30 == (watchdog << 4) &&
            encoded & 0x40 == ((reserved_6 & 0x01) << 6) &&
            encoded & 0x80 == (if en_term { 0x80u8 } else { 0u8 }))) by (bit_vector);
    }

    /// Encoding a well-formed view and decoding the byte gives back the view,
    /// so the codec is a bijection between bytes and well-formed views.
    pub proof fn lemma_view_round_trip(self)
        requires
            self.wf(),
        ensures
            Self::decode(self.encode()) == self,
    {
        self.lemma_field_isolation();
        let encoded = self.encode();
        let reserved_0 = self.reserved_0;
        let charge_timer = self.charge_timer.code();
        self.charge_timer.lemma_variant_round_trip();
        let watchdog = self.watchdog.code();
        self.watchdog.lemma_variant_round_trip();
        let reserved_6 = self.reserved_6;
        assert((reserved_0 < 2 &&
            encoded & 0x01 == (reserved_0 & 0x01) &&
            charge_timer < 4 &&
            encoded & 0x06 == (charge_timer << 1) &&
            watchdog < 4 &&
            encoded & 0x30 == (watchdog << 4) &&
            reserved_6 < 2 &&
            encoded & 0x40 == ((reserved_6 & 0x01) << 6)) ==> (encoded & 0x01 == reserved_0 &&
            (encoded >> 1) & 0x03 == charge_timer &&
            (encoded >> 4) & 0x03 == watchdog &&
            (encoded >> 6) & 0x01 == reserved_6)) by (bit_vector);
    }

}

impl From<u8> for ChargeTerminationTimerControl {
    fn from(v: u8) -> Self {
        assert((v >> 1) & 0x03 < 4 && (v >> 4) & 0x03 < 4) by (bit_vector);
        ChargeTerminationTimerControl {
            reserved_0: v & 0x01,
            charge_timer: ChgTimer::from_bits((v >> 1) & 0x03),
            en_timer: v & 0x08 != 0,
            watchdog: Watchdog::from_bits((v >> 4) & 0x03),
            reserved_6: (v >> 6) & 0x01,
            en_term: v & 0x80 != 0,
        }
    }
}

impl vstd::std_specs::convert::FromSpecImpl<u8> for ChargeTerminationTimerControl {
    open spec fn obeys_from_spec() -> bool {
        true
    }

    open spec fn from_spec(v: u8) -> Self {
        Self::decode(v)
    }
}

impl From<ChargeTerminationTimerControl> for u8 {
    fn from(reg: ChargeTerminationTimerControl) -> u8 {
        (reg.reserved_0 & 0x01) |
        (reg.charge_timer.bits() << 1) |
        (if reg.en_timer { 0x08u8 } else { 0u8 }) |
        (reg.watchdog.bits() << 4) |
        ((reg.reserved_6 & 0x01) << 6) |
        (if reg.en_term { 0x80u8 } else { 0u8 })
    }
}

impl vstd::std_specs::convert::FromSpecImpl<ChargeTerminationTimerControl> for u8 {
    open spec fn obeys_from_spec() -> bool {
        true
    }

    open spec fn from_spec(reg: ChargeTerminationTimerControl) -> u8 {
        reg.encode()
    }
}

/// Boost Voltage/Thermal Regulation Control Register REG06
pub const REG_BOOST_TEMP_CONTROL: u8 = 0x06;

/// Misc Operation Control Register REG07
pub const REG_MISC_OPERATION_CONTROL: u8 = 0x07;

/// System Status Register REG08
pub const REG_SYSTEM_STATUS: u8 = 0x08;

/// Input source status, a 2-bit field.
#[derive(Copy, Clone, Debug, PartialEq, Eq, Structural, PartialOrd, Ord)]
pub enum Vbus {
    Unknown,
    UsbHost,
    AdapterPort,
    Otg,
}

impl Vbus {
    /// The bit pattern of each variant.
    pub open spec fn code(self) -> u8 {
        match self {
            Vbus::Unknown => 0,
            Vbus::UsbHost => 1,
            Vbus::AdapterPort => 2,
            Vbus::Otg => 3,
        }
    }

    /// The variant of a bit pattern below 4.
    pub open spec fn of_code(bits: u8) -> Self {
        if bits == 0 {
            Vbus::Unknown
        } else if bits == 1 {
            Vbus::UsbHost
        } else if bits == 2 {
            Vbus::AdapterPort
        } else {
            Vbus::Otg
        }
    }

    /// Decodes a 2-bit pattern; every pattern names a variant.
    pub fn from_bits(bits: u8) -> (r: Self)
        requires
            bits < 4,
        ensures
            r == Self::of_code(bits),
            r.code() == bits,
    {
        if bits == 0 {
            Vbus::Unknown
        } else if bits == 1 {
            Vbus::UsbHost
        } else if bits == 2 {
            Vbus::AdapterPort
        } else {
            Vbus::Otg
        }
    }

    /// Encodes the variant as its bit pattern.
    pub fn bits(self) -> (r: u8)
        ensures
            r == self.code(),
    {
        match self {
            Vbus::Unknown => 0,
            Vbus::UsbHost => 1,
            Vbus::AdapterPort => 2,
            Vbus::Otg => 3,
        }
    }

    /// Every bit pattern of the field names a variant, and encoding that
    /// variant gives the pattern back, so distinct patterns name distinct variants.
    pub proof fn lemma_code_round_trip(bits: u8)
        requires
            bits < 4,
        ensures
            Self::of_code(bits).code() == bits,
    {
    }

    /// Each variant has a pattern within the field's width, which decodes to it.
    pub proof fn lemma_variant_round_trip(self)
        ensures
            self.code() < 4,
            Self::of_code(self.code()) == self,
    {
    }
}

/// Charging status, a 2-bit field.
#[derive(Copy, Clone, Debug, PartialEq, Eq, Structural, PartialOrd, Ord)]
pub enum Chrg {
    NotCharging,
    PreCharge,
    FastCharging,
    ChargeTermination,
}

impl Chrg {
    /// The bit pattern of each variant.
    pub open spec fn code(self) -> u8 {
        match self {
            Chrg::NotCharging => 0,
            Chrg::PreCharge => 1,
            Chrg::FastCharging => 2,
            Chrg::ChargeTermination => 3,
        }
    }

    /// The variant of a bit pattern below 4.
    pub open spec fn of_code(bits: u8) -> Self {
        if bits == 0 {
            Chrg::NotCharging
        } else if bits == 1 {
            Chrg::PreCharge
        } else if bits == 2 {
            Chrg::FastCharging
        } else {
            Chrg::ChargeTermination
        }
    }

    /// Decodes a 2-bit pattern; every pattern names a variant.
    pub fn from_bits(bits: u8) -> (r: Self)
        requires
            bits < 4,
        ensures
            r == Self::of_code(bits),
            r.code() == bits,
    {
        if bits == 0 {
            Chrg::NotCharging
        } else if bits == 1 {
            Chrg::PreCharge
        } else if bits == 2 {
            Chrg::FastCharging
        } else {
            Chrg::ChargeTermination
        }
    }

    /// Encodes the variant as its bit pattern.
    pub fn bits(self) -> (r: u8)
        ensures
            r == self.code(),
    {
        match self {
            Chrg::NotCharging => 0,
            Chrg::PreCharge => 1,
            Chrg::FastCharging => 2,
            Chrg::ChargeTermination => 3,
        }
    }

    /// Every bit pattern of the field names a variant, and encoding that
    /// variant gives the pattern back, so distinct patterns name distinct variants.
    pub proof fn lemma_code_round_trip(bits: u8)
        requires
            bits < 4,
        ensures
            Self::of_code(bits).code() == bits,
    {
    }

    /// Each variant has a pattern within the field's width, which decodes to it.
    pub proof fn lemma_variant_round_trip(self)
        ensures
            self.code() < 4,
            Self::of_code(self.code()) == self,
    {
    }
}

/// System Status Register: the typed view of one byte, bit 0 first.
#[derive(Copy, Clone, Debug, PartialEq, Eq, Structural)]
pub struct SystemStatus {
    /// Bit 0: in minimum system voltage regulation.
    pub vsys: bool,
    /// Bit 1: in thermal regulation.
    pub therm: bool,
    /// Bit 2: power good.
    pub pg: bool,
    /// Bit 3: in dynamic power management.
    pub dpm: bool,
    /// Bits 4..5: charging status.
    pub chrg: Chrg,
    /// Bits 6..7: input source status.
    pub vbus: Vbus,
}

impl SystemStatus {
    /// There is no integer field, so every view is well formed.
    pub open spec fn wf(self) -> bool {
        true
    }

    /// The typed view of a register byte.
    pub open spec fn decode(v: u8) -> Self {
        SystemStatus {
            vsys: v & 0x01 != 0,
            therm: v & 0x02 != 0,
            pg: v & 0x04 != 0,
            dpm: v & 0x08 != 0,
            chrg: Chrg::of_code((v >> 4) & 0x03),
            vbus: Vbus::of_code((v >> 6) & 0x03),
        }
    }

    /// The register byte of a view; each field goes to its own bits, an
    /// integer field cut to its width.
    pub open spec fn encode(self) -> u8 {
        (if self.vsys { 0x01u8 } else { 0u8 }) |
        (if self.therm { 0x02u8 } else { 0u8 }) |
        (if self.pg { 0x04u8 } else { 0u8 }) |
        (if self.dpm { 0x08u8 } else { 0u8 }) |
        (self.chrg.code() << 4) |
        (self.vbus.code() << 6)
    }

    /// Returns the in minimum system voltage regulation field.
    pub fn vsys(&self) -> (r: bool)
        ensures
            r == self.vsys,
    {
        self.vsys
    }

    /// Returns the in thermal regulation field.
    pub fn therm(&self) -> (r: bool)
        ensures
            r == self.therm,
    {
        self.therm
    }

    /// Returns the power good field.
    pub fn pg(&self) -> (r: bool)
        ensures
            r == self.pg,
    {
        self.pg
    }

    /// Returns the in dynamic power management field.
    pub fn dpm(&self) -> (r: bool)
        ensures
            r == self.dpm,
    {
        self.dpm
    }

    /// Returns the charging status field.
    pub fn chrg(&self) -> (r: Chrg)
        ensures
            r == self.chrg,
    {
        self.chrg
    }

    /// Returns the input source status field.
    pub fn vbus(&self) -> (r: Vbus)
        ensures
            r == self.vbus,
    {
        self.vbus
    }

    /// Decoding a byte and encoding the view gives back the byte, reserved
    /// bits included; the decoded view is well formed.
    pub proof fn lemma_round_trip(v: u8)
        ensures
            Self::decode(v).wf(),
            Self::decode(v).encode() == v,
    {
        assert((v >> 4) & 0x03 < 4 &&
            (v >> 6) & 0x03 < 4) by (bit_vector);
        Chrg::lemma_code_round_trip((v >> 4) & 0x03);
        Vbus::lemma_code_round_trip((v >> 6) & 0x03);
        assert(((if v & 0x01 != 0 { 0x01u8 } else { 0u8 }) |
            (if v & 0x02 != 0 { 0x02u8 } else { 0u8 }) |
            (if v & 0x04 != 0 { 0x04u8 } else { 0u8 }) |
            (if v & 0x08 != 0 { 0x08u8 } else { 0u8 }) |
            (((v >> 4) & 0x03) << 4) |
            (((v >> 6) & 0x03) << 6)) == v) by (bit_vector);
    }

    /// Each field owns its bits: the bits of a field in the encoded byte
    /// depend on that field alone, so changing one field of a view changes
    /// no other field's bits of the byte.
    pub proof fn lemma_field_isolation(self)
        ensures
            self.encode() & 0x01 == (if self.vsys { 0x01u8 } else { 0u8 }),
            self.encode() & 0x02 == (if self.therm { 0x02u8 } else { 0u8 }),
            self.encode() & 0x04 == (if self.pg { 0x04u8 } else { 0u8 }),
            self.encode() & 0x08 == (if self.dpm { 0x08u8 } else { 0u8 }),
            self.encode() & 0x30 == (self.chrg.code() << 4),
            self.encode() & 0xc0 == (self.vbus.code() << 6),
    {
        let vsys = self.vsys;
        let therm = self.therm;
        let pg = self.pg;
        let dpm = self.dpm;
        let chrg = self.chrg.code();
        self.chrg.lemma_variant_round_trip();
        let vbus = self.vbus.code();
        self.vbus.lemma_variant_round_trip();
        let encoded = self.encode();
        assert((chrg < 4 && vbus < 4 && encoded == ((if vsys { 0x01u8 } else { 0u8 }) |
            (if therm { 0x02u8 } else { 0u8 }) |
            (if pg { 0x04u8 } else { 0u8 }) |
            (if dpm { 0x08u8 } else { 0u8 }) |
            (chrg << 4) |
            (vbus << 6))) ==> (
            encoded & 0x01 == (if vsys { 0x01u8 } else { 0u8 }) &&
            encoded & 0x02 == (if therm { 0x02u8 } else { 0u8 }) &&
            encoded & 0x04 == (if pg { 0x04u8 } else { 0u8 }) &&
            encoded & 0x08 == (if dpm { 0x08u8 } else { 0u8 }) &&
            encoded & 0x30 == (chrg << 4) &&
            encoded & 0xc0 == (vbus << 6))) by (bit_vector);
    }

    /// Encoding a well-formed view and decoding the byte gives back the view,
    /// so the codec is a bijection between bytes and well-formed views.
    pub proof fn lemma_view_round_trip(self)
        requires
            self.wf(),
        ensures
            Self::decode(self.encode()) == self,
    {
        self.lemma_field_isolation();
        let encoded = self.encode();
        let chrg = self.chrg.code();
        self.chrg.lemma_variant_round_trip();
        let vbus = self.vbus.code();
        self.vbus.lemma_variant_round_trip();
        assert((chrg < 4 &&
            encoded & 0x30 == (chrg << 4) &&
            vbus < 4 &&
            encoded & 0xc0 == (vbus << 6)) ==> ((encoded >> 4) & 0x03 == chrg &&
            (encoded >> 6) & 0x03 == vbus)) by (bit_vector);
    }

}

impl From<u8> for SystemStatus {
    fn from(v: u8) -> Self {
        assert((v >> 4) & 0x03 < 4 && (v >> 6) & 0x03 < 4) by (bit_vector);
        SystemStatus {
            vsys: v & 0x01 != 0,
            therm: v & 0x02 != 0,
            pg: v & 0x04 != 0,
            dpm: v & 0x08 != 0,
            chrg: Chrg::from_bits((v >> 4) & 0x03),
            vbus: Vbus::from_bits((v >> 6) & 0x03),
        }
    }
}

impl vstd::std_specs::convert::FromSpecImpl<u8> for SystemStatus {
    open spec fn obeys_from_spec() -> bool {
        true
    }

    open spec fn from_spec(v: u8) -> Self {
        Self::decode(v)
    }
}

impl From<SystemStatus> for u8 {
    fn from(reg: SystemStatus) -> u8 {
        (if reg.vsys { 0x01u8 } else { 0u8 }) |
        (if reg.therm { 0x02u8 } else { 0u8 }) |
        (if reg.pg { 0x04u8 } else { 0u8 }) |
        (if reg.dpm { 0x08u8 } else { 0u8 }) |
        (reg.chrg.bits() << 4) |
        (reg.vbus.bits() << 6)
    }
}

impl vstd::std_specs::convert::FromSpecImpl<SystemStatus> for u8 {
    open spec fn obeys_from_spec() -> bool {
        true
    }

    open spec fn from_spec(reg: SystemStatus) -> u8 {
        reg.encode()
    }
}

/// New Fault Register REG09
pub const REG_NEW_FAULT: u8 = 0x09;

/// Charge fault status, a 2-bit field.
#[derive(Copy, Clone, Debug, PartialEq, Eq, Structural, PartialOrd, Ord)]
pub enum ChrgFault {
    Normal,
    /// OVP or bad source
    InputFault,
    ThermalShutdown,
    ChargeTimerExpiration,
}

impl ChrgFault {
    /// The bit pattern of each variant.
    pub open spec fn code(self) -> u8 {
        match self {
            ChrgFault::Normal => 0,
            ChrgFault::InputFault => 1,
            ChrgFault::ThermalShutdown => 2,
            ChrgFault::ChargeTimerExpiration => 3,
        }
    }

    /// The variant of a bit pattern below 4.
    pub open spec fn of_code(bits: u8) -> Self {
        if bits == 0 {
            ChrgFault::Normal
        } else if bits == 1 {
            ChrgFault::InputFault
        } else if bits == 2 {
            ChrgFault::ThermalShutdown
        } else {
            ChrgFault::ChargeTimerExpiration
        }
    }

    /// Decodes a 2-bit pattern; every pattern names a variant.
    pub fn from_bits(bits: u8) -> (r: Self)
        requires
            bits < 4,
        ensures
            r == Self::of_code(bits),
            r.code() == bits,
    {
        if bits == 0 {
            ChrgFault::Normal
        } else if bits == 1 {
            ChrgFault::InputFault
        } else if bits == 2 {
            ChrgFault::ThermalShutdown
        } else {
            ChrgFault::ChargeTimerExpiration
        }
    }

    /// Encodes the variant as its bit pattern.
    pub fn bits(self) -> (r: u8)
        ensures
            r == self.code(),
    {
        match self {
            ChrgFault::Normal => 0,
            ChrgFault::InputFault => 1,
            ChrgFault::ThermalShutdown => 2,
            ChrgFault::ChargeTimerExpiration => 3,
        }
    }

    /// Every bit pattern of the field names a variant, and encoding that
    /// variant gives the pattern back, so distinct patterns name distinct variants.
    pub proof fn lemma_code_round_trip(bits: u8)
        requires
            bits < 4,
        ensures
            Self::of_code(bits).code() == bits,
    {
    }

    /// Each variant has a pattern within the field's width, which decodes to it.
    pub proof fn lemma_variant_round_trip(self)
        ensures
            self.code() < 4,
            Self::of_code(self.code()) == self,
    {
    }
}

/// New Fault Register: the typed view of one byte, bit 0 first.
#[derive(Copy, Clone, Debug, PartialEq, Eq, Structural)]
pub struct NewFault {
    /// Bit 0: NTC hot fault.
    pub ntc_hot: bool,
    /// Bit 1: NTC cold fault.
    pub ntc_cold: bool,
    /// Bit 2: reserved bit, kept as read.
    pub reserved: u8,
    /// Bit 3: battery over-voltage fault.
    pub bat_fault: bool,
    /// Bits 4..5: charge fault status.
    pub chrg_fault: ChrgFault,
    /// Bit 6: OTG fault.
    pub otg_fault: bool,
    /// Bit 7: watchdog timer expired.
    pub watchdog_expired: bool,
}

impl NewFault {
    /// Every integer field fits in its width.
    pub open spec fn wf(self) -> bool {
        self.reserved < 2
    }

    /// The typed view of a register byte.
    pub open spec fn decode(v: u8) -> Self {
        NewFault {
            ntc_hot: v & 0x01 != 0,
            ntc_cold: v & 0x02 != 0,
            reserved: (v >> 2) & 0x01,
            bat_fault: v & 0x08 != 0,
            chrg_fault: ChrgFault::of_code((v >> 4) & 0x03),
            otg_fault: v & 0x40 != 0,
            watchdog_expired: v & 0x80 != 0,
        }
    }

    /// The register byte of a view; each field goes to its own bits, an
    /// integer field cut to its width.
    pub open spec fn encode(self) -> u8 {
        (if self.ntc_hot { 0x01u8 } else { 0u8 }) |
        (if self.ntc_cold { 0x02u8 } else { 0u8 }) |
        ((self.reserved & 0x01) << 2) |
        (if self.bat_fault { 0x08u8 } else { 0u8 }) |
        (self.chrg_fault.code() << 4) |
        (if self.otg_fault { 0x40u8 } else { 0u8 }) |
        (if self.watchdog_expired { 0x80u8 } else { 0u8 })
    }

    /// Returns the NTC hot fault field.
    pub fn ntc_hot(&self) -> (r: bool)
        ensures
            r == self.ntc_hot,
    {
        self.ntc_hot
    }

    /// Returns the NTC cold fault field.
    pub fn ntc_cold(&self) -> (r: bool)
        ensures
            r == self.ntc_cold,
    {
        self.ntc_cold
    }

    /// Returns the reserved bit.
    pub fn reserved(&self) -> (r: u8)
        ensures
            r == self.reserved,
    {
        self.reserved
    }

    /// Returns the battery over-voltage fault field.
    pub fn bat_fault(&self) -> (r: bool)
        ensures
            r == self.bat_fault,
    {
        self.bat_fault
    }

    /// Returns the charge fault status field.
    pub fn chrg_fault(&self) -> (r: ChrgFault)
        ensures
            r == self.chrg_fault,
    {
        self.chrg_fault
    }

    /// Returns the OTG fault field.
    pub fn otg_fault(&self) -> (r: bool)
        ensures
            r == self.otg_fault,
    {
        self.otg_fault
    }

    /// Returns the watchdog timer expired field.
    pub fn watchdog_expired(&self) -> (r: bool)
        ensures
            r == self.watchdog_expired,
    {
        self.watchdog_expired
    }

    /// Decoding a byte and encoding the view gives back the byte, reserved
    /// bits included; the decoded view is well formed.
    pub proof fn lemma_round_trip(v: u8)
        ensures
            Self::decode(v).wf(),
            Self::decode(v).encode() == v,
    {
        assert((v >> 2) & 0x01 < 2 &&
            (v >> 4) & 0x03 < 4) by (bit_vector);
        ChrgFault::lemma_code_round_trip((v >> 4) & 0x03);
        assert(((if v & 0x01 != 0 { 0x01u8 } else { 0u8 }) |
            (if v & 0x02 != 0 { 0x02u8 } else { 0u8 }) |
            ((((v >> 2) & 0x01) & 0x01) << 2) |
            (if v & 0x08 != 0 { 0x08u8 } else { 0u8 }) |
            (((v >> 4) & 0x03) << 4) |
            (if v & 0x40 != 0 { 0x40u8 } else { 0u8 }) |
            (if v & 0x80 != 0 { 0x80u8 } else { 0u8 })) == v) by (bit_vector);
    }

    /// Each field owns its bits: the bits of a field in the encoded byte
    /// depend on that field alone, so changing one field of a view changes
    /// no other field's bits of the byte.
    pub proof fn lemma_field_isolation(self)
        ensures
            self.encode() & 0x01 == (if self.ntc_hot { 0x01u8 } else { 0u8 }),
            self.encode() & 0x02 == (if self.ntc_cold { 0x02u8 } else { 0u8 }),
            self.encode() & 0x04 == ((self.reserved & 0x01) << 2),
            self.encode() & 0x08 == (if self.bat_fault { 0x08u8 } else { 0u8 }),
            self.encode() & 0x30 == (self.chrg_fault.code() << 4),
            self.encode() & 0x40 == (if self.otg_fault { 0x40u8 } else { 0u8 }),
            self.encode() & 0x80 == (if self.watchdog_expired { 0x80u8 } else { 0u8 }),
    {
        let ntc_hot = self.ntc_hot;
        let ntc_cold = self.ntc_cold;
        let reserved = self.reserved;
        let bat_fault = self.bat_fault;
        let chrg_fault = self.chrg_fault.code();
        self.chrg_fault.lemma_variant_round_trip();
        let otg_fault = self.otg_fault;
        let watchdog_expired = self.watchdog_expired;
        let encoded = self.encode();
        assert((chrg_fault < 4 && encoded == ((if ntc_hot { 0x01u8 } else { 0u8 }) |
            (if ntc_cold { 0x02u8 } else { 0u8 }) |
            ((reserved & 0x01) << 2) |
            (if bat_fault { 0x08u8 } else { 0u8 }) |
            (chrg_fault << 4) |
            (if otg_fault { 0x40u8 } else { 0u8 }) |
            (if watchdog_expired { 0x80u8 } else { 0u8 }))) ==> (
            encoded & 0x01 == (if ntc_hot { 0x01u8 } else { 0u8 }) &&
            encoded & 0x02 == (if ntc_cold { 0x02u8 } else { 0u8 }) &&
            encoded & 0x04 == ((reserved & 0x01) << 2) &&
            encoded & 0x08 == (if bat_fault { 0x08u8 } else { 0u8 }) &&
            encoded & 0x30 == (chrg_fault << 4) &&
            encoded & 0x40 == (if otg_fault { 0x40u8 } else { 0u8 }) &&
            encoded & 0x80 == (if watchdog_expired { 0x80u8 } else { 0u8 }))) by (bit_vector);
    }

    /// Encoding a well-formed view and decoding the byte gives back the view,
    /// so the codec is a bijection between bytes and well-formed views.
    pub proof fn lemma_view_round_trip(self)
        requires
            self.wf(),
        ensures
            Self::decode(self.encode()) == self,
    {
        self.lemma_field_isolation();
        let encoded = self.encode();
        let reserved = self.reserved;
        let chrg_fault = self.chrg_fault.code();
        self.chrg_fault.lemma_variant_round_trip();
        assert((reserved < 2 &&
            encoded & 0x04 == ((reserved & 0x01) << 2) &&
            chrg_fault < 4 &&
            encoded & 0x30 == (chrg_fault << 4)) ==> ((encoded >> 2) & 0x01 == reserved &&
            (encoded >> 4) & 0x03 == chrg_fault)) by (bit_vector);
    }

}

impl From<u8> for NewFault {
    fn from(v: u8) -> Self {
        assert((v >> 4) & 0x03 < 4) by (bit_vector);
        NewFault {
            ntc_hot: v & 0x01 != 0,
            ntc_cold: v & 0x02 != 0,
            reserved: (v >> 2) & 0x01,
            bat_fault: v & 0x08 != 0,
            chrg_fault: ChrgFault::from_bits((v >> 4) & 0x03),
            otg_fault: v & 0x40 != 0,
            watchdog_expired: v & 0x80 != 0,
        }
    }
}

impl vstd::std_specs::convert::FromSpecImpl<u8> for NewFault {
    open spec fn obeys_from_spec() -> bool {
        true
    }

    open spec fn from_spec(v: u8) -> Self {
        Self::decode(v)
    }
}

impl From<NewFault> for u8 {
    fn from(reg: NewFault) -> u8 {
        (if reg.ntc_hot { 0x01u8 } else { 0u8 }) |
        (if reg.ntc_cold { 0x02u8 } else { 0u8 }) |
        ((reg.reserved & 0x01) << 2) |
        (if reg.bat_fault { 0x08u8 } else { 0u8 }) |
        (reg.chrg_fault.bits() << 4) |
        (if reg.otg_fault { 0x40u8 } else { 0u8 }) |
        (if reg.watchdog_expired { 0x80u8 } else { 0u8 })
    }
}

impl vstd::std_specs::convert::FromSpecImpl<NewFault> for u8 {
    open spec fn obeys_from_spec() -> bool {
        true
    }

    open spec fn from_spec(reg: NewFault) -> u8 {
        reg.encode()
    }
}

/// Vendor / Part / Revision Status Register REG0A
pub const REG_VENDOR: u8 = 0x0A;

/// Expected value of REG_VENDOR
pub const EXPECTED_VENDOR_VALUE: u8 = 0b00100000;

} // verus!
