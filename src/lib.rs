//! Driver for the BQ24259 single-cell battery charger, reached over a
//! two-wire serial bus, built on a bit-exact model of its registers.
//!
//! Every operation is one register read, or one read followed by one write
//! of the whole register byte with a single field changed.

pub mod registers;

use vstd::prelude::*;

use registers::{
    ChargeCurrentControl, ChargeTerminationTimerControl, NewFault, PowerOnConfiguration,
    SystemStatus, REG_CHARGE_CURRENT_CONTROL, REG_NEW_FAULT, REG_POWER_ON_CONFIGURATION,
    REG_SYSTEM_STATUS, REG_TERM_TIMER_CONTROL,
};

verus! {

/// Seven-bit bus address of the charger.
pub const ADDR: u8 = 0x6b;

/// A transfer that a bus was asked for, with how it ended.
pub enum Transfer<E> {
    /// `register` was sent to the device at `address`, which answered `value`.
    Read { address: u8, register: u8, value: u8 },
    /// Sending `register` to the device at `address` and reading one byte
    /// back failed with `error`.
    ReadFailed { address: u8, register: u8, error: E },
    /// `register` and then `value` were sent to the device at `address`.
    Write { address: u8, register: u8, value: u8 },
    /// Sending `register` and then `value` to the device at `address` failed
    /// with `error`.
    WriteFailed { address: u8, register: u8, value: u8, error: E },
}

/// The two-wire bus that the driver talks through. An implementation keeps
/// the record of the transfers it was asked for, and answers each call with
/// the outcome that it adds to that record.
pub trait Bus {
    /// What a failed transfer reports.
    type Error;

    /// Every transfer this bus was asked for, oldest first. An implementation
    /// that Verus checks gives its own record in place of this empty one.
    open spec fn transfers(&self) -> Seq<Transfer<Self::Error>> {
        Seq::empty()
    }

    /// Writes the register address in `bytes` to the device at `address`,
    /// then reads one byte back into `buffer`, in one combined transfer.
    fn write_read(&mut self, address: u8, bytes: &[u8], buffer: &mut [u8; 1]) -> (r: Result<
        (),
        Self::Error,
    >)
        requires
            bytes@.len() == 1,
        ensures
            match r {
                Ok(()) => final(self).transfers() == old(self).transfers().push(
                    Transfer::Read { address, register: bytes@[0], value: final(buffer)@[0] },
                ),
                Err(error) => final(self).transfers() == old(self).transfers().push(
                    Transfer::ReadFailed { address, register: bytes@[0], error },
                ),
            },
    ;

    /// Writes the register address and the new value in `bytes` to the
    /// device at `address`.
    fn write(&mut self, address: u8, bytes: &[u8]) -> (r: Result<(), Self::Error>)
        requires
            bytes@.len() == 2,
        ensures
            match r {
                Ok(()) => final(self).transfers() == old(self).transfers().push(
                    Transfer::Write { address, register: bytes@[0], value: bytes@[1] },
                ),
                Err(error) => final(self).transfers() == old(self).transfers().push(
                    Transfer::WriteFailed { address, register: bytes@[0], value: bytes@[1], error },
                ),
            },
    ;
}

/// The read of `register` at the charger that returned `value`.
pub open spec fn read_of<E>(register: u8, value: u8) -> Transfer<E> {
    Transfer::Read { address: ADDR, register, value }
}

/// The read of `register` at the charger that failed with `error`.
pub open spec fn read_failed<E>(register: u8, error: E) -> Transfer<E> {
    Transfer::ReadFailed { address: ADDR, register, error }
}

/// The write of `value` to `register` at the charger.
pub open spec fn write_of<E>(register: u8, value: u8) -> Transfer<E> {
    Transfer::Write { address: ADDR, register, value }
}

/// The write of `value` to `register` at the charger that failed with `error`.
pub open spec fn write_failed<E>(register: u8, value: u8, error: E) -> Transfer<E> {
    Transfer::WriteFailed { address: ADDR, register, value, error }
}

/// One read of `register` led to `r`, and to no other transfer: on success
/// `r` holds the byte read, on failure the error of that read.
pub open spec fn read_outcome<E>(
    before: Seq<Transfer<E>>,
    after: Seq<Transfer<E>>,
    register: u8,
    r: Result<u8, E>,
) -> bool {
    match r {
        Ok(value) => after == before.push(read_of(register, value)),
        Err(error) => after == before.push(read_failed(register, error)),
    }
}

/// One read of `register`, then, if it succeeded, one write to it of a byte
/// that `written` relates to the byte read, led to `r`: a failed read is
/// followed by no write, and `r` holds the error of the transfer that failed.
pub open spec fn update_outcome<E>(
    before: Seq<Transfer<E>>,
    after: Seq<Transfer<E>>,
    register: u8,
    written: spec_fn(u8, u8) -> bool,
    r: Result<(), E>,
) -> bool {
    match r {
        Ok(()) => exists|value: u8, new: u8|
            #![trigger read_of::<E>(register, value), write_of::<E>(register, new)]
            written(value, new) && after == before.push(read_of(register, value)).push(
                write_of(register, new),
            ),
        Err(error) => after == before.push(read_failed(register, error)) || exists|
            value: u8,
            new: u8,
        |
            #![trigger read_of::<E>(register, value), write_failed::<E>(register, new, error)]
            written(value, new) && after == before.push(read_of(register, value)).push(
                write_failed(register, new, error),
            ),
    }
}

/// The fast charge current, in milliamps, that an `ichg` code selects.
pub open spec fn milliamps_of(ichg: u8) -> int {
    ichg * 64 + 512
}

/// The `ichg` code for a charge current in milliamps: the current is first
/// clamped to 512..=2048 mA, and values between two codes round down.
pub open spec fn ichg_of(milliamps: u16) -> int {
    let clamped: int = if milliamps < 512 {
        512
    } else if milliamps > 2048 {
        2048
    } else {
        milliamps as int
    };
    (clamped - 512) / 64
}

/// Clearing `en_timer` in the view of a Termination/Timer Control byte and
/// encoding it clears bit 3 and keeps every other bit of the byte.
pub proof fn lemma_en_timer_cleared(value: u8)
    ensures
        (ChargeTerminationTimerControl {
            en_timer: false,
            ..ChargeTerminationTimerControl::decode(value)
        }).encode() == value & 0xf7,
{
    let reg = ChargeTerminationTimerControl::decode(value);
    let cleared = ChargeTerminationTimerControl { en_timer: false, ..reg };
    ChargeTerminationTimerControl::lemma_round_trip(value);
    reg.lemma_field_isolation();
    cleared.lemma_field_isolation();
    let written = cleared.encode();
    assert((written & 0x01 == value & 0x01 && written & 0x06 == value & 0x06 && written & 0x08
        == 0 && written & 0x30 == value & 0x30 && written & 0x40 == value & 0x40 && written & 0x80
        == value & 0x80) ==> written == value & 0xf7) by (bit_vector);
}

/// Setting `watchdog_reset` in the view of a Power-On Configuration byte and
/// encoding it sets bit 6 and keeps every other bit of the byte.
pub proof fn lemma_watchdog_reset_set(value: u8)
    ensures
        (PowerOnConfiguration {
            watchdog_reset: true,
            ..PowerOnConfiguration::decode(value)
        }).encode() == value | 0x40,
{
    let reg = PowerOnConfiguration::decode(value);
    let set = PowerOnConfiguration { watchdog_reset: true, ..reg };
    PowerOnConfiguration::lemma_round_trip(value);
    reg.lemma_field_isolation();
    set.lemma_field_isolation();
    let written = set.encode();
    assert((written & 0x01 == value & 0x01 && written & 0x0e == value & 0x0e && written & 0x10
        == value & 0x10 && written & 0x20 == value & 0x20 && written & 0x40 == 0x40 && written
        & 0x80 == value & 0x80) ==> written == value | 0x40) by (bit_vector);
}

/// Setting `ichg` in the view of a Charge Current Control byte and encoding
/// it puts the code in bits 2..6 and keeps every other bit of the byte.
pub proof fn lemma_ichg_set(value: u8, ichg: u8)
    requires
        ichg < 32,
    ensures
        (ChargeCurrentControl { ichg, ..ChargeCurrentControl::decode(value) }).encode() == (value
            & 0x83) | (ichg << 2),
{
    let reg = ChargeCurrentControl::decode(value);
    let set = ChargeCurrentControl { ichg, ..reg };
    ChargeCurrentControl::lemma_round_trip(value);
    reg.lemma_field_isolation();
    set.lemma_field_isolation();
    let written = set.encode();
    assert((ichg < 32 && written & 0x01 == value & 0x01 && written & 0x02 == value & 0x02
        && written & 0x7c == (ichg & 0x1f) << 2 && written & 0x80 == value & 0x80) ==> written
        == (value & 0x83) | (ichg << 2)) by (bit_vector);
}

/// On 64 mA steps within 512..=2048 mA the conversion to a code and back
/// returns the current unchanged.
pub proof fn lemma_milliamps_round_trip(milliamps: u16)
    requires
        512 <= milliamps <= 2048,
        (milliamps - 512) % 64 == 0,
    ensures
        0 <= ichg_of(milliamps) <= 24,
        milliamps_of(ichg_of(milliamps) as u8) == milliamps,
{
}

/// Every code of 0..=24 converts to a current that converts back to it.
pub proof fn lemma_ichg_round_trip(ichg: u8)
    requires
        ichg <= 24,
    ensures
        512 <= milliamps_of(ichg) <= 2048,
        ichg_of(milliamps_of(ichg) as u16) == ichg,
{
}

/// Driver for a BQ24259 on the bus `I2C`, which it owns.
pub struct BQ24259<I2C> {
    i2c: I2C,
}

impl<I2C: Bus> BQ24259<I2C> {
    /// The record of the bus that the driver owns.
    pub closed spec fn transfers(&self) -> Seq<Transfer<I2C::Error>> {
        self.i2c.transfers()
    }

    /// Takes the bus; no transfer is made.
    pub fn new(i2c: I2C) -> (r: Self)
        ensures
            r.transfers() == i2c.transfers(),
    {
        BQ24259 { i2c }
    }

    /// Converts an `ichg` code to the charge current in milliamps.
    pub fn ichg_to_milliamps(ichg: u8) -> (r: u16)
        requires
            ichg < 32,
        ensures
            r == milliamps_of(ichg),
    {
        ichg as u16 * 64 + 512
    }

    /// Converts a charge current in milliamps to the `ichg` code, clamping
    /// it to 512..=2048 mA first.
    pub fn milliamps_to_ichg(milliamps: u16) -> (r: u8)
        ensures
            r == ichg_of(milliamps),
            r <= 24,
    {
        let clamped: u16 = if milliamps < 512 {
            512
        } else if milliamps > 2048 {
            2048
        } else {
            milliamps
        };
        ((clamped - 512) / 64) as u8
    }

    /// Reads a register and returns its value; a bus error is returned as it
    /// came.
    pub fn read(&mut self, register: u8) -> (r: Result<u8, I2C::Error>)
        ensures
            read_outcome(old(self).transfers(), final(self).transfers(), register, r),
    {
        let bytes: [u8; 1] = [register];
        assert(bytes@ =~= seq![register]);
        let mut value: [u8; 1] = [0u8; 1];
        match self.i2c.write_read(ADDR, &bytes, &mut value) {
            Ok(()) => Ok(value[0]),
            Err(e) => Err(e),
        }
    }

    /// Reads a register, passes its value through `update`, and writes the
    /// result back: one read and one write of the whole byte. When the read
    /// fails nothing is written; a bus error is returned as it came.
    pub fn update<F: Fn(u8) -> u8>(&mut self, register: u8, update: F) -> (r: Result<
        (),
        I2C::Error,
    >)
        requires
            forall|value: u8| update.requires((value,)),
        ensures
            update_outcome(
                old(self).transfers(),
                final(self).transfers(),
                register,
                |value: u8, new: u8| update.ensures((value,), new),
                r,
            ),
    {
        let value = match self.read(register) {
            Ok(value) => value,
            Err(e) => return Err(e),
        };
        let written = update(value);
        let bytes: [u8; 2] = [register, written];
        assert(bytes@ =~= seq![register, written]);
        match self.i2c.write(ADDR, &bytes) {
            Ok(()) => {
                assert(update.ensures((value,), written));
                assert(self.transfers() == old(self).transfers().push(
                    read_of(register, value),
                ).push(write_of(register, written)));
                Ok(())
            },
            Err(e) => {
                assert(update.ensures((value,), written));
                assert(self.transfers() == old(self).transfers().push(
                    read_of(register, value),
                ).push(write_failed(register, written, e)));
                Err(e)
            },
        }
    }

    /// Reads the System Status register.
    pub fn status(&mut self) -> (r: Result<SystemStatus, I2C::Error>)
        ensures
            match r {
                Ok(status) => exists|value: u8|
                    #![trigger SystemStatus::decode(value)]
                    status == SystemStatus::decode(value) && final(self).transfers()
                        == old(self).transfers().push(read_of(REG_SYSTEM_STATUS, value)),
                Err(error) => final(self).transfers() == old(self).transfers().push(
                    read_failed(REG_SYSTEM_STATUS, error),
                ),
            },
    {
        let value = self.read(REG_SYSTEM_STATUS)?;
        Ok(SystemStatus::from(value))
    }

    /// Reads the New Fault register.
    pub fn new_fault(&mut self) -> (r: Result<NewFault, I2C::Error>)
        ensures
            match r {
                Ok(fault) => exists|value: u8|
                    #![trigger NewFault::decode(value)]
                    fault == NewFault::decode(value) && final(self).transfers()
                        == old(self).transfers().push(read_of(REG_NEW_FAULT, value)),
                Err(error) => final(self).transfers() == old(self).transfers().push(
                    read_failed(REG_NEW_FAULT, error),
                ),
            },
    {
        let value = self.read(REG_NEW_FAULT)?;
        Ok(NewFault::from(value))
    }

    /// Gets the charge current limit ICHG, in milliamps.
    pub fn charge_current_limit(&mut self) -> (r: Result<u16, I2C::Error>)
        ensures
            match r {
                Ok(milliamps) => exists|value: u8|
                    #![trigger ChargeCurrentControl::decode(value)]
                    milliamps == milliamps_of(ChargeCurrentControl::decode(value).ichg)
                        && final(self).transfers() == old(self).transfers().push(
                        read_of(REG_CHARGE_CURRENT_CONTROL, value),
                    ),
                Err(error) => final(self).transfers() == old(self).transfers().push(
                    read_failed(REG_CHARGE_CURRENT_CONTROL, error),
                ),
            },
    {
        let value = self.read(REG_CHARGE_CURRENT_CONTROL)?;
        let reg = ChargeCurrentControl::from(value);
        proof {
            ChargeCurrentControl::lemma_round_trip(value);
        }
        Ok(Self::ichg_to_milliamps(reg.ichg()))
    }

    /// Disables the watchdog timer by clearing `en_timer` in the Charge
    /// Termination/Timer Control register: the byte read is written back
    /// with bit 3 cleared.
    pub fn disable_watchdog(&mut self) -> (r: Result<(), I2C::Error>)
        ensures
            update_outcome(
                old(self).transfers(),
                final(self).transfers(),
                REG_TERM_TIMER_CONTROL,
                |value: u8, new: u8| new == value & 0xf7,
                r,
            ),
    {
        let clear_en_timer = |v: u8| -> (w: u8)
            ensures
                w == v & 0xf7,
            {
                let mut reg = ChargeTerminationTimerControl::from(v);
                reg.set_en_timer(false);
                proof {
                    lemma_en_timer_cleared(v);
                }
                u8::from(reg)
            };
        self.update(REG_TERM_TIMER_CONTROL, clear_en_timer)
    }

    /// Resets the watchdog timer by setting `watchdog_reset` in the Power-On
    /// Configuration register: the byte read is written back with bit 6 set.
    /// The device clears the bit by itself.
    pub fn reset_watchdog(&mut self) -> (r: Result<(), I2C::Error>)
        ensures
            update_outcome(
                old(self).transfers(),
                final(self).transfers(),
                REG_POWER_ON_CONFIGURATION,
                |value: u8, new: u8| new == value | 0x40,
                r,
            ),
    {
        let set_watchdog_reset = |v: u8| -> (w: u8)
            ensures
                w == v | 0x40,
            {
                let mut reg = PowerOnConfiguration::from(v);
                reg.set_watchdog_reset(true);
                proof {
                    lemma_watchdog_reset_set(v);
                }
                u8::from(reg)
            };
        self.update(REG_POWER_ON_CONFIGURATION, set_watchdog_reset)
    }

    /// Sets the charge current limit ICHG, clamped to 512..=2048 mA: the byte
    /// read from the Charge Current Control register is written back with
    /// the new code in bits 2..6 and every other bit kept.
    pub fn set_charge_current_limit(&mut self, milliamps: u16) -> (r: Result<(), I2C::Error>)
        ensures
            update_outcome(
                old(self).transfers(),
                final(self).transfers(),
                REG_CHARGE_CURRENT_CONTROL,
                |value: u8, new: u8| new == (value & 0x83) | ((ichg_of(milliamps) as u8) << 2),
                r,
            ),
    {
        let ichg = Self::milliamps_to_ichg(milliamps);
        let set_ichg = |v: u8| -> (w: u8)
            ensures
                w == (v & 0x83) | (ichg << 2),
            {
                let mut reg = ChargeCurrentControl::from(v);
                reg.set_ichg(ichg);
                proof {
                    lemma_ichg_set(v, ichg);
                }
                u8::from(reg)
            };
        self.update(REG_CHARGE_CURRENT_CONTROL, set_ichg)
    }
}

} // verus!
