use bq24259::registers::{
    ChrgFault, Chrg, Vbus, REG_CHARGE_CURRENT_CONTROL, REG_NEW_FAULT, REG_POWER_ON_CONFIGURATION,
    REG_SYSTEM_STATUS, REG_TERM_TIMER_CONTROL,
};
use bq24259::{Bus, ADDR, BQ24259};
use std::cell::RefCell;
use std::rc::Rc;

#[derive(Debug, PartialEq)]
enum DummyError {
    Failed,
}

struct DummyBus {}

impl Bus for DummyBus {
    type Error = DummyError;

    fn write_read(&mut self, _: u8, _: &[u8], _: &mut [u8; 1]) -> Result<(), DummyError> {
        Err(DummyError::Failed)
    }

    fn write(&mut self, _: u8, _: &[u8]) -> Result<(), DummyError> {
        Err(DummyError::Failed)
    }
}

#[derive(Debug, PartialEq, Clone, Copy)]
enum Op {
    Read(u8, u8),
    Write(u8, u8, u8),
}

/// A device with eleven registers that records every transfer.
struct Device {
    regs: [u8; 11],
    ops: Vec<Op>,
    fail_reads: bool,
    fail_writes: bool,
}

struct FakeBus {
    device: Rc<RefCell<Device>>,
}

impl FakeBus {
    fn new(regs: [u8; 11]) -> (Self, Rc<RefCell<Device>>) {
        let device = Rc::new(RefCell::new(Device {
            regs,
            ops: Vec::new(),
            fail_reads: false,
            fail_writes: false,
        }));
        (FakeBus { device: device.clone() }, device)
    }
}

impl Bus for FakeBus {
    type Error = DummyError;

    fn write_read(
        &mut self,
        address: u8,
        bytes: &[u8],
        buffer: &mut [u8; 1],
    ) -> Result<(), DummyError> {
        let mut d = self.device.borrow_mut();
        if d.fail_reads {
            return Err(DummyError::Failed);
        }
        assert_eq!(bytes.len(), 1);
        d.ops.push(Op::Read(address, bytes[0]));
        buffer[0] = d.regs[bytes[0] as usize];
        Ok(())
    }

    fn write(&mut self, address: u8, bytes: &[u8]) -> Result<(), DummyError> {
        let mut d = self.device.borrow_mut();
        if d.fail_writes {
            return Err(DummyError::Failed);
        }
        assert_eq!(bytes.len(), 2);
        d.ops.push(Op::Write(address, bytes[0], bytes[1]));
        d.regs[bytes[0] as usize] = bytes[1];
        Ok(())
    }
}

fn driver_with(reg: u8, value: u8) -> (BQ24259<FakeBus>, Rc<RefCell<Device>>) {
    let mut regs = [0u8; 11];
    regs[reg as usize] = value;
    let (bus, device) = FakeBus::new(regs);
    (BQ24259::new(bus), device)
}

#[test]
fn ichg_read() {
    // Default value means 2048
    assert_eq!(BQ24259::<DummyBus>::ichg_to_milliamps(0b11000), 2048);
    assert_eq!(BQ24259::<DummyBus>::ichg_to_milliamps(0b01100), 1280);
    // Zero value means 512
    assert_eq!(BQ24259::<DummyBus>::ichg_to_milliamps(0), 512);
}

#[test]
fn ichg_write() {
    // Default value means 2048
    assert_eq!(BQ24259::<DummyBus>::milliamps_to_ichg(2048), 0b11000);
    assert_eq!(BQ24259::<DummyBus>::milliamps_to_ichg(896), 0b00110);
    // Zero value means 512
    assert_eq!(BQ24259::<DummyBus>::milliamps_to_ichg(512), 0);
    // Value clamps to 2048 from the top
    assert_eq!(BQ24259::<DummyBus>::milliamps_to_ichg(10000), 0b11000);
    // Value clamps to 512 from the bottom
    assert_eq!(BQ24259::<DummyBus>::milliamps_to_ichg(5), 0);
}

#[test]
fn conversion_edges() {
    assert_eq!(BQ24259::<DummyBus>::ichg_to_milliamps(31), 2496);
    assert_eq!(BQ24259::<DummyBus>::milliamps_to_ichg(575), 0);
    assert_eq!(BQ24259::<DummyBus>::milliamps_to_ichg(576), 1);
    assert_eq!(BQ24259::<DummyBus>::milliamps_to_ichg(u16::MAX), 24);
    for code in 0..=24u8 {
        let ma = BQ24259::<DummyBus>::ichg_to_milliamps(code);
        assert_eq!(BQ24259::<DummyBus>::milliamps_to_ichg(ma), code);
    }
}

#[test]
fn disable_watchdog_clears_only_en_timer() {
    let (mut dev, device) = driver_with(REG_TERM_TIMER_CONTROL, 0b1001_1110);
    assert_eq!(dev.disable_watchdog(), Ok(()));
    assert_eq!(
        device.borrow().ops,
        vec![
            Op::Read(ADDR, REG_TERM_TIMER_CONTROL),
            Op::Write(ADDR, REG_TERM_TIMER_CONTROL, 0b1001_0110)
        ]
    );
}

#[test]
fn reset_watchdog_sets_only_watchdog_reset() {
    let (mut dev, device) = driver_with(REG_POWER_ON_CONFIGURATION, 0b1001_1011);
    assert_eq!(dev.reset_watchdog(), Ok(()));
    assert_eq!(
        device.borrow().ops,
        vec![
            Op::Read(ADDR, REG_POWER_ON_CONFIGURATION),
            Op::Write(ADDR, REG_POWER_ON_CONFIGURATION, 0b1101_1011)
        ]
    );
}

#[test]
fn set_charge_current_limit_keeps_other_bits() {
    let (mut dev, device) = driver_with(REG_CHARGE_CURRENT_CONTROL, 0b1000_0011);
    assert_eq!(dev.set_charge_current_limit(896), Ok(()));
    assert_eq!(dev.charge_current_limit(), Ok(896));
    assert_eq!(device.borrow().regs[REG_CHARGE_CURRENT_CONTROL as usize], 0b1001_1011);
}

#[test]
fn set_charge_current_limit_clamps() {
    let (mut dev, _device) = driver_with(REG_CHARGE_CURRENT_CONTROL, 0);
    assert_eq!(dev.set_charge_current_limit(10000), Ok(()));
    assert_eq!(dev.charge_current_limit(), Ok(2048));
    assert_eq!(dev.set_charge_current_limit(5), Ok(()));
    assert_eq!(dev.charge_current_limit(), Ok(512));
}

#[test]
fn status_and_fault_are_decoded() {
    let mut regs = [0u8; 11];
    regs[REG_SYSTEM_STATUS as usize] = 0b10010100;
    regs[REG_NEW_FAULT as usize] = 0b10100010;
    let (bus, _device) = FakeBus::new(regs);
    let mut dev = BQ24259::new(bus);
    let s = dev.status().unwrap();
    assert_eq!(s.vbus(), Vbus::AdapterPort);
    assert_eq!(s.chrg(), Chrg::PreCharge);
    assert!(s.pg());
    let f = dev.new_fault().unwrap();
    assert_eq!(f.chrg_fault(), ChrgFault::ThermalShutdown);
    assert!(f.watchdog_expired());
    assert!(f.ntc_cold());
    assert_eq!(dev.read(REG_SYSTEM_STATUS), Ok(0b10010100));
}

#[test]
fn update_applies_the_mutator() {
    let (mut dev, _device) = driver_with(7, 0x0f);
    assert_eq!(dev.update(7, |v| v ^ 0xff), Ok(()));
    assert_eq!(dev.read(7), Ok(0xf0));
}

#[test]
fn bus_errors_are_returned() {
    let (bus, device) = FakeBus::new([0u8; 11]);
    device.borrow_mut().fail_reads = true;
    let mut dev = BQ24259::new(bus);
    assert_eq!(dev.read(1), Err(DummyError::Failed));
    assert!(dev.status().is_err());
    assert!(dev.new_fault().is_err());
    assert_eq!(dev.charge_current_limit(), Err(DummyError::Failed));
    assert_eq!(dev.disable_watchdog(), Err(DummyError::Failed));

    let (bus, device) = FakeBus::new([0u8; 11]);
    device.borrow_mut().fail_writes = true;
    let mut dev = BQ24259::new(bus);
    assert_eq!(dev.reset_watchdog(), Err(DummyError::Failed));
    assert_eq!(dev.set_charge_current_limit(1000), Err(DummyError::Failed));
    assert_eq!(
        device.borrow().ops,
        vec![Op::Read(ADDR, REG_POWER_ON_CONFIGURATION), Op::Read(ADDR, REG_CHARGE_CURRENT_CONTROL)]
    );
}
