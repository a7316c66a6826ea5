use bq24259::registers::{
    BoostLim, ChargeCurrentControl, ChargeTerminationTimerControl, ChgTimer, Chrg, ChrgFault,
    NewFault, PowerOnConfiguration, SystemStatus, Vbus, Watchdog,
};

#[test]
fn power_on_configuration() {
    let reg = PowerOnConfiguration::from(0b00011011);
    assert_eq!(reg.register_reset(), false);
    assert_eq!(reg.watchdog_reset(), false);
    assert_eq!(reg.en_otg(), false);
    assert_eq!(reg.en_charge(), true);
    assert_eq!(u8::from(reg.sys_min()), 0b101);
    assert_eq!(reg.boost_lim(), BoostLim::Amp1_5);
}

#[test]
fn charge_current_control() {
    let reg = ChargeCurrentControl::from(0b01011001);
    assert_eq!(u8::from(reg.ichg()), 0b10110);
    assert_eq!(reg.bcold(), false);
    assert_eq!(reg.force_20pct(), true);
}

#[test]
fn charge_termination_timer_control() {
    let reg = ChargeTerminationTimerControl::from(0b10011100);
    assert_eq!(reg.en_term(), true);
    assert_eq!(reg.watchdog(), Watchdog::Sec40);
    assert_eq!(reg.en_timer(), true);
    assert_eq!(reg.charge_timer(), ChgTimer::TwelveHours);
}

#[test]
fn status() {
    let reg = SystemStatus::from(0b10010100);
    assert_eq!(reg.vbus(), Vbus::AdapterPort);
    assert_eq!(reg.chrg(), Chrg::PreCharge);
    assert_eq!(reg.dpm(), false);
    assert_eq!(reg.pg(), true);
    assert_eq!(reg.therm(), false);
    assert_eq!(reg.vsys(), false);
}

#[test]
fn new_fault() {
    let reg = NewFault::from(0b10100010);
    assert_eq!(reg.watchdog_expired(), true);
    assert_eq!(reg.otg_fault(), false);
    assert_eq!(reg.chrg_fault(), ChrgFault::ThermalShutdown);
    assert_eq!(reg.bat_fault(), false);
    assert_eq!(reg.ntc_cold(), true);
    assert_eq!(reg.ntc_hot(), false);
}

#[test]
fn every_byte_round_trips_through_each_register() {
    for v in 0..=255u8 {
        assert_eq!(u8::from(PowerOnConfiguration::from(v)), v);
        assert_eq!(u8::from(ChargeCurrentControl::from(v)), v);
        assert_eq!(u8::from(ChargeTerminationTimerControl::from(v)), v);
        assert_eq!(u8::from(SystemStatus::from(v)), v);
        assert_eq!(u8::from(NewFault::from(v)), v);
    }
}

#[test]
fn every_enum_pattern_decodes_to_a_distinct_variant() {
    let timers = [
        ChgTimer::FiveHours,
        ChgTimer::EightHours,
        ChgTimer::TwelveHours,
        ChgTimer::TwentyHours,
    ];
    let dogs = [Watchdog::Disabled, Watchdog::Sec40, Watchdog::Sec80, Watchdog::Sec160];
    let vbus = [Vbus::Unknown, Vbus::UsbHost, Vbus::AdapterPort, Vbus::Otg];
    let chrg = [Chrg::NotCharging, Chrg::PreCharge, Chrg::FastCharging, Chrg::ChargeTermination];
    let faults = [
        ChrgFault::Normal,
        ChrgFault::InputFault,
        ChrgFault::ThermalShutdown,
        ChrgFault::ChargeTimerExpiration,
    ];
    for bits in 0..4u8 {
        let i = bits as usize;
        assert_eq!(ChgTimer::from_bits(bits), timers[i]);
        assert_eq!(timers[i].bits(), bits);
        assert_eq!(Watchdog::from_bits(bits), dogs[i]);
        assert_eq!(dogs[i].bits(), bits);
        assert_eq!(Vbus::from_bits(bits), vbus[i]);
        assert_eq!(vbus[i].bits(), bits);
        assert_eq!(Chrg::from_bits(bits), chrg[i]);
        assert_eq!(chrg[i].bits(), bits);
        assert_eq!(ChrgFault::from_bits(bits), faults[i]);
        assert_eq!(faults[i].bits(), bits);
    }
    assert_eq!(BoostLim::from_bits(0), BoostLim::Amp1_0);
    assert_eq!(BoostLim::from_bits(1), BoostLim::Amp1_5);
    assert_eq!(BoostLim::Amp1_0.bits(), 0);
    assert_eq!(BoostLim::Amp1_5.bits(), 1);
}

#[test]
fn setting_one_field_changes_only_its_bits() {
    let mut reg = ChargeCurrentControl::from(0b1000_0011);
    reg.set_ichg(0b10101);
    assert_eq!(u8::from(reg), 0b1101_0111);

    let mut reg = ChargeTerminationTimerControl::from(0xff);
    reg.set_en_timer(false);
    assert_eq!(u8::from(reg), 0xf7);

    let mut reg = PowerOnConfiguration::from(0);
    reg.set_watchdog_reset(true);
    assert_eq!(u8::from(reg), 0x40);
}

#[test]
fn reserved_bits_are_kept() {
    let reg = ChargeTerminationTimerControl::from(0b0100_0001);
    assert_eq!(reg.reserved_0(), 1);
    assert_eq!(reg.reserved_6(), 1);
    assert_eq!(u8::from(reg), 0b0100_0001);
    let reg = NewFault::from(0b0000_0100);
    assert_eq!(reg.reserved(), 1);
    assert_eq!(u8::from(reg), 0b0000_0100);
}

#[test]
fn every_view_round_trips_through_its_byte() {
    let views = [
        ChargeTerminationTimerControl {
            reserved_0: 1,
            charge_timer: ChgTimer::TwentyHours,
            en_timer: false,
            watchdog: Watchdog::Sec80,
            reserved_6: 0,
            en_term: true,
        },
        ChargeTerminationTimerControl {
            reserved_0: 0,
            charge_timer: ChgTimer::EightHours,
            en_timer: true,
            watchdog: Watchdog::Disabled,
            reserved_6: 1,
            en_term: false,
        },
    ];
    assert_eq!(u8::from(views[0]), 0b1010_0111);
    assert_eq!(u8::from(views[1]), 0b0100_1010);
    for view in views {
        assert_eq!(ChargeTerminationTimerControl::from(u8::from(view)), view);
    }
    let power = PowerOnConfiguration {
        boost_lim: BoostLim::Amp1_5,
        sys_min: 0b011,
        en_charge: true,
        en_otg: false,
        watchdog_reset: false,
        register_reset: true,
    };
    assert_eq!(u8::from(power), 0b1001_0111);
    assert_eq!(PowerOnConfiguration::from(u8::from(power)), power);
    let status = SystemStatus {
        vsys: true,
        therm: false,
        pg: true,
        dpm: false,
        chrg: Chrg::FastCharging,
        vbus: Vbus::Otg,
    };
    assert_eq!(u8::from(status), 0b1110_0101);
    assert_eq!(SystemStatus::from(u8::from(status)), status);
}
