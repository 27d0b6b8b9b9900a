use powerd::msr::{Msr, msr_get_bit, msr_get_bits, msr_set_bit, msr_set_bits};
use powerd::sensors::throttle::{
    ThrottleReason, cpu_throttling, graphics_throttling, print, ring_throttling,
};

#[test]
fn register_addresses() {
    assert_eq!(Msr::PowerCtl.addr(), 0x1FC);
    assert_eq!(Msr::ConfigTdpControl.addr(), 0x64B);
    assert_eq!(Msr::CpuPerfLimitReasons.addr(), 0x64F);
    assert_eq!(Msr::GraphicsPerfLimitReasons.addr(), 0x6B0);
    assert_eq!(Msr::RingPerfLimitReasons.addr(), 0x6B1);
}

#[test]
fn get_and_set_single_bits() {
    assert!(msr_get_bit(0b100, 2));
    assert!(!msr_get_bit(0b100, 1));
    assert_eq!(msr_set_bit(0, 0, true), 1);
    assert_eq!(msr_set_bit(0b111, 1, false), 0b101);
    assert_eq!(msr_set_bit(0b101, 1, true), 0b111);
    assert_eq!(msr_set_bit(u64::MAX, 63, false), u64::MAX >> 1);
}

#[test]
fn get_and_set_bit_ranges() {
    assert_eq!(msr_get_bits(0b1101_1000, 3, 6), 0b1011);
    assert_eq!(msr_get_bits(u64::MAX, 0, 7), 0xFF);
    assert_eq!(msr_set_bits(0, 4, 7, 0b1111), 0b1111_0000);
    assert_eq!(msr_set_bits(0xFF, 0, 3, 0), 0xF0);
    assert_eq!(msr_set_bits(0b1010_1010, 2, 5, 0b0110), 0b1001_1010);
}

#[test]
fn no_throttling_reports_none() {
    assert_eq!(cpu_throttling(0), "CPU throttle reasons: None");
    assert_eq!(ring_throttling(0), "Ring throttle reasons: None");
    assert_eq!(graphics_throttling(0), "GPU throttle reasons: None");
}

#[test]
fn cpu_reasons_decode_their_bits() {
    // PROCHOT (bit 0), PL1 (bit 10) and turbo transition (bit 13)
    let msr = (1 << 0) | (1 << 10) | (1 << 13);
    assert_eq!(
        cpu_throttling(msr),
        "CPU throttle reasons: PROCHOT, PL1, Turbo transition attenuation"
    );
}

#[test]
fn cpu_reserved_bits_are_ignored() {
    let msr = (1 << 2) | (1 << 3) | (1 << 9) | (1 << 31);
    assert_eq!(cpu_throttling(msr), "CPU throttle reasons: None");
}

#[test]
fn gpu_below_target_frequency_gets_its_own_line() {
    let msr = (1 << 1) | (1 << 12);
    assert_eq!(
        graphics_throttling(msr),
        "GPU throttle reasons: Thermal event\nGPU operating below target frequency"
    );
}

#[test]
fn ring_reasons_decode_their_bits() {
    let msr = (1 << 5) | (1 << 8) | (1 << 11);
    assert_eq!(
        ring_throttling(msr),
        "Ring throttle reasons: Running average thermal limit, Other/electrical/EDP, PL2"
    );
}

#[test]
fn report_joins_labels_in_order() {
    let reasons = vec![
        ThrottleReason::VrThermalEvt,
        ThrottleReason::VrTdcLimit,
        ThrottleReason::MaxTurboLimit,
    ];
    assert_eq!(
        print("CPU", &reasons),
        "CPU throttle reasons: Voltage regulator thermal alert, Voltage regulator TDC limit, Max turbo limit"
    );
}

#[test]
fn every_reason_has_a_label() {
    assert_eq!(ThrottleReason::Prochot.label(), "PROCHOT");
    assert_eq!(ThrottleReason::ThermalEvt.label(), "Thermal event");
    assert_eq!(
        ThrottleReason::ResidencyStateRegulation.label(),
        "Residency state regulation limit"
    );
    assert_eq!(ThrottleReason::AvgThermalLimit.label(), "Running average thermal limit");
    assert_eq!(ThrottleReason::VrThermalEvt.label(), "Voltage regulator thermal alert");
    assert_eq!(ThrottleReason::VrTdcLimit.label(), "Voltage regulator TDC limit");
    assert_eq!(ThrottleReason::Other.label(), "Other/electrical/EDP");
    assert_eq!(ThrottleReason::PL1.label(), "PL1");
    assert_eq!(ThrottleReason::PL2.label(), "PL2");
    assert_eq!(ThrottleReason::MaxTurboLimit.label(), "Max turbo limit");
    assert_eq!(ThrottleReason::TurboTransition.label(), "Turbo transition attenuation");
}
