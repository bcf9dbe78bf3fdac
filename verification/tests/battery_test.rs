//! Battery capacity from raw readings.
use wyzesense2mqtt_rs::protocol::battery::{raw_to_capacity, BatteryChemistry};
use wyzesense2mqtt_rs::protocol::telemetry::SensorType;

// --- Coin cell curve ---

#[test]
fn coin_cell_full_battery() {
    assert_eq!(raw_to_capacity(99, BatteryChemistry::Lithium3VCoinCell), 100);
    // Above max raw still returns 100
    assert_eq!(raw_to_capacity(120, BatteryChemistry::Lithium3VCoinCell), 100);
}

#[test]
fn coin_cell_dead_battery() {
    assert_eq!(raw_to_capacity(67, BatteryChemistry::Lithium3VCoinCell), 0);
    assert_eq!(raw_to_capacity(50, BatteryChemistry::Lithium3VCoinCell), 0);
}

#[test]
fn coin_cell_plateau_stays_high() {
    // On the plateau (raw 93–99), capacity should be high
    assert!(raw_to_capacity(95, BatteryChemistry::Lithium3VCoinCell) >= 80);
}

#[test]
fn coin_cell_drops_steeply() {
    // raw 86 should be much lower than raw 90 — steep cliff
    let cap_90 = raw_to_capacity(90, BatteryChemistry::Lithium3VCoinCell);
    let cap_86 = raw_to_capacity(86, BatteryChemistry::Lithium3VCoinCell);
    assert_eq!(cap_90, 50);
    assert_eq!(cap_86, 20);
}

#[test]
fn coin_cell_interpolation() {
    // raw 91 is between (93,80) and (90,50) → should be ~60
    let cap = raw_to_capacity(91, BatteryChemistry::Lithium3VCoinCell);
    assert!(cap >= 55 && cap <= 65, "raw=91 → expected ~60, got {}", cap);
}

// --- Single AAA curve ---

#[test]
fn single_aaa_full() {
    assert_eq!(raw_to_capacity(50, BatteryChemistry::Alkaline1V5SingleAAA), 100);
}

#[test]
fn single_aaa_dead() {
    assert_eq!(raw_to_capacity(32, BatteryChemistry::Alkaline1V5SingleAAA), 0);
}

#[test]
fn single_aaa_midpoint() {
    assert_eq!(raw_to_capacity(42, BatteryChemistry::Alkaline1V5SingleAAA), 50);
}

// --- Dual AAA curve ---

#[test]
fn dual_aaa_full() {
    assert_eq!(raw_to_capacity(99, BatteryChemistry::Alkaline3VDualAAA), 100);
}

#[test]
fn dual_aaa_dead() {
    assert_eq!(raw_to_capacity(64, BatteryChemistry::Alkaline3VDualAAA), 0);
}

// --- Chemistry mapping ---

#[test]
fn chemistry_mapping() {
    assert_eq!(BatteryChemistry::for_sensor(SensorType::ContactV1),
               Some(BatteryChemistry::Lithium3VCoinCell));
    assert_eq!(BatteryChemistry::for_sensor(SensorType::MotionV1),
               Some(BatteryChemistry::Lithium3VCoinCell));
    assert_eq!(BatteryChemistry::for_sensor(SensorType::LeakV2),
               Some(BatteryChemistry::Lithium3VCoinCell));
    assert_eq!(BatteryChemistry::for_sensor(SensorType::ClimateV2),
               Some(BatteryChemistry::Lithium3VCoinCell));
    assert_eq!(BatteryChemistry::for_sensor(SensorType::ContactV2),
               Some(BatteryChemistry::Alkaline1V5SingleAAA));
    assert_eq!(BatteryChemistry::for_sensor(SensorType::MotionV2),
               Some(BatteryChemistry::Alkaline3VDualAAA));
    assert_eq!(BatteryChemistry::for_sensor(SensorType::Chime), None);
    assert_eq!(BatteryChemistry::for_sensor(SensorType::Unknown(0xFF)), None);
}

#[test]
fn capacity_never_falls_with_voltage() {
    for chemistry in [
        BatteryChemistry::Lithium3VCoinCell,
        BatteryChemistry::Alkaline1V5SingleAAA,
        BatteryChemistry::Alkaline3VDualAAA,
    ] {
        let mut last: u8 = 0;
        for raw in 0..=255u8 {
            let cap = raw_to_capacity(raw, chemistry);
            assert!(cap >= last, "raw={} gives {} after {}", raw, cap, last);
            assert!(cap <= 100);
            last = cap;
        }
        assert_eq!(raw_to_capacity(0, chemistry), 0);
        assert_eq!(raw_to_capacity(255, chemistry), 100);
    }
}

#[test]
fn capacity_between_points_is_rounded() {
    assert_eq!(raw_to_capacity(91, BatteryChemistry::Lithium3VCoinCell), 60);
    assert_eq!(raw_to_capacity(92, BatteryChemistry::Lithium3VCoinCell), 70);
}
