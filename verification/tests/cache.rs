use crusty_crawler::hardware_statistics::get_hardware_status;
use crusty_crawler::hardware_statistics::update_hardware_info;
use crusty_crawler::hardware_statistics::HardwareMonitorState;
use crusty_crawler::hardware_statistics::HardwareReading;
use crusty_crawler::hardware_statistics::PowerReading;
use crusty_crawler::hardware_statistics::ThermalReading;
use crusty_crawler::hardware_statistics::REFRESH_INTERVAL;

const SECOND: u64 = 1_000_000_000;

fn full_reading() -> HardwareReading {
    HardwareReading {
        power: Some(PowerReading {
            power_state: "Balanced".to_string(),
            power_draw: Some("45.5".to_string()),
            optimizations: vec!["Dim the screen".to_string(), "Close idle tabs".to_string()],
        }),
        thermal: Some(ThermalReading {
            max_temperature: "81.0".to_string(),
            status: "Hot".to_string(),
            throttling: Some("Moderate".to_string()),
            cooling: vec![
                "Clean the fans".to_string(),
                "Raise the laptop".to_string(),
                "Replace the paste".to_string(),
            ],
        }),
    }
}

#[test]
fn the_interval_is_sixty_seconds() {
    assert_eq!(REFRESH_INTERVAL, 60 * SECOND);
}

#[test]
fn a_fresh_cache_is_stale_at_any_time() {
    let cache = HardwareMonitorState::default();
    assert!(cache.needs_refresh(0));
    assert!(cache.needs_refresh(5 * SECOND));
    assert!(cache.last_update.is_none());
    assert!(cache.power_info.is_none());
    assert!(cache.thermal_info.is_none());
    assert!(cache.optimization_suggestions.is_empty());
}

#[test]
fn a_snapshot_is_stale_only_after_more_than_the_interval() {
    let mut cache = HardwareMonitorState::default();
    update_hardware_info(&mut cache, Ok(full_reading()), 10 * SECOND);
    assert!(!cache.needs_refresh(10 * SECOND));
    assert!(!cache.needs_refresh(70 * SECOND));
    assert!(cache.needs_refresh(70 * SECOND + 1));
    // A clock reading before the refresh counts as no time passed.
    assert!(!cache.needs_refresh(9 * SECOND));
    assert!(!cache.needs_refresh(0));
}

#[test]
fn one_query_serves_a_whole_interval() {
    let mut cache = HardwareMonitorState::default();
    let mut queries = 0;
    for now in [0, 1, 30 * SECOND, 59 * SECOND, 60 * SECOND] {
        cache.get_snapshot(now, || {
            queries += 1;
            Ok(full_reading())
        });
    }
    assert_eq!(queries, 1);
    assert_eq!(cache.last_update, Some(0));
}

#[test]
fn the_next_call_after_the_interval_queries_once() {
    let mut cache = HardwareMonitorState::default();
    let mut queries = 0;
    for now in [0, 60 * SECOND + 1, 60 * SECOND + 2, 61 * SECOND, 120 * SECOND + 1] {
        cache.get_snapshot(now, || {
            queries += 1;
            Ok(full_reading())
        });
    }
    assert_eq!(queries, 2);
    assert_eq!(cache.last_update, Some(60 * SECOND + 1));
}

#[test]
fn a_cached_snapshot_is_served_unchanged() {
    let mut cache = HardwareMonitorState::default();
    cache.get_snapshot(0, || Ok(full_reading()));
    let served = cache.get_snapshot(SECOND, || Err("unreachable".to_string()));
    assert_eq!(served.last_update, Some(0));
    assert_eq!(
        served.power_info.as_deref(),
        Some("Power State: Balanced\nCurrent Power Draw: 45.5W\n")
    );
}

#[test]
fn a_failed_query_is_cached_too() {
    let mut cache = HardwareMonitorState::default();
    cache.get_snapshot(0, || Ok(full_reading()));
    let mut queries = 0;
    for now in [61 * SECOND, 62 * SECOND, 100 * SECOND] {
        cache.get_snapshot(now, || {
            queries += 1;
            Err("sensor bus is down".to_string())
        });
    }
    assert_eq!(queries, 1);
    assert_eq!(cache.last_update, Some(61 * SECOND));
    assert_eq!(
        cache.power_info.as_deref(),
        Some("Error querying hardware: sensor bus is down")
    );
    assert_eq!(
        cache.thermal_info.as_deref(),
        Some("Error querying hardware: sensor bus is down")
    );
    // The snapshot is replaced as a whole: nothing of the old one is left.
    assert!(cache.optimization_suggestions.is_empty());
}

#[test]
fn a_reading_is_summarised() {
    let mut cache = HardwareMonitorState::default();
    update_hardware_info(&mut cache, Ok(full_reading()), 7);
    assert_eq!(cache.last_update, Some(7));
    assert_eq!(
        cache.power_info.as_deref(),
        Some("Power State: Balanced\nCurrent Power Draw: 45.5W\n")
    );
    assert_eq!(
        cache.thermal_info.as_deref(),
        Some(
            "Max Temperature: 81.0°C\nThermal Status: Hot\n⚠️ Thermal throttling predicted: Moderate\n"
        )
    );
    assert_eq!(
        cache.optimization_suggestions,
        vec![
            "💡 Dim the screen".to_string(),
            "💡 Close idle tabs".to_string(),
            "🚨 Thermal alert: Moderate".to_string(),
            "🌡️ Clean the fans".to_string(),
            "🌡️ Raise the laptop".to_string(),
        ]
    );
}

#[test]
fn a_reading_without_power_and_sensors_says_so() {
    let mut cache = HardwareMonitorState::default();
    update_hardware_info(&mut cache, Ok(HardwareReading { power: None, thermal: None }), 7);
    assert_eq!(cache.power_info.as_deref(), Some("Power information not available\n"));
    assert_eq!(cache.thermal_info.as_deref(), Some("Thermal information not available\n"));
    assert!(cache.optimization_suggestions.is_empty());
}

#[test]
fn a_sparse_reading_leaves_out_what_is_unknown() {
    let mut cache = HardwareMonitorState::default();
    let reading = HardwareReading {
        power: Some(PowerReading {
            power_state: "PowerSaver".to_string(),
            power_draw: None,
            optimizations: vec![],
        }),
        thermal: Some(ThermalReading {
            max_temperature: "40.2".to_string(),
            status: "Normal".to_string(),
            throttling: None,
            cooling: vec!["Clean the fans".to_string()],
        }),
    };
    update_hardware_info(&mut cache, Ok(reading), 7);
    assert_eq!(cache.power_info.as_deref(), Some("Power State: PowerSaver\n"));
    assert_eq!(
        cache.thermal_info.as_deref(),
        Some("Max Temperature: 40.2°C\nThermal Status: Normal\n")
    );
    assert_eq!(cache.optimization_suggestions, vec!["🌡️ Clean the fans".to_string()]);
}

#[test]
fn a_refresh_replaces_the_old_suggestions() {
    let mut cache = HardwareMonitorState::default();
    update_hardware_info(&mut cache, Ok(full_reading()), 7);
    update_hardware_info(&mut cache, Ok(HardwareReading { power: None, thermal: None }), 8);
    assert!(cache.optimization_suggestions.is_empty());
    assert_eq!(cache.last_update, Some(8));
}

#[test]
fn the_hardware_section_of_an_empty_cache() {
    let cache = HardwareMonitorState::default();
    assert_eq!(
        get_hardware_status(&cache),
        "\n=== Power Information ===\nPower info not available\n\n=== Thermal Information ===\nThermal info not available\n"
    );
}

#[test]
fn the_hardware_section_of_a_full_snapshot() {
    let mut cache = HardwareMonitorState::default();
    update_hardware_info(&mut cache, Ok(full_reading()), 7);
    assert_eq!(
        get_hardware_status(&cache),
        "\n=== Power Information ===\nPower State: Balanced\nCurrent Power Draw: 45.5W\n\n=== Thermal Information ===\nMax Temperature: 81.0°C\nThermal Status: Hot\n⚠️ Thermal throttling predicted: Moderate\n\n=== Optimization Suggestions ===\n💡 Dim the screen\n💡 Close idle tabs\n🚨 Thermal alert: Moderate\n🌡️ Clean the fans\n🌡️ Raise the laptop\n"
    );
}

#[test]
fn the_hardware_section_after_a_failed_query() {
    let mut cache = HardwareMonitorState::default();
    update_hardware_info(&mut cache, Err("no access".to_string()), 7);
    assert_eq!(
        get_hardware_status(&cache),
        "\n=== Power Information ===\nError querying hardware: no access\n=== Thermal Information ===\nError querying hardware: no access"
    );
}
