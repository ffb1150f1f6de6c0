use crusty_crawler::auth::AuthManager;
use crusty_crawler::components::check_components;
use crusty_crawler::components::ComponentReading;
use crusty_crawler::hardware_statistics::update_hardware_info;
use crusty_crawler::hardware_statistics::HardwareMonitorState;
use crusty_crawler::network::network_info;
use crusty_crawler::network::network_traffic;
use crusty_crawler::network::InterfaceTotals;
use crusty_crawler::status::status;
use crusty_crawler::status::StatusInputs;
use crusty_crawler::text::contains_char;
use crusty_crawler::text::decimal_string;
use crusty_crawler::text::push_lines;
use crusty_crawler::text::push_prefixed;
use crusty_crawler::text::same_text;

fn store_with_token(token: &str) -> AuthManager {
    let mut store = AuthManager::new("crusty_auth.json", None).unwrap();
    let outcome = store.complete_registration(
        "alice",
        "a@x.com",
        token,
        Ok("$2a$04$UuTkLRZZ6QofpDOlMz32MuuxEHA43WOemOYHPz6.SjsVsyO1tDU96".to_string()),
        "2025-06-01T12:00:00+00:00".to_string(),
    );
    assert_eq!(outcome, Ok(()));
    store
}

fn totals(name: &str, received: u64, transmitted: u64) -> InterfaceTotals {
    InterfaceTotals { name: name.to_string(), received, transmitted }
}

fn triple(totals: &InterfaceTotals) -> (String, u64, u64) {
    (totals.name.clone(), totals.received, totals.transmitted)
}

#[test]
fn numbers_are_written_in_decimal() {
    assert_eq!(decimal_string(0), "0");
    assert_eq!(decimal_string(7), "7");
    assert_eq!(decimal_string(10), "10");
    assert_eq!(decimal_string(1234567890), "1234567890");
    assert_eq!(decimal_string(u64::MAX), "18446744073709551615");
}

#[test]
fn a_character_is_found_wherever_it_stands() {
    assert!(contains_char("a@x.com", '@'));
    assert!(contains_char("@", '@'));
    assert!(contains_char("end@", '@'));
    assert!(!contains_char("a.x.com", '@'));
    assert!(!contains_char("", '@'));
    assert!(contains_char("gr\u{fc}n@x", '@'));
}

#[test]
fn texts_are_compared_character_by_character() {
    assert!(same_text("", ""));
    assert!(same_text("tok12345", "tok12345"));
    assert!(!same_text("tok12345", "tok1234"));
    assert!(!same_text("tok1234", "tok12345"));
    assert!(!same_text("tok12345", "tok12346"));
    assert!(!same_text("Alice", "alice"));
    assert!(same_text("gr\u{fc}n", "gr\u{fc}n"));
}

#[test]
fn lines_are_appended_between_prefix_and_line_feed() {
    let mut out = "head\n".to_string();
    push_lines(&mut out, "  ", &vec!["one".to_string(), "two".to_string()]);
    assert_eq!(out, "head\n  one\n  two\n");
    push_lines(&mut out, "> ", &vec![]);
    assert_eq!(out, "head\n  one\n  two\n");
}

#[test]
fn prefixed_items_stop_at_the_limit() {
    let items = vec!["a".to_string(), "b".to_string(), "c".to_string()];
    let mut out = vec!["first".to_string()];
    push_prefixed(&mut out, "- ", &items, 2);
    assert_eq!(out, vec!["first".to_string(), "- a".to_string(), "- b".to_string()]);
    push_prefixed(&mut out, "+ ", &items, 5);
    assert_eq!(out.len(), 6);
    assert_eq!(out[5], "+ c");
    push_prefixed(&mut out, "+ ", &items, 0);
    assert_eq!(out.len(), 6);
}

#[test]
fn interface_totals_are_reported_in_whole_megabytes() {
    let lines = network_info(&vec![
        totals("eth0", 5 * 1024 * 1024 + 1024 * 1024 - 1, 1024 * 1024),
        totals("lo", 1024 * 1024 - 1, 0),
    ]);
    assert_eq!(
        lines,
        vec![
            "eth0: 5 MB (down) / 1 MB (Up)".to_string(),
            "lo: 0 MB (down) / 0 MB (Up)".to_string(),
        ]
    );
    assert!(network_info(&vec![]).is_empty());
}

#[test]
fn traffic_is_the_difference_of_two_measurements() {
    let previous = vec![totals("eth0", 1000, 500), totals("lo", 10, 10), totals("gone", 1, 1)];
    let current = vec![totals("lo", 15, 10), totals("new", 7, 7), totals("eth0", 4000, 499)];
    let traffic = network_traffic(&previous, &current);
    let seen: Vec<(String, u64, u64)> = traffic.iter().map(triple).collect();
    assert_eq!(
        seen,
        vec![("lo".to_string(), 5, 0), ("eth0".to_string(), 3000, 0)]
    );
}

#[test]
fn traffic_goes_by_the_first_measurement_of_a_name() {
    let previous = vec![totals("eth0", 100, 100), totals("eth0", 900, 900)];
    let current = vec![totals("eth0", 1000, 1000)];
    let traffic = network_traffic(&previous, &current);
    assert_eq!(traffic.len(), 1);
    assert_eq!(triple(&traffic[0]), ("eth0".to_string(), 900, 900));
    assert!(network_traffic(&vec![], &current).is_empty());
    assert!(network_traffic(&previous, &vec![]).is_empty());
}

#[test]
fn each_component_gets_a_line() {
    let lines = check_components(&vec![
        ComponentReading { label: "CPU".to_string(), temperature: Some("54.5".to_string()) },
        ComponentReading { label: "Battery".to_string(), temperature: None },
    ]);
    assert_eq!(
        lines,
        vec!["CPU: 54.5°C".to_string(), "Battery: Temperature Unavailable".to_string()]
    );
}

#[test]
fn no_component_is_reported_as_such() {
    assert_eq!(
        check_components(&vec![]),
        vec!["No system components were detected.".to_string()]
    );
}

#[test]
fn the_report_holds_every_section() {
    let store = store_with_token("tok12345");
    let mut cache = HardwareMonitorState::default();
    update_hardware_info(&mut cache, Err("no access".to_string()), 0);
    let inputs = StatusInputs {
        system_name: "\"Ubuntu\"".to_string(),
        used_memory: 3 * 1024 * 1024 * 1024 + 5,
        cpu_usage: "12.5".to_string(),
        network: Ok(vec!["eth0: 5 MB (down) / 1 MB (Up)".to_string()]),
        traffic: Ok(vec!["eth0: 1.0 kB/s ↓ / 0.5 kB/s ↑".to_string()]),
        components: Ok(vec!["CPU: 54.5°C".to_string(), "GPU: 60.0°C".to_string()]),
        disks: Ok(vec!["\"sda1\"".to_string()]),
    };
    assert_eq!(
        status(&inputs, &cache, &store),
        "System name: \"Ubuntu\"\n\
         Memory in Use: 3072 MB\n\
         CPU usage: 12.5%\n\
         \n=== Power Information ===\n\
         Error querying hardware: no access\
         \n=== Thermal Information ===\n\
         Error querying hardware: no access\
         \nNetwork Statistics (Total):\n  eth0: 5 MB (down) / 1 MB (Up)\n\
         \nCurrent Network Traffic:\n  eth0: 1.0 kB/s ↓ / 0.5 kB/s ↑\n\
         \nComponents:\n  CPU: 54.5°C\n  GPU: 60.0°C\n\
         \nDisks:\n  \"sda1\"\n\
         \nAccess URL: http://localhost:3000/?token=tok12345"
    );
}

#[test]
fn a_failed_collector_leaves_an_error_line_and_the_rest_stands() {
    let store = AuthManager::new("crusty_auth.json", None).unwrap();
    let cache = HardwareMonitorState::default();
    let inputs = StatusInputs {
        system_name: "\"\"".to_string(),
        used_memory: 0,
        cpu_usage: "0.0".to_string(),
        network: Err("no permission".to_string()),
        traffic: Ok(vec![]),
        components: Ok(vec![]),
        disks: Err("no disks readable".to_string()),
    };
    assert_eq!(
        status(&inputs, &cache, &store),
        "System name: \"\"\n\
         Memory in Use: 0 MB\n\
         CPU usage: 0.0%\n\
         \n=== Power Information ===\nPower info not available\n\
         \n=== Thermal Information ===\nThermal info not available\n\
         \nError getting network stats: no permission\n\
         \nCurrent Network Traffic:\n\
         \nComponents:\nNo Components Found\n\
         \nError checking disks: no disks readable\n\
         \nAccess URL: http://localhost:3000/?token="
    );
}

#[test]
fn every_collector_has_its_own_error_line() {
    let store = AuthManager::new("crusty_auth.json", None).unwrap();
    let cache = HardwareMonitorState::default();
    let inputs = StatusInputs {
        system_name: "host".to_string(),
        used_memory: 1024 * 1024,
        cpu_usage: "1.0".to_string(),
        network: Ok(vec![]),
        traffic: Err("first".to_string()),
        components: Err("second".to_string()),
        disks: Ok(vec![]),
    };
    let report = status(&inputs, &cache, &store);
    assert!(report.contains("\nNetwork Statistics (Total):\n\nError getting network traffic: first\n"));
    assert!(report.contains("\nError checking components: second\n\nDisks:\nNo Disks Found\n"));
    assert!(report.starts_with("System name: host\nMemory in Use: 1 MB\n"));
}
