use telemetry_core::platform::{get_apple_chip_name, get_sysctl_string, get_sysctl_u32};
use telemetry_core::topology::{
    detect_apple_silicon_configuration, fallback_core_count_detection, parse_apple_chip_model,
    try_chip_lookup_detection, try_sysctl_detection, DetectionMethod,
};

#[test]
fn parses_vendor_prefixed_chip_models() {
    assert_eq!(parse_apple_chip_model("Apple M3 Max"), Some("M3 Max".to_string()));
    assert_eq!(parse_apple_chip_model("Apple M4"), Some("M4".to_string()));
    assert_eq!(parse_apple_chip_model("Intel Core i7"), None);
    assert_eq!(parse_apple_chip_model("Apple A17"), None);
    assert_eq!(parse_apple_chip_model("Apple M"), None);
}

#[test]
fn chip_table_matches_exactly() {
    assert_eq!(try_chip_lookup_detection("M3 Max", 14), Some((10, 4)));
    assert_eq!(try_chip_lookup_detection("M3 Max", 16), Some((12, 4)));
    assert_eq!(try_chip_lookup_detection("M4 Pro", 12), Some((8, 4)));
    assert_eq!(try_chip_lookup_detection("M4 Pro", 14), Some((10, 4)));
    assert_eq!(try_chip_lookup_detection("Unknown", 99), None);
    assert_eq!(try_chip_lookup_detection("M1", 10), None);
}

#[test]
fn sysctl_validation_bounds() {
    assert_eq!(try_sysctl_detection(Some(8), Some(4), 12), Some((8, 4)));
    assert_eq!(try_sysctl_detection(None, Some(4), 12), None);
    assert_eq!(try_sysctl_detection(Some(0), Some(4), 12), None);
    assert_eq!(try_sysctl_detection(Some(25), Some(4), 32), None);
    assert_eq!(try_sysctl_detection(Some(8), Some(9), 32), None);
    assert_eq!(try_sysctl_detection(Some(24), Some(8), 16), None);
}

#[test]
fn fallback_table_and_heuristic() {
    assert_eq!(fallback_core_count_detection(8), (4, 4));
    assert_eq!(fallback_core_count_detection(9), (3, 6));
    assert_eq!(fallback_core_count_detection(24), (16, 8));
    // Unknown totals split roughly 60/40 in favor of performance cores.
    assert_eq!(fallback_core_count_detection(13), (7, 6));
    assert_eq!(fallback_core_count_detection(5), (3, 2));
}

#[test]
fn detection_tier_one_wins_when_hints_accepted() {
    let info = detect_apple_silicon_configuration(14, Some(10), Some(4), Some("Apple M3 Max"));
    assert_eq!(info.detection_method, DetectionMethod::SysctlDynamic);
    assert_eq!(info.p_cores, 10);
    assert_eq!(info.e_cores, 4);
    assert_eq!(info.total_cores, 14);
    assert_eq!(info.chip_name, "M3 Max");
}

#[test]
fn detection_tier_two_on_rejected_hints() {
    let info = detect_apple_silicon_configuration(14, None, None, Some("Apple M3 Max"));
    assert_eq!(info.detection_method, DetectionMethod::ChipLookup);
    assert_eq!(info.p_cores, 10);
    assert_eq!(info.e_cores, 4);
    assert_eq!(info.chip_name, "M3 Max");
}

#[test]
fn detection_tier_three_always_succeeds() {
    let info = detect_apple_silicon_configuration(13, None, None, None);
    assert_eq!(info.detection_method, DetectionMethod::TotalCountHeuristic);
    assert_eq!(info.p_cores, 7);
    assert_eq!(info.e_cores, 6);
    assert_eq!(info.chip_name, "Unknown Apple Silicon");

    let known = detect_apple_silicon_configuration(8, None, None, Some("Apple M9 Mega"));
    assert_eq!(known.detection_method, DetectionMethod::TotalCountHeuristic);
    assert_eq!(known.p_cores, 4);
    assert_eq!(known.e_cores, 4);
    assert_eq!(known.chip_name, "M9 Mega");
}

#[test]
fn detection_tier_one_without_brand_uses_placeholder() {
    let info = detect_apple_silicon_configuration(12, Some(8), Some(4), None);
    assert_eq!(info.detection_method, DetectionMethod::SysctlDynamic);
    assert_eq!(info.chip_name, "Apple Silicon");
}

#[test]
fn platform_probes_report_nothing_here() {
    assert_eq!(get_sysctl_u32("hw.perflevel0.physicalcpu"), None);
    assert_eq!(get_sysctl_string("machdep.cpu.brand_string"), None);
    assert_eq!(get_apple_chip_name(), None);
}
