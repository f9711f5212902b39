use telemetry_core::errors::TelemetryError;
use telemetry_core::parse::parse_macmon_line;

fn bytes(s: &str) -> Vec<u8> {
    s.as_bytes().to_vec()
}

#[test]
fn parses_a_full_record() {
    let line = bytes(
        "{\"timestamp\":\"2024-01-01T00:00:00Z\",\
         \"temp\":{\"cpu_temp_avg\":45.5,\"gpu_temp_avg\":40.25},\
         \"memory\":{\"ram_total\":17179869184,\"ram_usage\":8589934592,\"swap_total\":0,\"swap_usage\":0},\
         \"ecpu_usage\":[1020.5,35.2],\"pcpu_usage\":[3204.0,55.5],\"gpu_usage\":[890.0,12.0],\
         \"cpu_power\":3.275,\"gpu_power\":0.5,\"ane_power\":0.0,\"sys_power\":10.125}",
    );
    let rec = parse_macmon_line(&line).unwrap();
    assert_eq!(rec.timestamp, bytes("2024-01-01T00:00:00Z"));
    let temp = rec.temp.unwrap();
    assert_eq!(temp.cpu_temp_avg_mc, Some(45_500));
    assert_eq!(temp.gpu_temp_avg_mc, Some(40_250));
    let memory = rec.memory.unwrap();
    assert_eq!(memory.ram_total, Some(17_179_869_184));
    assert_eq!(memory.ram_usage, Some(8_589_934_592));
    assert_eq!(memory.swap_total, Some(0));
    assert_eq!(memory.swap_usage, Some(0));
    assert_eq!(rec.ecpu_usage, Some((1_020_500, 35_200)));
    assert_eq!(rec.pcpu_usage, Some((3_204_000, 55_500)));
    assert_eq!(rec.gpu_usage, Some((890_000, 12_000)));
    assert_eq!(rec.cpu_power_mw, Some(3_275));
    assert_eq!(rec.gpu_power_mw, Some(500));
    assert_eq!(rec.ane_power_mw, Some(0));
    assert_eq!(rec.sys_power_mw, Some(10_125));
}

#[test]
fn absent_and_null_fields_stay_absent() {
    let line = bytes("{\"timestamp\":\"t\",\"cpu_power\":null,\"temp\":null}");
    let rec = parse_macmon_line(&line).unwrap();
    assert_eq!(rec.cpu_power_mw, None);
    assert_eq!(rec.temp, None);
    assert_eq!(rec.gpu_power_mw, None);
    assert_eq!(rec.memory, None);
    assert_eq!(rec.pcpu_usage, None);
}

#[test]
fn unknown_members_are_ignored() {
    let line = bytes(
        "{\"timestamp\":\"t\",\"label\":\"abc\",\"flag\":true,\"other\":{\"x\":1.5},\
         \"pair\":[1,2],\"cpu_power\":2.0}",
    );
    let rec = parse_macmon_line(&line).unwrap();
    assert_eq!(rec.cpu_power_mw, Some(2_000));
}

#[test]
fn fraction_digits_beyond_thousandths_truncate() {
    let line = bytes("{\"timestamp\":\"t\",\"cpu_power\":1.23456}");
    let rec = parse_macmon_line(&line).unwrap();
    assert_eq!(rec.cpu_power_mw, Some(1_234));
}

#[test]
fn negative_numbers_parse() {
    let line = bytes("{\"timestamp\":\"t\",\"cpu_power\":-2.5}");
    let rec = parse_macmon_line(&line).unwrap();
    assert_eq!(rec.cpu_power_mw, Some(-2_500));
}

#[test]
fn blanks_between_tokens_are_accepted() {
    let line = bytes("  { \"timestamp\" : \"t\" , \"cpu_power\" : 3.5 }  ");
    let rec = parse_macmon_line(&line).unwrap();
    assert_eq!(rec.cpu_power_mw, Some(3_500));
}

#[test]
fn malformed_lines_are_parse_errors() {
    let cases: Vec<Vec<u8>> = vec![
        bytes(""),
        bytes("not a record"),
        bytes("{\"timestamp\":\"t\""),
        bytes("{\"cpu_power\":1.0}"),
        bytes("{\"timestamp\":\"t\",\"cpu_power\":}"),
        bytes("{\"timestamp\":\"t\",\"cpu_power\":1.}"),
        bytes("{\"timestamp\":\"t\",\"cpu_power\":\"high\"}"),
        bytes("{\"timestamp\":\"t\",\"timestamp\":\"u\"}"),
        bytes("{\"timestamp\":\"t\",\"cpu_power\":1.0,\"cpu_power\":2.0}"),
        bytes("{\"timestamp\":\"t\",\"memory\":{\"ram_usage\":1.5}}"),
        bytes("{\"timestamp\":\"t\",\"memory\":{\"ram_usage\":-1}}"),
        bytes("{\"timestamp\":\"t\",\"pcpu_usage\":[1.0]}"),
        bytes("{\"timestamp\":\"t\"} trailing"),
        bytes("{\"timestamp\":12}"),
    ];
    for line in cases {
        assert_eq!(parse_macmon_line(&line).unwrap_err(), TelemetryError::ParseError);
    }
}

#[test]
fn oversized_numbers_are_malformed() {
    let line = bytes("{\"timestamp\":\"t\",\"cpu_power\":99999999999999999999}");
    assert_eq!(parse_macmon_line(&line).unwrap_err(), TelemetryError::ParseError);
}

#[test]
fn blank_only_lines_are_malformed() {
    assert!(parse_macmon_line(&bytes("   ")).is_err());
    assert!(parse_macmon_line(&bytes("\t\r\n")).is_err());
}

#[test]
fn empty_nested_objects_parse() {
    let line = bytes("{\"timestamp\":\"t\",\"temp\":{},\"memory\":{}}");
    let rec = parse_macmon_line(&line).unwrap();
    let temp = rec.temp.unwrap();
    assert_eq!(temp.cpu_temp_avg_mc, None);
    assert_eq!(temp.gpu_temp_avg_mc, None);
    let memory = rec.memory.unwrap();
    assert_eq!(memory.ram_usage, None);
}
