use cpu_clock_monitor::numeral::Reading;
use cpu_clock_monitor::sample::{
    get_cpu_frequency, CpuFrequency, SampleError, E_CLUSTER_PATTERN, NUMERAL_GROUP,
    P_CLUSTER_PATTERN,
};

fn mhz(reading: &Reading) -> f64 {
    reading.as_str().parse::<f64>().unwrap()
}

fn sample_of(text: &str) -> CpuFrequency {
    get_cpu_frequency(text.as_bytes().to_vec(), 1_700_000_000).unwrap()
}

#[test]
fn both_fields_are_extracted() {
    let sample = sample_of(
        "... P-Cluster HW active frequency: 3504.00 MHz ... E-Cluster HW active frequency: 2064.00 MHz ...",
    );
    assert_eq!(sample.p_cluster.as_str(), "3504.00");
    assert_eq!(sample.e_cluster.as_str(), "2064.00");
    assert_eq!(mhz(&sample.p_cluster), 3504.0);
    assert_eq!(mhz(&sample.e_cluster), 2064.0);
}

#[test]
fn fields_are_found_in_a_full_report() {
    let report = "*** Sampled system activity ***\n\n\
        E-Cluster Online: 100%\n\
        E-Cluster HW active frequency: 1128 MHz\n\
        E-Cluster HW active residency:  45.12%\n\
        P-Cluster Online: 100%\n\
        P-Cluster HW active frequency: 2988.5 MHz\n\
        CPU Power: 1234 mW\n";
    let sample = sample_of(report);
    assert_eq!(mhz(&sample.p_cluster), 2988.5);
    assert_eq!(mhz(&sample.e_cluster), 1128.0);
}

#[test]
fn text_without_fields_reads_zero() {
    let sample = sample_of("nothing of interest here");
    assert_eq!(sample.p_cluster.as_str(), "0");
    assert_eq!(sample.e_cluster.as_str(), "0");
    assert_eq!(mhz(&sample.p_cluster), 0.0);
    assert_eq!(mhz(&sample.e_cluster), 0.0);
}

#[test]
fn empty_output_reads_zero() {
    let sample = get_cpu_frequency(Vec::new(), 0).unwrap();
    assert_eq!(mhz(&sample.p_cluster), 0.0);
    assert_eq!(mhz(&sample.e_cluster), 0.0);
    assert_eq!(sample.timestamp, 0);
}

#[test]
fn missing_performance_field_leaves_the_other() {
    let sample = sample_of("E-Cluster HW active frequency: 2064.00 MHz");
    assert_eq!(mhz(&sample.p_cluster), 0.0);
    assert_eq!(mhz(&sample.e_cluster), 2064.0);
}

#[test]
fn missing_efficiency_field_leaves_the_other() {
    let sample = sample_of("P-Cluster HW active frequency: 3504.00 MHz");
    assert_eq!(mhz(&sample.p_cluster), 3504.0);
    assert_eq!(mhz(&sample.e_cluster), 0.0);
}

#[test]
fn field_without_a_number_reads_zero() {
    let sample = sample_of(
        "P-Cluster HW active frequency:  MHz\nE-Cluster HW active frequency: fast MHz",
    );
    assert_eq!(mhz(&sample.p_cluster), 0.0);
    assert_eq!(mhz(&sample.e_cluster), 0.0);
}

#[test]
fn field_without_its_unit_reads_zero() {
    let sample = sample_of("P-Cluster HW active frequency: 3504.00 GHz");
    assert_eq!(mhz(&sample.p_cluster), 0.0);
}

#[test]
fn digits_of_another_script_are_malformed() {
    // The pattern's digit class takes any decimal digit; a numeral takes ASCII only.
    let sample = sample_of(
        "P-Cluster HW active frequency: \u{663}\u{665}\u{660}\u{664} MHz\n\
         E-Cluster HW active frequency: 2064 MHz",
    );
    assert_eq!(sample.p_cluster.as_str(), "0");
    assert_eq!(mhz(&sample.e_cluster), 2064.0);
}

#[test]
fn the_first_occurrence_of_a_field_counts() {
    let sample = sample_of(
        "P-Cluster HW active frequency: 1000 MHz\nP-Cluster HW active frequency: 2000 MHz",
    );
    assert_eq!(mhz(&sample.p_cluster), 1000.0);
}

#[test]
fn a_trailing_point_is_kept() {
    let sample = sample_of("P-Cluster HW active frequency: 3504. MHz");
    assert_eq!(sample.p_cluster.as_str(), "3504.");
    assert_eq!(mhz(&sample.p_cluster), 3504.0);
}

#[test]
fn the_sample_is_not_the_whole_text() {
    let text = "P-Cluster HW active frequency: 12 MHz";
    let sample = sample_of(text);
    assert_ne!(sample.p_cluster.as_str(), text);
    assert_eq!(sample.p_cluster.as_str(), "12");
}

#[test]
fn the_timestamp_is_kept() {
    let sample = get_cpu_frequency(b"x".to_vec(), 1_700_000_123).unwrap();
    assert_eq!(sample.timestamp, 1_700_000_123);
}

#[test]
fn output_that_is_not_utf8_is_refused() {
    let mut bytes = b"P-Cluster HW active frequency: 3504.00 MHz".to_vec();
    bytes.push(0xff);
    let result = get_cpu_frequency(bytes, 1);
    assert!(matches!(result, Err(SampleError::InvalidUtf8(_))));
}

#[test]
fn utf8_error_describes_itself() {
    let result = get_cpu_frequency(vec![b'a', 0xc3], 1);
    match result {
        Err(SampleError::InvalidUtf8(e)) => {
            assert_eq!(format!("{}", e), "incomplete utf-8 byte sequence from index 1");
        }
        _ => panic!("expected a UTF-8 error"),
    }
}

#[test]
fn text_beyond_ascii_is_searched() {
    let sample = sample_of("température — P-Cluster HW active frequency: 3504.25 MHz — fin");
    assert_eq!(mhz(&sample.p_cluster), 3504.25);
}

#[test]
fn the_patterns_are_fixed() {
    assert_eq!(P_CLUSTER_PATTERN, r"P-Cluster HW active frequency: (\d+\.?\d*) MHz");
    assert_eq!(E_CLUSTER_PATTERN, r"E-Cluster HW active frequency: (\d+\.?\d*) MHz");
    assert_eq!(NUMERAL_GROUP, 1);
}

#[test]
fn valid_output_is_never_refused() {
    let outputs = [
        "",
        "no fields",
        "P-Cluster HW active frequency: 3504.00 MHz",
        "E-Cluster HW active frequency: 2064.00 MHz",
        "P-Cluster HW active frequency: abc MHz\nE-Cluster HW active frequency: -5 MHz",
        "P-Cluster HW active frequency: nan MHz\nE-Cluster HW active frequency: 12.5.7 MHz",
        "E-Cluster HW active frequency: 1 MHz\nP-Cluster HW active frequency: 2 MHz",
    ];
    for output in outputs {
        assert!(get_cpu_frequency(output.as_bytes().to_vec(), 3).is_ok());
    }
}

#[test]
fn a_malformed_field_leaves_the_other() {
    let sample = sample_of(
        "P-Cluster HW active frequency: abc MHz\nE-Cluster HW active frequency: 2064.5 MHz",
    );
    assert_eq!(mhz(&sample.p_cluster), 0.0);
    assert_eq!(mhz(&sample.e_cluster), 2064.5);

    let sample = sample_of(
        "P-Cluster HW active frequency: 3504.25 MHz\nE-Cluster HW active frequency: nan MHz",
    );
    assert_eq!(mhz(&sample.p_cluster), 3504.25);
    assert_eq!(mhz(&sample.e_cluster), 0.0);
}

#[test]
fn the_order_of_the_fields_does_not_matter() {
    let sample = sample_of(
        "E-Cluster HW active frequency: 1128 MHz\nP-Cluster HW active frequency: 2988 MHz",
    );
    assert_eq!(mhz(&sample.p_cluster), 2988.0);
    assert_eq!(mhz(&sample.e_cluster), 1128.0);
}

#[test]
fn bad_bytes_after_the_fields_still_refuse_the_output() {
    let mut bytes = b"P-Cluster HW active frequency: 3504.00 MHz\n".to_vec();
    bytes.extend_from_slice(b"E-Cluster HW active frequency: 2064.00 MHz\n");
    bytes.extend_from_slice(&[0xf0, 0x28]);
    assert!(matches!(get_cpu_frequency(bytes, 1), Err(SampleError::InvalidUtf8(_))));
}

#[test]
fn a_number_with_several_points_is_read_up_to_the_unit() {
    // The pattern is searched for anywhere: `5.7 MHz` after the label does not
    // follow it directly, so nothing is captured.
    let sample = sample_of("P-Cluster HW active frequency: 12.5.7 MHz");
    assert_eq!(mhz(&sample.p_cluster), 0.0);
}

#[test]
fn sample_from_captures_reads_each_field_alone() {
    let sample = CpuFrequency::from_captures(Some("3504.00".to_string()), None, 7);
    assert_eq!(sample.p_cluster.as_str(), "3504.00");
    assert_eq!(sample.e_cluster.as_str(), "0");
    assert_eq!(sample.timestamp, 7);

    let sample = CpuFrequency::from_captures(Some("".to_string()), Some("2064".to_string()), 8);
    assert_eq!(sample.p_cluster.as_str(), "0");
    assert_eq!(sample.e_cluster.as_str(), "2064");
    assert_eq!(sample.timestamp, 8);
}
