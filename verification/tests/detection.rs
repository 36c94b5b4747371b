use e_core_detection::detect::{build_layout, finish_detection, logical_cpu_count, plan_detection};
use e_core_detection::labels::parse_captured_label;
use e_core_detection::{
    CorePELayout, CoreRange, CoreType, CoreTypeFetchError, DetectionPlan, ProbeOutcome,
};

fn range(start: u8, end: u8) -> CoreRange {
    CoreRange { start, end }
}

#[test]
fn parse_p_core_exact() {
    assert_eq!(CoreType::from_string("P_CORE"), Some(CoreType::P));
}

#[test]
fn parse_e_core_exact() {
    assert_eq!(CoreType::from_string("E_CORE"), Some(CoreType::E));
}

#[test]
fn parse_is_exact_and_case_sensitive() {
    assert_eq!(CoreType::from_string("p_core"), None);
    assert_eq!(CoreType::from_string("X_CORE"), None);
    assert_eq!(CoreType::from_string("P_CORE "), None);
    assert_eq!(CoreType::from_string(" P_CORE"), None);
    assert_eq!(CoreType::from_string("P_CORE\n"), None);
    assert_eq!(CoreType::from_string(""), None);
    assert_eq!(CoreType::from_string("P_CORES"), None);
}

#[test]
fn captured_labels_are_trimmed() {
    assert_eq!(parse_captured_label("P_CORE\n"), Some(CoreType::P));
    assert_eq!(parse_captured_label("  E_CORE \r\n"), Some(CoreType::E));
    assert_eq!(parse_captured_label("\tP_CORE"), Some(CoreType::P));
    assert_eq!(parse_captured_label("X_CORE\n"), None);
    assert_eq!(parse_captured_label("P_ CORE"), None);
    assert_eq!(parse_captured_label("   "), None);
    assert_eq!(parse_captured_label(""), None);
}

#[test]
fn layout_of_six_p_and_two_e() {
    let labels = vec![
        CoreType::P,
        CoreType::P,
        CoreType::P,
        CoreType::P,
        CoreType::P,
        CoreType::P,
        CoreType::E,
        CoreType::E,
    ];
    let layout = build_layout(labels).unwrap();
    assert_eq!(layout.p_cores, range(0, 5));
    assert_eq!(layout.e_cores, range(6, 7));
}

#[test]
fn layout_without_p_cores_is_an_error() {
    let r = build_layout(vec![CoreType::E, CoreType::E]);
    assert_eq!(r, Err(CoreTypeFetchError::UnknownCoreType));
}

#[test]
fn layout_of_single_p_core() {
    let layout = build_layout(vec![CoreType::P]).unwrap();
    assert_eq!(layout.p_cores, range(0, 0));
    // The E range is empty: its start lies past its end.
    assert!(layout.e_cores.start > layout.e_cores.end);
}

#[test]
fn layout_of_all_p_cores() {
    let layout = build_layout(vec![CoreType::P, CoreType::P, CoreType::P]).unwrap();
    assert_eq!(layout.p_cores, range(0, 2));
    assert_eq!(layout.e_cores.start, 3);
    assert!(layout.e_cores.start > layout.e_cores.end);
}

#[test]
fn layout_ranges_partition_the_index_domain() {
    for n in 1u16..=32 {
        for p in 1u16..=n {
            let mut labels = Vec::new();
            for i in 0..n {
                labels.push(if i < p { CoreType::P } else { CoreType::E });
            }
            let layout = build_layout(labels).unwrap();
            for i in 0..n as i32 + 2 {
                let in_p = layout.p_cores.start as i32 <= i && i <= layout.p_cores.end as i32;
                let in_e = layout.e_cores.start as i32 <= i && i <= layout.e_cores.end as i32;
                if i < n as i32 {
                    assert!(in_p ^ in_e, "index {i} must lie in exactly one range");
                } else {
                    assert!(!in_p && !in_e, "index {i} lies past the domain");
                }
            }
        }
    }
}

#[test]
fn formatted_string_two_lines() {
    let layout = CorePELayout::new(5, 8);
    assert_eq!(layout.formatted_string(), "P CORES: 0..5\nE Cores: 6..7");
}

#[test]
fn formatted_string_wide_ranges() {
    let layout = CorePELayout::new(99, 255);
    assert_eq!(
        layout.formatted_string(),
        "P CORES: 0..99\nE Cores: 100..254"
    );
    let layout = CorePELayout::new(0, 1);
    assert_eq!(layout.formatted_string(), "P CORES: 0..0\nE Cores: 1..0");
}

#[test]
fn non_hybrid_is_rejected_before_probing() {
    assert_eq!(
        plan_detection(false),
        DetectionPlan::Reject(CoreTypeFetchError::NotHybridCPU)
    );
}

#[test]
fn hybrid_plans_one_probe_per_cpu() {
    match plan_detection(true) {
        DetectionPlan::Probe(n) => assert!(n >= 1),
        other => panic!("expected a probe plan, got {other:?}"),
    }
}

#[test]
fn eight_captures_give_the_partition() {
    let mut outcomes = Vec::new();
    for _ in 0..6 {
        outcomes.push(ProbeOutcome::Captured(String::from("P_CORE\n")));
    }
    for _ in 0..2 {
        outcomes.push(ProbeOutcome::Captured(String::from("E_CORE\n")));
    }
    let layout = finish_detection(outcomes).unwrap();
    assert_eq!(layout.p_cores, range(0, 5));
    assert_eq!(layout.e_cores, range(6, 7));
}

#[test]
fn one_spawn_failure_fails_the_whole_batch() {
    let outcomes = vec![
        ProbeOutcome::Captured(String::from("P_CORE\n")),
        ProbeOutcome::SpawnFailed,
        ProbeOutcome::Captured(String::from("E_CORE\n")),
    ];
    assert_eq!(
        finish_detection(outcomes),
        Err(CoreTypeFetchError::TasksetFailure)
    );
}

#[test]
fn spawn_failure_outranks_a_bad_label() {
    let outcomes = vec![
        ProbeOutcome::Captured(String::from("X_CORE\n")),
        ProbeOutcome::SpawnFailed,
    ];
    assert_eq!(
        finish_detection(outcomes),
        Err(CoreTypeFetchError::TasksetFailure)
    );
}

#[test]
fn unknown_label_fails_the_whole_batch() {
    let outcomes = vec![
        ProbeOutcome::Captured(String::from("P_CORE\n")),
        ProbeOutcome::Captured(String::from("X_CORE\n")),
    ];
    assert_eq!(
        finish_detection(outcomes),
        Err(CoreTypeFetchError::UnknownCoreType)
    );
}

#[test]
fn runs_with_the_same_verdicts_agree() {
    // However a probe run was scheduled or captured, the verdict at each
    // index alone decides the layout: differently decorated captures of the
    // same labels give the same result.
    let first = vec![
        ProbeOutcome::Captured(String::from("P_CORE\n")),
        ProbeOutcome::Captured(String::from("P_CORE\n")),
        ProbeOutcome::Captured(String::from("E_CORE\n")),
    ];
    let second = vec![
        ProbeOutcome::Captured(String::from(" P_CORE")),
        ProbeOutcome::Captured(String::from("P_CORE\r\n")),
        ProbeOutcome::Captured(String::from("\tE_CORE\t")),
    ];
    assert_eq!(finish_detection(first), finish_detection(second));
}

#[test]
fn at_least_one_logical_cpu() {
    assert!(logical_cpu_count() >= 1);
}
