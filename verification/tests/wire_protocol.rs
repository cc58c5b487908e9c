use plugin_bridge::outcome::MacroOutcome;
use plugin_bridge::outcome::DiagnosticNote;
use plugin_bridge::outcome::Severity;
use plugin_bridge::protocol::AuxFlow;
use plugin_bridge::protocol::AuxStep;
use plugin_bridge::protocol::ExpandFlow;
use plugin_bridge::protocol::ExpandStep;
use plugin_bridge::token::TokenText;
use plugin_bridge::wire::aux_from_wire;
use plugin_bridge::wire::aux_list_from_wire;
use plugin_bridge::wire::aux_list_release;
use plugin_bridge::wire::aux_list_to_wire;
use plugin_bridge::wire::aux_to_wire;
use plugin_bridge::wire::token_to_wire_checked;

#[test]
fn aux_data_round_trips_through_the_wire() {
    let a = aux_to_wire(vec![1u8, 2, 3]);
    assert_eq!(aux_from_wire(a), Some(vec![1u8, 2, 3]));
    let empty = aux_to_wire(Vec::new());
    assert_eq!(aux_from_wire(empty), Some(Vec::new()));
}

#[test]
fn aux_lists_round_trip_through_the_wire() {
    let items = vec![vec![1u8, 2], Vec::new(), vec![255u8]];
    let slice = aux_list_to_wire(items);
    let back = aux_list_from_wire(slice);
    assert_eq!(
        back,
        vec![Some(vec![1u8, 2]), Some(Vec::new()), Some(vec![255u8])]
    );
}

#[test]
fn empty_aux_list_still_builds_and_releases_one_slice() {
    let slice = aux_list_to_wire(Vec::new());
    let back = aux_list_from_wire(slice);
    assert_eq!(back, Vec::new());
    let other = aux_list_to_wire(Vec::new());
    aux_list_release(other);
}

#[test]
fn wire_conversion_refuses_text_with_nul_bytes() {
    let mut with_nul = String::from("fn f");
    with_nul.push('\0');
    let bad = TokenText::new(with_nul);
    assert!(token_to_wire_checked(&bad).is_none());
    let good = TokenText::new(String::from("fn f() {}"));
    assert!(token_to_wire_checked(&good).is_some());
}

#[test]
fn expand_flow_hands_out_the_protocol_once_in_order() {
    let mut flow = ExpandFlow::begin();
    let mut steps = Vec::new();
    while let Some(step) = flow.next_step() {
        steps.push(step);
    }
    assert!(flow.is_complete());
    assert_eq!(
        steps,
        vec![
            ExpandStep::ConvertInput,
            ExpandStep::CallExpand,
            ExpandStep::ReleaseInput,
            ExpandStep::ConvertOutput,
            ExpandStep::CallFreeResult,
        ]
    );
    assert_eq!(flow.next_step(), None);
}

#[test]
fn uppercase_plugin_scenario_frees_exactly_once() {
    // A driver following the flow, with the plugin's transformation played
    // by an uppercasing function: input "foo" comes back as "FOO", and the
    // callee-allocated result is freed exactly once.
    let input = TokenText::new(String::from("foo"));
    let mut flow = ExpandFlow::begin();
    let mut wire_allocs: usize = 0;
    let mut wire_releases: usize = 0;
    let mut free_result_calls: usize = 0;
    let mut callee_output: Option<String> = None;
    let mut outcome: Option<MacroOutcome> = None;
    while let Some(step) = flow.next_step() {
        match step {
            ExpandStep::ConvertInput => {
                assert!(token_to_wire_checked(&input).is_some());
                wire_allocs += 1;
            }
            ExpandStep::CallExpand => {
                callee_output = Some(input.as_str().to_uppercase());
            }
            ExpandStep::ReleaseInput => {
                wire_releases += 1;
            }
            ExpandStep::ConvertOutput => {
                let text = callee_output.clone().expect("expand has run");
                outcome = Some(MacroOutcome::new(TokenText::new(text)));
            }
            ExpandStep::CallFreeResult => {
                free_result_calls += 1;
            }
        }
    }
    let outcome = outcome.expect("transaction completed");
    assert_eq!(outcome.token.as_str(), "FOO");
    assert_eq!(wire_allocs, 1);
    assert_eq!(wire_releases, 1);
    assert_eq!(free_result_calls, 1);
}

#[test]
fn aux_flow_converts_once_per_element_and_releases_once() {
    let mut flow = AuxFlow::begin(2);
    let mut steps = Vec::new();
    while let Some(step) = flow.next_step() {
        steps.push(step);
    }
    assert!(flow.is_complete());
    assert_eq!(
        steps,
        vec![
            AuxStep::ConvertElement,
            AuxStep::ConvertElement,
            AuxStep::MakeSlice,
            AuxStep::CallAuxCallback,
            AuxStep::ReleaseReturnedSlice,
        ]
    );
}

#[test]
fn empty_aux_flow_converts_nothing_and_releases_once() {
    let mut flow = AuxFlow::begin(0);
    let mut steps = Vec::new();
    while let Some(step) = flow.next_step() {
        steps.push(step);
    }
    assert_eq!(
        steps,
        vec![AuxStep::MakeSlice, AuxStep::CallAuxCallback, AuxStep::ReleaseReturnedSlice]
    );
    let conversions = steps.iter().filter(|s| **s == AuxStep::ConvertElement).count();
    let releases = steps.iter().filter(|s| **s == AuxStep::ReleaseReturnedSlice).count();
    assert_eq!(conversions, 0);
    assert_eq!(releases, 1);
}

#[test]
fn outcome_reports_error_diagnostics() {
    let ok = MacroOutcome::new(TokenText::new(String::from("x")));
    assert!(!ok.has_error());
    let mut with_warn = MacroOutcome::new(TokenText::empty());
    with_warn.diagnostics.push(DiagnosticNote {
        message: String::from("looks odd"),
        severity: Severity::Warning,
    });
    assert!(!with_warn.has_error());
    let mut failed = with_warn;
    failed.diagnostics.push(DiagnosticNote {
        message: String::from("broken"),
        severity: Severity::Error,
    });
    assert!(failed.has_error());
    let with_aux = MacroOutcome::new(TokenText::empty()).with_aux_data(vec![7u8]);
    assert_eq!(with_aux.aux_data, Some(vec![7u8]));
}
