use plugin_bridge::error::LoadError;
use plugin_bridge::instance::ProcMacroInstance;
use plugin_bridge::resolve::resolve_entry_points;
use plugin_bridge::resolve::EntryPoint;
use plugin_bridge::resolve::lookup_order;
use plugin_bridge::token::TokenText;
use plugin_bridge::PROC_MACRO_BUILD_PROFILE;

#[test]
fn token_text_round_trips_natively() {
    let t = TokenText::new(String::from("fn foo() {}"));
    assert_eq!(t.as_str(), "fn foo() {}");
    assert!(!t.is_empty());
    let e = TokenText::empty();
    assert!(e.is_empty());
    assert_eq!(e.as_str(), "");
}

#[test]
fn wire_safety_is_decided_by_nul_bytes() {
    let plain = TokenText::new(String::from("foo"));
    assert!(plain.is_wire_safe());
    let empty = TokenText::empty();
    assert!(empty.is_wire_safe());
    let mut with_nul = String::from("fo");
    with_nul.push('\0');
    with_nul.push('o');
    let bad = TokenText::new(with_nul);
    assert!(!bad.is_wire_safe());
}

#[test]
fn symbol_names_are_fixed() {
    assert_eq!(EntryPoint::Expand.symbol_name(), "expand");
    assert_eq!(EntryPoint::FreeResult.symbol_name(), "free_result");
    assert_eq!(EntryPoint::AuxDataCallback.symbol_name(), "aux_data_callback");
    let order = lookup_order();
    assert_eq!(
        order,
        vec![EntryPoint::Expand, EntryPoint::FreeResult, EntryPoint::AuxDataCallback]
    );
}

#[test]
fn resolution_succeeds_with_all_three_symbols() {
    let r = resolve_entry_points(Some(10u32), Some(20u32), Some(30u32));
    let set = r.ok().expect("all three symbols present");
    assert_eq!(set.expand, 10);
    assert_eq!(set.free_result, 20);
    assert_eq!(set.aux_data_callback, 30);
}

#[test]
fn resolution_fails_naming_the_first_missing_symbol() {
    let r = resolve_entry_points::<u32, u32, u32>(None, Some(20), Some(30));
    let e = r.err().expect("expand is missing");
    assert_eq!(e.missing_symbol(), Some(EntryPoint::Expand));
    assert_eq!(e.message(), "failed to load expand function for procedural macro");

    let r = resolve_entry_points::<u32, u32, u32>(Some(10), None, Some(30));
    let e = r.err().expect("free_result is missing");
    assert_eq!(e.missing_symbol(), Some(EntryPoint::FreeResult));
    assert_eq!(e.message(), "failed to load free_result function for procedural macro");

    let r = resolve_entry_points::<u32, u32, u32>(Some(10), Some(20), None);
    let e = r.err().expect("aux_data_callback is missing");
    assert_eq!(e.missing_symbol(), Some(EntryPoint::AuxDataCallback));
    assert_eq!(
        e.message(),
        "failed to load aux_data_callback function for procedural macro"
    );

    let r = resolve_entry_points::<u32, u32, u32>(None, None, None);
    let e = r.err().expect("everything is missing");
    assert_eq!(e.missing_symbol(), Some(EntryPoint::Expand));
}

#[test]
fn open_errors_are_distinct_from_missing_symbol_errors() {
    let open = LoadError::Open { message: String::from("no such file or directory") };
    assert!(!open.is_missing_symbol());
    assert_eq!(open.missing_symbol(), None);
    assert_eq!(open.message(), "no such file or directory");

    let missing = LoadError::MissingSymbol { symbol: EntryPoint::Expand };
    assert!(missing.is_missing_symbol());
    assert_ne!(open.is_missing_symbol(), missing.is_missing_symbol());
}

#[test]
fn instance_is_built_only_from_a_full_entry_point_set() {
    let r = ProcMacroInstance::try_new(
        String::from("my_macro_pkg"),
        (),
        Some(1u64),
        Some(2u64),
        Some(3u64),
    );
    let inst = r.ok().expect("all symbols present");
    assert_eq!(inst.package_id(), "my_macro_pkg");
    assert_eq!(inst.declared_attributes(), vec![String::from("my_macro_pkg")]);
    assert_eq!(inst.vtable().expand, 1);
    assert_eq!(inst.vtable().free_result, 2);
    assert_eq!(inst.vtable().aux_data_callback, 3);

    let r = ProcMacroInstance::<(), u64, u64, u64>::try_new(
        String::from("my_macro_pkg"),
        (),
        Some(1u64),
        None,
        Some(3u64),
    );
    let e = r.err().expect("free_result is missing");
    assert_eq!(e.missing_symbol(), Some(EntryPoint::FreeResult));
}

#[test]
fn build_profile_is_release() {
    assert_eq!(PROC_MACRO_BUILD_PROFILE, "release");
}
