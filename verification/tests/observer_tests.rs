use power_watch::describe::{
    describe_effective_mode, describe_power_source, describe_saver_status, PowerSourceType,
};
use power_watch::dispatch::{
    decode_setting_value, mode_dispatch, setting_dispatch, SettingPayload, SETTING_CHANGE_EVENT,
};
use power_watch::lifecycle::{NativeEvent, ObserverCore};

fn payload(data_length: u32, data: Vec<u8>) -> SettingPayload {
    SettingPayload { data_length, data }
}

#[test]
fn successful_registration_frees_context_exactly_once_after_unregister() {
    let (core, reclaim_now) = ObserverCore::attach(true);
    // No rollback reclaim inside construction on the success path.
    assert!(!reclaim_now);
    assert!(core.is_registered());
    let actions = core.release();
    // Exactly one unregistration, then exactly one reclaim, in that order.
    assert_eq!(actions, vec![NativeEvent::Unregister, NativeEvent::Reclaim]);
}

#[test]
fn failed_registration_reclaims_in_constructor_and_unregisters_nothing() {
    let (core, reclaim_now) = ObserverCore::attach(false);
    // The rollback reclaim happens synchronously within construction.
    assert!(reclaim_now);
    assert!(!core.is_registered());
    let actions = core.release();
    // Teardown performs zero native calls and never frees a second time.
    assert_eq!(actions, Vec::<NativeEvent>::new());
}

#[test]
fn teardown_of_inert_observer_is_a_no_op() {
    // `release` consumes the observer record, so a second teardown of the
    // same observer does not compile; an observer that is no longer
    // registered yields no actions at all.
    let (core, _) = ObserverCore::attach(false);
    assert_eq!(core.release().len(), 0);
}

#[test]
fn mode_trampoline_with_null_context_does_not_dispatch() {
    assert_eq!(mode_dispatch(false, 3), None);
    assert_eq!(mode_dispatch(true, 3), Some(3));
}

#[test]
fn setting_trampoline_with_null_context_or_payload_does_not_dispatch() {
    let p = payload(4, vec![1, 0, 0, 0]);
    assert_eq!(setting_dispatch(SETTING_CHANGE_EVENT, false, Some(&p)), None);
    assert_eq!(setting_dispatch(SETTING_CHANGE_EVENT, true, None), None);
}

#[test]
fn setting_trampoline_with_foreign_tag_does_not_dispatch() {
    let p = payload(4, vec![1, 0, 0, 0]);
    assert_eq!(setting_dispatch(SETTING_CHANGE_EVENT + 1, true, Some(&p)), None);
    assert_eq!(setting_dispatch(0, true, Some(&p)), None);
}

#[test]
fn setting_trampoline_skips_every_length_other_than_four() {
    for len in [0u32, 1, 2, 3, 5, 8] {
        let p = payload(len, vec![0xFF; len as usize]);
        assert_eq!(setting_dispatch(SETTING_CHANGE_EVENT, true, Some(&p)), None);
    }
}

#[test]
fn setting_trampoline_decodes_four_byte_values() {
    let one = payload(4, vec![1, 0, 0, 0]);
    assert_eq!(setting_dispatch(SETTING_CHANGE_EVENT, true, Some(&one)), Some(1));
    let zero = payload(4, vec![0, 0, 0, 0]);
    assert_eq!(setting_dispatch(SETTING_CHANGE_EVENT, true, Some(&zero)), Some(0));
}

#[test]
fn decode_reads_least_significant_byte_first() {
    assert_eq!(decode_setting_value(&vec![0x34, 0x12, 0, 0]), 0x1234);
    assert_eq!(decode_setting_value(&vec![0, 0, 0, 1]), 0x0100_0000);
    assert_eq!(decode_setting_value(&vec![0xFF, 0xFF, 0xFF, 0xFF]), u32::MAX);
}

#[test]
fn decode_shortfall_falls_back_to_zero() {
    assert_eq!(decode_setting_value(&vec![]), 0);
    assert_eq!(decode_setting_value(&vec![7]), 0);
    assert_eq!(decode_setting_value(&vec![7, 7, 7]), 0);
}

#[test]
fn mode_values_map_to_six_distinct_categories() {
    let described: Vec<String> = (0..6).map(describe_effective_mode).collect();
    for a in 0..6 {
        for b in 0..6 {
            if a != b {
                assert_ne!(described[a], described[b]);
            }
        }
    }
}

#[test]
fn mode_values_outside_the_six_share_one_unknown_category() {
    let unknown = describe_effective_mode(-1);
    assert_eq!(describe_effective_mode(6), unknown);
    assert_eq!(describe_effective_mode(99), unknown);
    assert_eq!(describe_effective_mode(i32::MIN), unknown);
    for m in 0..6 {
        assert_ne!(describe_effective_mode(m), unknown);
    }
}

#[test]
fn power_source_values_map_to_their_sources() {
    assert_eq!(PowerSourceType::from(0u32), PowerSourceType::AC);
    assert_eq!(PowerSourceType::from(1u32), PowerSourceType::Battery);
    assert_eq!(PowerSourceType::from(2u32), PowerSourceType::ShortTerm);
    assert_eq!(PowerSourceType::from(3u32), PowerSourceType::Unknown);
    assert_eq!(PowerSourceType::from(u32::MAX), PowerSourceType::Unknown);
}

#[test]
fn power_source_descriptions_are_distinct() {
    let sources = [
        PowerSourceType::AC,
        PowerSourceType::Battery,
        PowerSourceType::ShortTerm,
        PowerSourceType::Unknown,
    ];
    for a in sources {
        for b in sources {
            if a != b {
                assert_ne!(describe_power_source(a), describe_power_source(b));
            }
        }
    }
}

#[test]
fn saver_status_descriptions_differ() {
    assert_ne!(describe_saver_status(true), describe_saver_status(false));
}
