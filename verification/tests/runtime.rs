use slabruntime::cp210x_runtime::count_true;
use slabruntime::cp210x_runtime::first_language;
use slabruntime::cp210x_runtime::select_nth_match;
use slabruntime::CP210xError;
use slabruntime::Cp210xRuntime;

#[test]
fn selecting_from_no_flags_finds_nothing() {
    let flags: Vec<bool> = Vec::new();
    assert_eq!(select_nth_match(&flags, 0), None);
    assert_eq!(select_nth_match(&flags, 7), None);
}

#[test]
fn selecting_from_all_non_matches_finds_nothing() {
    let flags = vec![false, false, false];
    assert_eq!(select_nth_match(&flags, 0), None);
}

#[test]
fn selection_walks_matches_in_order() {
    let flags = vec![false, true, false, true, true];
    assert_eq!(select_nth_match(&flags, 0), Some(1));
    assert_eq!(select_nth_match(&flags, 1), Some(3));
    assert_eq!(select_nth_match(&flags, 2), Some(4));
}

#[test]
fn selection_at_or_past_the_match_count_finds_nothing() {
    let flags = vec![false, true, false, true, true];
    assert_eq!(select_nth_match(&flags, 3), None);
    assert_eq!(select_nth_match(&flags, usize::MAX), None);
}

#[test]
fn counting_matches_counts_exactly_the_true_flags() {
    let empty: Vec<bool> = Vec::new();
    assert_eq!(count_true(&empty), 0);
    assert_eq!(count_true(&vec![false, false]), 0);
    assert_eq!(count_true(&vec![true]), 1);
    assert_eq!(count_true(&vec![false, true, false, true, true]), 3);
}

#[test]
fn zero_supported_languages_is_a_reported_error() {
    let langs: Vec<rusb::Language> = Vec::new();
    match first_language(&langs) {
        Err(CP210xError::CommandFailed) => {}
        Err(e) => panic!("unexpected error: {:?}", e),
        Ok(_) => panic!("selected a language from an empty list"),
    }
}

// The remaining tests run against the live USB subsystem. A sandboxed or
// headless host may refuse to initialize it or hold no CP210x device;
// every outcome the transport can report is tolerated, but no path may
// panic.
#[test]
fn open_past_the_device_count_reports_device_not_found() {
    let runtime = match Cp210xRuntime::new() {
        Ok(r) => r,
        Err(_) => return,
    };
    let count = match runtime.cp210x_rt_get_num_devices() {
        Ok(n) => n,
        Err(_) => return,
    };
    match runtime.cp210x_rt_open(count as usize) {
        Err(CP210xError::DeviceNotFound) | Err(CP210xError::CommandFailed) => {}
        Ok(_) => panic!("opened a device past the reported count"),
        Err(e) => panic!("unexpected error: {:?}", e),
    }
    match runtime.cp210x_rt_open(usize::MAX) {
        Err(CP210xError::DeviceNotFound) | Err(CP210xError::CommandFailed) => {}
        Ok(_) => panic!("opened a device at an absurd index"),
        Err(e) => panic!("unexpected error: {:?}", e),
    }
}

#[test]
fn enumeration_never_panics() {
    if let Ok(runtime) = Cp210xRuntime::new() {
        let _ = runtime.cp210x_rt_get_num_devices();
        let _ = runtime.cp210x_rt_get_num_devices();
    }
}
