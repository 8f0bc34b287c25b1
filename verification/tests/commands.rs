use daemon_session::commands::{
    attach_options, build_create_request, grace_period_options, inspect_options,
    list_all_options, remove_container_options, remove_image_options, start_options,
    NANO_CPUS_PER_HUNDREDTH,
};

#[test]
fn cpu_translation() {
    // Creating a container with half a core and a 100 MiB cap issues a
    // request with 500,000,000 nano-cpus and the cap verbatim.
    let req = build_create_request("a".to_string(), "alpine".to_string(), 50, 104857600).unwrap();
    assert_eq!(req.nano_cpus, 500000000);
    assert_eq!(req.memory, 104857600);
    assert_eq!(req.name, "a");
    assert_eq!(req.image, "alpine");
}

#[test]
fn cpu_translation_zero_share() {
    let req = build_create_request("a".to_string(), "alpine".to_string(), 0, 0).unwrap();
    assert_eq!(req.nano_cpus, 0);
}

#[test]
fn cpu_translation_largest_share() {
    let largest = i64::MAX / NANO_CPUS_PER_HUNDREDTH;
    let req = build_create_request("a".to_string(), "alpine".to_string(), largest, 1).unwrap();
    assert_eq!(req.nano_cpus, largest * NANO_CPUS_PER_HUNDREDTH);
}

#[test]
fn cpu_translation_rejects_negative_share() {
    assert!(build_create_request("a".to_string(), "alpine".to_string(), -1, 0).is_none());
}

#[test]
fn cpu_translation_rejects_untranslatable_share() {
    let too_big = i64::MAX / NANO_CPUS_PER_HUNDREDTH + 1;
    assert!(build_create_request("a".to_string(), "alpine".to_string(), too_big, 0).is_none());
}

#[test]
fn listing_always_includes_stopped_entries() {
    assert!(list_all_options().all);
}

#[test]
fn inspection_disables_size_computation() {
    assert!(!inspect_options().size);
}

#[test]
fn start_fixes_detach_keys() {
    assert_eq!(start_options().detach_keys, "ctrl-^");
}

#[test]
fn stop_and_restart_grace_period_is_ten_seconds() {
    assert_eq!(grace_period_options().grace_period_s, 10);
}

#[test]
fn attach_couples_all_streams_and_fixes_detach_keys() {
    let o = attach_options();
    assert!(o.stdin && o.stdout && o.stderr && o.stream && o.logs);
    assert_eq!(o.detach_keys, "ctrl-c");
}

#[test]
fn container_removal_passes_flags_through() {
    let o = remove_container_options(true, false, true);
    assert!(o.force);
    assert!(!o.volumes);
    assert!(o.links);
}

#[test]
fn image_removal_passes_force_through() {
    assert!(remove_image_options(true).force);
    assert!(!remove_image_options(false).force);
}
