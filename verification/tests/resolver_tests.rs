use media_wizard::device::DeviceNameId;
use media_wizard::resolver::{
    resolve_device, select_mount_path, split_mount_entries, truncate_at_nul, ResolveError,
    VolumeLookups,
};

fn strings(entries: &[&str]) -> Vec<String> {
    entries.iter().map(|s| s.to_string()).collect()
}

#[test]
fn first_nonempty_mount_is_chosen() {
    let mounts = strings(&["", "", "D:\\"]);
    assert_eq!(select_mount_path(&mounts), Some("D:\\".to_string()));
}

#[test]
fn all_empty_means_not_yet_mounted() {
    let mounts = strings(&["", ""]);
    assert!(select_mount_path(&mounts).is_none());
}

#[test]
fn no_mounts_means_not_yet_mounted() {
    let mounts: Vec<String> = Vec::new();
    assert!(select_mount_path(&mounts).is_none());
}

#[test]
fn earlier_nonempty_mount_wins() {
    let mounts = strings(&["", "C:\\", "D:\\"]);
    assert_eq!(select_mount_path(&mounts), Some("C:\\".to_string()));
}

#[test]
fn record_carries_id_label_and_chosen_path() {
    let mounts = strings(&["", "E:\\"]);
    let record = DeviceNameId::new("dev-7".to_string(), "STICK".to_string(), &mounts)
        .expect("a mounted volume must resolve");
    assert_eq!(record.id, "dev-7");
    assert_eq!(record.name, "STICK");
    assert_eq!(record.path, "E:\\");
}

#[test]
fn unmounted_volume_yields_no_record() {
    let mounts = strings(&[""]);
    assert!(DeviceNameId::new("dev-7".to_string(), "STICK".to_string(), &mounts).is_none());
}

#[test]
fn open_failure_is_device_unavailable() {
    let r = resolve_device("dev-1".to_string(), VolumeLookups::OpenFailed(5));
    assert!(matches!(r, Err(ResolveError::DeviceUnavailable(5))));
}

#[test]
fn canonical_failure_is_volume_lookup_failed() {
    let r = resolve_device(
        "dev-1".to_string(),
        VolumeLookups::CanonicalFailed { label: "STICK".to_string(), code: 2 },
    );
    assert!(matches!(r, Err(ResolveError::VolumeLookupFailed(2))));
}

#[test]
fn mount_enumeration_failure_is_volume_lookup_failed() {
    let r = resolve_device(
        "dev-1".to_string(),
        VolumeLookups::MountsFailed { label: "STICK".to_string(), code: 87 },
    );
    assert!(matches!(r, Err(ResolveError::VolumeLookupFailed(87))));
}

#[test]
fn completed_lookups_resolve_to_a_record() {
    let r = resolve_device(
        "dev-1".to_string(),
        VolumeLookups::Resolved { label: "STICK".to_string(), mounts: strings(&["", "D:\\"]) },
    );
    let record = r.expect("no lookup failed").expect("a mount point exists");
    assert_eq!(record.id, "dev-1");
    assert_eq!(record.name, "STICK");
    assert_eq!(record.path, "D:\\");
}

#[test]
fn completed_lookups_without_mount_resolve_to_none() {
    let r = resolve_device(
        "dev-1".to_string(),
        VolumeLookups::Resolved { label: "STICK".to_string(), mounts: strings(&["", ""]) },
    );
    assert!(r.expect("no lookup failed").is_none());
}

fn units(s: &str) -> Vec<u16> {
    s.encode_utf16().collect()
}

#[test]
fn multi_string_buffer_splits_at_every_nul() {
    let buf = units("C:\\\u{0}D:\\\u{0}\u{0}");
    let entries = split_mount_entries(&buf);
    assert_eq!(entries.len(), 4);
    assert_eq!(entries[0], units("C:\\"));
    assert_eq!(entries[1], units("D:\\"));
    assert!(entries[2].is_empty());
    assert!(entries[3].is_empty());
}

#[test]
fn empty_buffer_is_one_empty_entry() {
    let entries = split_mount_entries(&Vec::new());
    assert_eq!(entries.len(), 1);
    assert!(entries[0].is_empty());
}

#[test]
fn buffer_without_nul_is_one_entry() {
    let buf = units("D:\\");
    let entries = split_mount_entries(&buf);
    assert_eq!(entries.len(), 1);
    assert_eq!(entries[0], units("D:\\"));
}

#[test]
fn enumeration_buffer_resolves_to_first_nonempty_mount() {
    let buf = units("\u{0}\u{0}D:\\\u{0}");
    let mounts: Vec<String> = split_mount_entries(&buf)
        .into_iter()
        .map(|entry| String::from_utf16_lossy(&entry))
        .collect();
    assert_eq!(select_mount_path(&mounts), Some("D:\\".to_string()));
}

#[test]
fn label_buffer_is_cut_at_first_nul() {
    let mut buf = units("STICK");
    buf.push(0);
    buf.push(88);
    assert_eq!(truncate_at_nul(&buf), units("STICK"));
}

#[test]
fn label_buffer_without_nul_is_taken_whole() {
    let buf = units("STICK");
    assert_eq!(truncate_at_nul(&buf), units("STICK"));
}
