use fwupd_efirs::record::{STATUS_ATTEMPT_UPDATE, UPDATE_INFO_VERSION};
use fwupd_efirs::registry::{
    classify, collect_updates, KeyKind, StoredVariable, DEBUG_LOG_NAME, FWUPDATE_GUID,
    MAX_UPDATES, VERBOSE_NAME,
};

const OTHER_GUID: u128 = 0x8be4df61_93ca_11d2_aa0d_00e098032b8c;

fn record_bytes(hw_inst: u64) -> Vec<u8> {
    let mut b = Vec::new();
    b.extend_from_slice(&UPDATE_INFO_VERSION.to_le_bytes());
    b.extend_from_slice(&[0x11; 16]);
    b.extend_from_slice(&0u32.to_le_bytes());
    b.extend_from_slice(&hw_inst.to_le_bytes());
    b.extend_from_slice(&[0; 16]);
    b.extend_from_slice(&STATUS_ATTEMPT_UPDATE.to_le_bytes());
    b
}

fn var(name: &str, vendor: u128, data: Vec<u8>) -> StoredVariable {
    StoredVariable { name: name.to_string(), vendor, attributes: 0x7, data }
}

#[test]
fn classify_tells_kinds_apart() {
    assert_eq!(classify(&"fwupd-abc-0".to_string(), OTHER_GUID), KeyKind::Foreign);
    assert_eq!(classify(&VERBOSE_NAME.to_string(), OTHER_GUID), KeyKind::Foreign);
    assert_eq!(classify(&"FWUPDATE_VERBOSE".to_string(), FWUPDATE_GUID), KeyKind::Control);
    assert_eq!(classify(&"FWUPDATE_DEBUG_LOG".to_string(), FWUPDATE_GUID), KeyKind::Control);
    assert_eq!(classify(&"FWUPDATE_VERBOSE2".to_string(), FWUPDATE_GUID), KeyKind::Candidate);
    assert_eq!(classify(&"fwupd-abc-0".to_string(), FWUPDATE_GUID), KeyKind::Candidate);
}

#[test]
fn cap_admits_128_of_130() {
    assert_eq!(MAX_UPDATES, 128);
    let vars: Vec<StoredVariable> = (0..130u64)
        .map(|i| var(&format!("fwupd-{}-0", i), FWUPDATE_GUID, record_bytes(i)))
        .collect();
    let r = collect_updates(&vars, MAX_UPDATES);
    assert_eq!(r.entries.len(), 128);
    assert_eq!(r.ignored, vec![128, 129]);
    assert!(r.rejected.is_empty());
    for (k, e) in r.entries.iter().enumerate() {
        assert_eq!(e.name, format!("fwupd-{}-0", k));
        assert_eq!(e.info.hw_inst, k as u64);
    }
}

#[test]
fn cap_of_two_over_five_requests() {
    let vars: Vec<StoredVariable> = (0..5u64)
        .map(|i| var(&format!("u{}", i), FWUPDATE_GUID, record_bytes(i)))
        .collect();
    let r = collect_updates(&vars, 2);
    assert_eq!(r.entries.len(), 2);
    assert_eq!(r.ignored, vec![2, 3, 4]);
    let again = collect_updates(&vars, 2);
    assert_eq!(again.entries[0].name, r.entries[0].name);
    assert_eq!(again.entries[1].name, r.entries[1].name);
}

#[test]
fn control_variables_are_never_admitted() {
    let vars = vec![
        var(VERBOSE_NAME, FWUPDATE_GUID, record_bytes(1)),
        var(DEBUG_LOG_NAME, FWUPDATE_GUID, record_bytes(2)),
        var("fwupd-x-0", FWUPDATE_GUID, record_bytes(3)),
        var(VERBOSE_NAME, FWUPDATE_GUID, vec![1]),
    ];
    let r = collect_updates(&vars, MAX_UPDATES);
    assert_eq!(r.entries.len(), 1);
    assert_eq!(r.entries[0].name, "fwupd-x-0");
    assert_eq!(r.entries[0].info.hw_inst, 3);
    assert!(r.ignored.is_empty());
    assert!(r.rejected.is_empty());
}

#[test]
fn foreign_variables_are_skipped() {
    let vars = vec![
        var("fwupd-x-0", OTHER_GUID, record_bytes(1)),
        var("fwupd-y-0", FWUPDATE_GUID, record_bytes(2)),
    ];
    let r = collect_updates(&vars, MAX_UPDATES);
    assert_eq!(r.entries.len(), 1);
    assert_eq!(r.entries[0].name, "fwupd-y-0");
    assert_eq!(r.entries[0].attributes, 0x7);
}

#[test]
fn undecodable_requests_are_rejected_and_not_counted() {
    let mut bad_version = record_bytes(9);
    bad_version[0] = 1;
    let vars = vec![
        var("a", FWUPDATE_GUID, vec![1, 2, 3]),
        var("b", FWUPDATE_GUID, bad_version),
        var("c", FWUPDATE_GUID, record_bytes(3)),
        var("d", FWUPDATE_GUID, record_bytes(4)),
    ];
    let r = collect_updates(&vars, 1);
    assert_eq!(r.entries.len(), 1);
    assert_eq!(r.entries[0].name, "c");
    assert_eq!(r.ignored, vec![3]);
    assert_eq!(r.rejected.len(), 2);
    assert_eq!(r.rejected[0].index, 0);
    assert_eq!(r.rejected[0].error, fwupd_efirs::record::DecodeError::MalformedRecord);
    assert_eq!(r.rejected[1].index, 1);
    assert_eq!(r.rejected[1].error, fwupd_efirs::record::DecodeError::UnsupportedVersion);
}

#[test]
fn empty_store_admits_nothing() {
    let r = collect_updates(&Vec::new(), MAX_UPDATES);
    assert!(r.entries.is_empty());
    assert!(r.ignored.is_empty());
    assert!(r.rejected.is_empty());
}

#[test]
fn control_variables_do_not_change_admission() {
    let with: Vec<StoredVariable> = vec![
        var("u0", FWUPDATE_GUID, record_bytes(0)),
        var(VERBOSE_NAME, FWUPDATE_GUID, record_bytes(1)),
        var("u1", FWUPDATE_GUID, record_bytes(2)),
        var(DEBUG_LOG_NAME, FWUPDATE_GUID, vec![0xff; 3]),
        var("u2", FWUPDATE_GUID, record_bytes(3)),
    ];
    let without: Vec<StoredVariable> = vec![
        var("u0", FWUPDATE_GUID, record_bytes(0)),
        var("u1", FWUPDATE_GUID, record_bytes(2)),
        var("u2", FWUPDATE_GUID, record_bytes(3)),
    ];
    let a = collect_updates(&with, 2);
    let b = collect_updates(&without, 2);
    let names = |r: &fwupd_efirs::registry::Registry| -> Vec<String> {
        r.entries.iter().map(|e| e.name.clone()).collect()
    };
    assert_eq!(names(&a), vec!["u0".to_string(), "u1".to_string()]);
    assert_eq!(names(&a), names(&b));
    assert_eq!(a.ignored.len(), 1);
    assert_eq!(b.ignored.len(), 1);
    assert!(a.rejected.is_empty());
}
