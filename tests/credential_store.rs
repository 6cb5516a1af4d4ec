use sheets_link::credential::{Credential, Storage};

fn sample() -> Credential {
    Credential::new("T1".to_string(), "R1".to_string(), 1_700_003_600)
}

#[test]
fn save_then_load_yields_the_same_credential() {
    let mut store = Storage::empty();
    assert_eq!(store.load_credential(), None);
    let c = sample();
    store.save_credential(c.clone());
    assert_eq!(store.load_credential(), Some(c));
}

#[test]
fn save_replaces_the_previous_credential() {
    let mut store = Storage::from_records(Some(sample()), Some("sheet-1".to_string()));
    let newer = Credential::new("T2".to_string(), "R2".to_string(), u64::MAX);
    store.save_credential(newer.clone());
    assert_eq!(store.load_credential(), Some(newer));
    assert_eq!(store.load_spreadsheet_id(), Some("sheet-1".to_string()));
}

#[test]
fn spreadsheet_id_round_trip() {
    let mut store = Storage::empty();
    assert_eq!(store.load_spreadsheet_id(), None);
    store.save_spreadsheet_id("abc".to_string());
    assert_eq!(store.load_spreadsheet_id(), Some("abc".to_string()));
    assert_eq!(store.load_credential(), None);
}

#[test]
fn needs_refresh_is_inclusive_at_expiry() {
    let c = sample();
    assert!(!c.needs_refresh(1_700_003_599));
    assert!(c.needs_refresh(1_700_003_600));
    assert!(c.needs_refresh(1_700_003_601));
}

#[test]
fn duplicate_keeps_every_field() {
    let c = Credential::new(String::new(), "r".to_string(), 0);
    assert_eq!(c.duplicate(), c);
}
