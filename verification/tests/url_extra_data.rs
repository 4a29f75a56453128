use std::sync::Arc;

use style::shared_lock::SharedRwLock;
use style::stylesheets::{
    is_chrome_scheme, AllowImportRules, CssRuleTypes, CssRules, Namespaces, Origin, QuirksMode, SnapshotError,
    StylesheetContents, UrlExtraData,
};

fn user_agent_sheet(lock: &SharedRwLock, url_data: UrlExtraData) -> StylesheetContents {
    let sheet = StylesheetContents {
        rules: Arc::new(lock.wrap(CssRules(Vec::new()))),
        origin: Origin::UserAgent,
        url_data,
        namespaces: Namespaces::new(),
        quirks_mode: QuirksMode::NoQuirks,
    };
    let mut rules = lock.wrap(CssRules(Vec::new()));
    for (index, text) in ["@namespace x;", ".a { color: red; .b { } }", "@media print { .c { } }"]
        .iter()
        .enumerate()
    {
        rules
            .insert_rule(lock, text, &sheet, index, CssRuleTypes::default(), None, AllowImportRules::Yes)
            .unwrap();
    }
    StylesheetContents { rules: Arc::new(rules), ..sheet }
}

#[test]
fn handle_to_an_object_resolves_to_its_address() {
    let data = UrlExtraData::new(0x7f00_1000);
    assert!(data.holds_reference());
    assert_eq!(data.shared_index(), None);
    assert_eq!(data.ptr(&[]), 0x7f00_1000);
    assert_eq!(data.ptr(&[0x10, 0x20]), 0x7f00_1000);
}

#[test]
fn handle_into_the_table_resolves_to_the_entry() {
    let shared = [0x1000, 0x2000, 0x3000];
    for (id, address) in shared.iter().enumerate() {
        let data = UrlExtraData::from_sheet_id(id);
        assert!(!data.holds_reference());
        assert_eq!(data.shared_index(), Some(id));
        assert_eq!(data.ptr(&shared), *address);
    }
}

#[test]
fn snapshot_of_shared_data_is_its_tagged_index() {
    let shared = [0x1000, 0x2000, 0x3000];
    let data = UrlExtraData::new(0x2000);
    let written = data.to_shmem(&shared).unwrap();
    assert_eq!(written, UrlExtraData::from_sheet_id(1));
    assert!(!written.holds_reference());
    assert_ne!(written, data);
    assert_eq!(written.ptr(&shared), data.ptr(&shared));
}

#[test]
fn snapshot_takes_the_first_of_equal_entries() {
    let shared = [0x1000, 0x2000, 0x2000, 0x1000];
    assert_eq!(
        UrlExtraData::new(0x2000).to_shmem(&shared),
        Ok(UrlExtraData::from_sheet_id(1))
    );
    assert_eq!(
        UrlExtraData::new(0x1000).to_shmem(&shared),
        Ok(UrlExtraData::from_sheet_id(0))
    );
}

#[test]
fn snapshot_of_a_snapshot_is_the_same_handle() {
    let shared = [0x1000, 0x2000, 0x3000];
    let written = UrlExtraData::new(0x3000).to_shmem(&shared).unwrap();
    assert_eq!(written.to_shmem(&shared), Ok(written));
    assert_eq!(written.to_shmem(&[]), Ok(written));
}

#[test]
fn snapshot_of_data_outside_the_table_is_an_error() {
    let shared = [0x1000, 0x2000, 0x3000];
    assert_eq!(
        UrlExtraData::new(0x4000).to_shmem(&shared),
        Err(SnapshotError::Unshareable)
    );
    assert_eq!(
        UrlExtraData::new(0x1000).to_shmem(&[]),
        Err(SnapshotError::Unshareable)
    );
    assert_eq!(
        SnapshotError::Unshareable.message(),
        "ToShmem failed for UrlExtraData: expected sheet's URLExtraData to be in URLExtraData::sShared"
    );
}

#[test]
fn every_entry_of_the_table_can_be_written() {
    let shared = [0x1000, 0x2000, 0x3000, 0x4000];
    for (id, address) in shared.iter().enumerate() {
        let written = UrlExtraData::new(*address).to_shmem(&shared).unwrap();
        assert_eq!(written.shared_index(), Some(id));
        assert_eq!(written.ptr(&shared), *address);
    }
}

#[test]
fn snapshot_of_a_sheet_answers_as_the_sheet_does() {
    let lock = SharedRwLock::new(1);
    let readers = SharedRwLock::new(0);
    let shared = [0x1000, 0x2000];
    let sheet = user_agent_sheet(&lock, UrlExtraData::new(0x2000));
    let written = sheet.to_shmem(&lock.read(), &shared, &readers).unwrap();
    assert_eq!(written.url_data, UrlExtraData::from_sheet_id(1));
    assert_eq!(written.url_data.ptr(&shared), sheet.url_data.ptr(&shared));
    assert_eq!(written.origin, Origin::UserAgent);
    assert_eq!(written.quirks_mode, QuirksMode::NoQuirks);
    assert!(written.rules.same_lock_as(&readers));
    let guard = lock.read();
    let read_guard = readers.read();
    let original = sheet.rules.read_with(&guard);
    let copy = written.rules.read_with(&read_guard);
    assert_eq!(copy.len(), 3);
    for (a, b) in original.0.iter().zip(copy.0.iter()) {
        assert_eq!(a.rule_type(), b.rule_type());
        assert_eq!(a.to_css_string(&guard), b.to_css_string(&read_guard));
    }
}

#[test]
fn snapshot_of_a_sheet_with_unshared_url_data_is_an_error() {
    let lock = SharedRwLock::new(1);
    let readers = SharedRwLock::new(0);
    let sheet = user_agent_sheet(&lock, UrlExtraData::new(0x4000));
    let result = sheet.to_shmem(&lock.read(), &[0x1000, 0x2000], &readers);
    assert_eq!(result.err(), Some(SnapshotError::Unshareable));
}

#[test]
fn chrome_is_the_scheme_of_the_user_interface() {
    assert!(is_chrome_scheme("chrome"));
    for other in ["", "http", "https", "resource", "Chrome", "chrome:", "chrom", "chromes"] {
        assert!(!is_chrome_scheme(other), "{}", other);
    }
}
