use grm::archive::{ArchiveKind, ArchiveManager, FinalizePlan};

#[test]
fn archive_kinds() {
    assert_eq!(ArchiveManager::archive_kind(Some("zip"), "/d/test.zip"), ArchiveKind::Zip);
    assert_eq!(ArchiveManager::archive_kind(Some("gz"), "/d/test.tar.gz"), ArchiveKind::TarGz);
    assert_eq!(ArchiveManager::archive_kind(Some("tgz"), "/d/test.tgz"), ArchiveKind::TarGz);
    assert_eq!(ArchiveManager::archive_kind(Some("txt"), "/d/test.txt"), ArchiveKind::Plain);
    assert_eq!(ArchiveManager::archive_kind(None, "/d/binary"), ArchiveKind::Plain);
    assert_eq!(ArchiveManager::archive_kind(Some("ZIP"), "/d/test.ZIP"), ArchiveKind::Plain);
}

#[test]
fn finalize_plans() {
    assert_eq!(ArchiveManager::finalize_plan(&vec![true]), FinalizePlan::MergeFolder);
    assert_eq!(ArchiveManager::finalize_plan(&vec![false]), FinalizePlan::MoveEntries);
    assert_eq!(ArchiveManager::finalize_plan(&vec![false, false]), FinalizePlan::MoveEntries);
    assert_eq!(ArchiveManager::finalize_plan(&vec![true, true]), FinalizePlan::MoveEntries);
    assert_eq!(ArchiveManager::finalize_plan(&vec![]), FinalizePlan::MoveEntries);
}

#[test]
fn rename_fallback_codes() {
    assert!(ArchiveManager::rename_falls_back(Some(17)));
    assert!(ArchiveManager::rename_falls_back(Some(18)));
    assert!(!ArchiveManager::rename_falls_back(Some(2)));
    assert!(!ArchiveManager::rename_falls_back(None));
}
