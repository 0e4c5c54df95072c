use shmem_lab::region::open_region;

#[test]
fn open_creates_then_attaches() {
    // the first open of a fresh name creates the region, a second open of
    // the same name attaches to the existing one; both succeed
    let nanos = std::time::SystemTime::now()
        .duration_since(std::time::UNIX_EPOCH)
        .unwrap()
        .as_nanos();
    let name = format!("/tmp/shmem_lab_test_region_{}", nanos);
    let first = open_region(&name, 4096).unwrap();
    let second = open_region(&name, 4096).unwrap();
    assert!(first.len() >= 4096);
    assert!(second.len() >= 4096);
    // exactly one of the two performed the creation
    assert!(first.is_owner());
    assert!(!second.is_owner());
    drop(second);
    drop(first);
}

#[test]
fn open_reports_failure_on_an_impossible_name() {
    let name = "/tmp/no_such_directory_for_shmem_lab/region";
    assert!(open_region(name, 4096).is_err());
}
