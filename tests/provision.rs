use alarm::provision::{ensure_step, DownloadBudget, ProvisionStep, MAX_ASSET_BYTES};

#[test]
fn existing_file_is_used_without_fetching() {
    assert_eq!(ensure_step(true), ProvisionStep::UseExisting);
    assert_eq!(ensure_step(false), ProvisionStep::Fetch);
    // after a successful fetch the file is present: the next call fetches nothing
    assert_eq!(ensure_step(true), ProvisionStep::UseExisting);
}

#[test]
fn oversized_source_is_cut_at_the_cap() {
    let mut budget = DownloadBudget::new();
    let mut written: u64 = 0;
    for _ in 0..30 {
        written += budget.take(1_000_000) as u64;
    }
    assert_eq!(written, MAX_ASSET_BYTES);
    assert_eq!(budget.written(), 10_000_000);
    assert_eq!(budget.take(5), 0);
}

#[test]
fn small_source_is_written_whole() {
    let mut budget = DownloadBudget::new();
    assert_eq!(budget.take(4096), 4096);
    assert_eq!(budget.take(0), 0);
    assert_eq!(budget.take(9_995_000), 9_995_000);
    assert_eq!(budget.take(2000), 904);
    assert_eq!(budget.written(), MAX_ASSET_BYTES);
}
