use pyo3_asyncio::harness::{pass_line, Args, MAX_CONCURRENT_TESTS};

#[test]
fn default_args_run_every_test() {
    let args = Args::default();
    assert!(args.runs("test_async_sleep"));
    assert!(args.runs(""));
}

#[test]
fn filter_selects_names_containing_it() {
    let args = Args::with_filter(Some("sleep".to_string()));
    assert!(args.runs("test_async_sleep"));
    assert!(args.runs("test_blocking_sleep"));
    assert!(args.runs("sleep"));
    assert!(!args.runs("test_into_future"));
    assert!(!args.runs("test_slee"));
    assert!(!args.runs(""));
}

#[test]
fn filter_is_case_sensitive_and_contiguous() {
    let args = Args::with_filter(Some("Sleep".to_string()));
    assert!(!args.runs("test_async_sleep"));
    let args = Args::with_filter(Some("async_sleep".to_string()));
    assert!(args.runs("test_async_sleep"));
    assert!(!args.runs("test_async_std_sleep"));
}

#[test]
fn empty_filter_runs_every_test() {
    let args = Args::with_filter(Some(String::new()));
    assert!(args.runs("test_panic"));
    assert!(args.runs(""));
}

#[test]
fn full_name_filter_runs_that_test() {
    let args = Args::with_filter(Some("test_cancel".to_string()));
    assert!(args.runs("test_cancel"));
    assert!(!args.runs("test_cance"));
}

#[test]
fn narrower_filter_selects_fewer_tests() {
    let names = ["test_into_future", "test_into_future_0_13", "test_into_coroutine", "test_panic"];
    let wide = Args::with_filter(Some("into".to_string()));
    let narrow = Args::with_filter(Some("into_future".to_string()));
    for name in names.iter() {
        if narrow.runs(name) {
            assert!(wide.runs(name));
        }
    }
    assert!(wide.runs("test_into_coroutine"));
    assert!(!narrow.runs("test_into_coroutine"));
}

#[test]
fn filter_with_non_ascii_characters() {
    let args = Args::with_filter(Some("ü".to_string()));
    assert!(args.runs("test_über"));
    assert!(!args.runs("test_uber"));
}

#[test]
fn pass_line_format() {
    assert_eq!(pass_line("test_async_sleep"), "test test_async_sleep ... ok");
    assert_eq!(pass_line(""), "test  ... ok");
}

#[test]
fn harness_runs_four_tests_at_a_time() {
    assert_eq!(MAX_CONCURRENT_TESTS, 4);
}
