use dybuild::staleness::{StaleError, is_stale, stale_given, stale_verdict};

#[test]
fn verdict_missing_output_is_stale_without_inputs() {
    assert_eq!(stale_verdict(None, None), Ok(true));
    assert_eq!(stale_verdict(None, Some(vec![])), Ok(true));
}

#[test]
fn verdict_failed_expansion_is_fatal() {
    assert_eq!(stale_verdict(Some(5), None), Err(StaleError::BadGlob));
}

#[test]
fn verdict_empty_match_list_is_fatal() {
    assert_eq!(stale_verdict(Some(5), Some(vec![])), Err(StaleError::NoInputs));
}

#[test]
fn verdict_compares_timestamps() {
    assert_eq!(stale_verdict(Some(10), Some(vec![Some(5)])), Ok(false));
    assert_eq!(stale_verdict(Some(10), Some(vec![Some(11)])), Ok(true));
    assert_eq!(stale_verdict(Some(10), Some(vec![None])), Ok(true));
}

#[test]
fn missing_output_is_always_stale() {
    assert!(stale_given(None, &vec![]));
    assert!(stale_given(None, &vec![Some(1), Some(2)]));
}

#[test]
fn output_newer_than_every_input_is_fresh() {
    assert!(!stale_given(Some(10), &vec![Some(5), Some(7)]));
}

#[test]
fn touching_one_input_flips_to_stale() {
    assert!(!stale_given(Some(10), &vec![Some(5), Some(7)]));
    assert!(stale_given(Some(10), &vec![Some(5), Some(11)]));
    assert!(stale_given(Some(10), &vec![Some(11), Some(7)]));
}

#[test]
fn input_missing_modification_time_is_stale() {
    assert!(stale_given(Some(10), &vec![None]));
    assert!(stale_given(Some(10), &vec![Some(5), None]));
}

#[test]
fn input_as_old_as_output_is_fresh() {
    assert!(!stale_given(Some(10), &vec![Some(10)]));
}

#[test]
fn absent_artifact_reports_stale_without_reading_inputs() {
    let r = is_stale("anything*", "./no_such_artifact_zz_qq.so");
    assert_eq!(r, Ok(true));
}

#[test]
fn empty_input_glob_is_fatal() {
    // The output exists, but the pattern matches nothing: a build step
    // must always have at least one compiled input.
    let r = is_stale("/no_such_inputs_zz_qq_*.bc", "/");
    assert_eq!(r, Err(StaleError::NoInputs));
}

#[test]
fn malformed_input_glob_is_fatal() {
    let r = is_stale("[", "/");
    assert_eq!(r, Err(StaleError::BadGlob));
}

#[test]
fn artifact_no_older_than_its_input_is_fresh() {
    // The path serves as its own input: equal timestamps are not "newer".
    let r = is_stale("/", "/");
    assert_eq!(r, Ok(false));
}
