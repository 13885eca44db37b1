use micro_oc::args::{parse_arg, parse_values, select_gpus, ArgError};

fn texts(items: &[&str]) -> Vec<String> {
    items.iter().map(|s| s.to_string()).collect()
}

#[test]
fn selects_gpus_in_given_order() {
    assert_eq!(select_gpus(&texts(&["2", "0"]), 3), Ok(vec![2, 0]));
}

#[test]
fn selection_accepts_plus_sign_and_leading_zeros() {
    assert_eq!(select_gpus(&texts(&["+1", "002"]), 3), Ok(vec![1, 2]));
}

#[test]
fn empty_selection_is_refused() {
    assert_eq!(select_gpus(&texts(&[]), 3), Err(ArgError::MissingIds));
}

#[test]
fn non_numeric_index_is_refused() {
    assert_eq!(
        select_gpus(&texts(&["0", "one"]), 3),
        Err(ArgError::InvalidIndex { position: 1 })
    );
}

#[test]
fn negative_index_is_refused() {
    assert_eq!(select_gpus(&texts(&["-1"]), 3), Err(ArgError::InvalidIndex { position: 0 }));
}

#[test]
fn index_past_installed_gpus_is_refused() {
    assert_eq!(
        select_gpus(&texts(&["1", "3", "x"]), 3),
        Err(ArgError::IndexOutOfRange { position: 1, index: 3 })
    );
}

#[test]
fn no_gpu_installed_refuses_index_zero() {
    assert_eq!(
        select_gpus(&texts(&["0"]), 0),
        Err(ArgError::IndexOutOfRange { position: 0, index: 0 })
    );
}

#[test]
fn values_one_per_gpu_are_read() {
    assert_eq!(parse_values(&texts(&["500", "-250", "+7"]), 3), Ok(vec![500, -250, 7]));
}

#[test]
fn values_reach_the_i32_bounds() {
    assert_eq!(
        parse_values(&texts(&["-2147483648", "2147483647"]), 2),
        Ok(vec![i32::MIN, i32::MAX])
    );
}

#[test]
fn value_past_i32_is_refused() {
    assert_eq!(
        parse_values(&texts(&["2147483648"]), 1),
        Err(ArgError::InvalidValue { position: 0 })
    );
}

#[test]
fn malformed_values_are_refused() {
    for bad in ["", "+", "-", "1 ", " 1", "1_000", "0x10", "1.5"] {
        assert_eq!(
            parse_values(&texts(&["1", bad]), 2),
            Err(ArgError::InvalidValue { position: 1 }),
            "{:?}",
            bad
        );
    }
}

#[test]
fn too_few_values_are_refused() {
    assert_eq!(
        parse_values(&texts(&["100"]), 2),
        Err(ArgError::WrongNumberOfValues { got: 1, expected: 2 })
    );
}

#[test]
fn too_many_values_are_refused() {
    assert_eq!(
        parse_values(&texts(&["1", "2", "3"]), 2),
        Err(ArgError::WrongNumberOfValues { got: 3, expected: 2 })
    );
}

#[test]
fn invalid_value_is_reported_before_count() {
    assert_eq!(
        parse_values(&texts(&["1", "a", "b"]), 2),
        Err(ArgError::InvalidValue { position: 1 })
    );
}

#[test]
fn absent_option_has_no_values() {
    assert_eq!(parse_arg(&None, 2), Ok(None));
}

#[test]
fn given_option_is_read() {
    assert_eq!(parse_arg(&Some(texts(&["10", "20"])), 2), Ok(Some(vec![10, 20])));
    assert_eq!(
        parse_arg(&Some(texts(&["10"])), 2),
        Err(ArgError::WrongNumberOfValues { got: 1, expected: 2 })
    );
}
