use sandbox::consts::{SANDBOX_ACTIVE, SANDBOX_TESTING};
use sandbox::environment::{
    has_env, is_env_off, is_env_on, values_contains, EnvVars, FALSE_VALUES_CONSTS,
    MAX_VALUES_CONST_LEN, TRUE_VALUES_CONSTS,
};

fn env_with(key: &str, value: &[u8]) -> EnvVars {
    let mut env = EnvVars::new();
    env.set(key.as_bytes(), value);
    env
}

#[test]
fn max_values_const_len_should_be_max_for_values() {
    for s in TRUE_VALUES_CONSTS
        .iter()
        .copied()
        .chain(FALSE_VALUES_CONSTS)
    {
        assert!(
            s.len() <= MAX_VALUES_CONST_LEN,
            "'{s}'.len = {} is more than {MAX_VALUES_CONST_LEN}",
            s.len()
        );
    }
}

#[test]
fn on_values_ignore_case() {
    for v in [&b"yes"[..], b"YES", b"Yes", b"yEs", b"1", b"true", b"TRUE", b"TrUe"] {
        assert!(is_env_on(&env_with("X", v), "X"), "{:?}", v);
        assert!(!is_env_off(&env_with("X", v), "X"), "{:?}", v);
    }
}

#[test]
fn off_values_ignore_case() {
    for v in [&b"no"[..], b"NO", b"No", b"0", b"false", b"FALSE", b"fAlSe"] {
        assert!(is_env_off(&env_with("X", v), "X"), "{:?}", v);
        assert!(!is_env_on(&env_with("X", v), "X"), "{:?}", v);
    }
}

#[test]
fn only_the_first_five_bytes_count() {
    assert!(is_env_off(&env_with("X", b"falsehood"), "X"));
    assert!(is_env_off(&env_with("X", b"FALSE\xff\xfe"), "X"));
    assert!(!is_env_on(&env_with("X", b"yesss"), "X"));
    assert!(!is_env_on(&env_with("X", b"truest"), "X"));
    assert!(!is_env_on(&env_with("X", b"yes "), "X"));
}

#[test]
fn other_values_are_neither() {
    for v in [&b""[..], b"on", b"off", b"2", b"y", b"n", b"\xff\xfe", b"ye\xc3\xa9"] {
        assert!(!is_env_on(&env_with("X", v), "X"), "{:?}", v);
        assert!(!is_env_off(&env_with("X", v), "X"), "{:?}", v);
        assert!(has_env(&env_with("X", v), "X"), "{:?}", v);
    }
}

#[test]
fn unset_variable_is_absent() {
    let env = env_with("Y", b"1");
    assert!(!is_env_on(&env, "X"));
    assert!(!is_env_off(&env, "X"));
    assert!(!has_env(&env, "X"));
    assert!(has_env(&env, "Y"));
}

#[test]
fn values_contains_reads_literal_sets() {
    assert!(values_contains(&TRUE_VALUES_CONSTS, b"Yes"));
    assert!(!values_contains(&FALSE_VALUES_CONSTS, b"Yes"));
    assert!(values_contains(&FALSE_VALUES_CONSTS, b"0"));
    assert!(!values_contains(&TRUE_VALUES_CONSTS, b"0"));
}

#[test]
fn set_replaces_earlier_value() {
    let mut env = EnvVars::new();
    env.set(SANDBOX_TESTING.as_bytes(), b"no");
    env.set(SANDBOX_ACTIVE.as_bytes(), b"");
    env.set(SANDBOX_TESTING.as_bytes(), b"yes");
    assert_eq!(env.get(SANDBOX_TESTING.as_bytes()), Some(&b"yes".to_vec()));
    assert_eq!(env.get(SANDBOX_ACTIVE.as_bytes()), Some(&Vec::new()));
    assert!(is_env_on(&env, SANDBOX_TESTING));
}
