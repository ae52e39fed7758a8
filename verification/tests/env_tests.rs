use typst_world::registry::Registry;

fn one_input() -> Vec<(String, String)> {
    vec![("x".to_string(), "1".to_string())]
}

#[test]
fn set_inputs_is_idempotent() {
    let mut r1 = Registry::new();
    r1.set_inputs(one_input());
    let mut r2 = Registry::new();
    r2.set_inputs(one_input());
    assert_eq!(r1.env_inputs(), r2.env_inputs());
    r1.set_inputs(one_input());
    assert_eq!(r1.env_inputs(), r2.env_inputs());
}

#[test]
fn set_inputs_replaces_wholesale() {
    let mut reg = Registry::new();
    reg.set_inputs(vec![
        ("x".to_string(), "1".to_string()),
        ("y".to_string(), "2".to_string()),
    ]);
    reg.set_inputs(vec![("z".to_string(), "3".to_string())]);
    let pairs = reg.env_inputs();
    assert_eq!(pairs.len(), 1);
    assert_eq!(pairs[0], ("z".to_string(), "3".to_string()));
}

#[test]
fn empty_inputs_clear_the_environment() {
    let mut reg = Registry::new();
    reg.set_inputs(vec![("x".to_string(), "1".to_string())]);
    reg.set_inputs(Vec::new());
    assert!(reg.env_inputs().is_empty());
}
