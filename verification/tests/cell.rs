use dyn_once::DynOnce;

#[test]
fn take_visitor_returns_construction_value() {
    let (mut cell, token) = DynOnce::<i32, i32>::new(42);
    let (v, empty) = cell.take_visitor(token);
    assert_eq!(v, 42);
    // The cell is now in the empty phase: installing a result proceeds.
    let result_token = cell.set_value(empty, -1);
    assert_eq!(cell.take_value(result_token), -1);
}

#[test]
fn peek_is_idempotent_and_non_mutating() {
    let (mut cell, token) = DynOnce::<String, usize>::new(String::from("payload"));
    assert_eq!(cell.as_visitor(&token), "payload");
    assert_eq!(cell.as_visitor(&token), "payload");
    assert_eq!(cell.as_visitor(&token), "payload");
    // Peeking changed nothing: the take still yields the original value.
    let (v, _empty) = cell.take_visitor(token);
    assert_eq!(v, "payload");
}

#[test]
fn set_then_take_returns_exact_result() {
    let (mut cell, token) = DynOnce::<u8, Vec<u32>>::new(0);
    let (_, empty) = cell.take_visitor(token);
    let result_token = cell.set_value(empty, vec![10, 20, 30]);
    assert_eq!(cell.take_value(result_token), vec![10, 20, 30]);
}

#[test]
fn composition_returns_function_of_producer() {
    let double_plus_one = |x: u64| 2 * x + 1;
    for v in [0u64, 1, 7, 1000, u64::MAX / 2] {
        let (mut cell, token) = DynOnce::<u64, u64>::new(v);
        let (taken, empty) = cell.take_visitor(token);
        let result_token = cell.set_value(empty, double_plus_one(taken));
        assert_eq!(cell.take_value(result_token), double_plus_one(v));
    }
}

#[test]
fn raw_input_scenario() {
    let (mut cell, token) = DynOnce::<&str, usize>::new("raw-input");
    let (input, empty_token) = cell.take_visitor(token);
    assert_eq!(input, "raw-input");
    let result_token = cell.set_value(empty_token, input.len());
    assert_eq!(cell.take_value(result_token), 9);
}

#[test]
fn abandonment_at_producer_phase() {
    let (cell, token) = DynOnce::<String, String>::new(String::from("abandoned"));
    drop(token);
    drop(cell);
}

#[test]
fn abandonment_at_empty_phase() {
    let (mut cell, token) = DynOnce::<String, String>::new(String::from("taken"));
    let (v, empty) = cell.take_visitor(token);
    assert_eq!(v, "taken");
    drop(empty);
    drop(cell);
}

#[test]
fn abandonment_at_result_phase() {
    let (mut cell, token) = DynOnce::<String, Vec<String>>::new(String::from("in"));
    let (_, empty) = cell.take_visitor(token);
    let result_token = cell.set_value(empty, vec![String::from("out")]);
    drop(result_token);
    drop(cell);
}

#[test]
fn independent_cells_run_independently() {
    let (mut a, token_a) = DynOnce::<i32, i32>::new(1);
    let (mut b, token_b) = DynOnce::<i32, i32>::new(2);
    // Each cell accepts exactly its own tokens; interleaving the two runs
    // entangles nothing.
    let (va, empty_a) = a.take_visitor(token_a);
    let (vb, empty_b) = b.take_visitor(token_b);
    assert_eq!((va, vb), (1, 2));
    let result_a = a.set_value(empty_a, va * 10);
    let result_b = b.set_value(empty_b, vb * 10);
    assert_eq!(b.take_value(result_b), 20);
    assert_eq!(a.take_value(result_a), 10);
}
