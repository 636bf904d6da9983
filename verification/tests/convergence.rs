use rust_live_server::ot::operations::{
    DeleteOperation, InsertOperation, Operation, OperationTrait,
};

fn insert(position: u32, text: &str) -> Operation {
    Operation::Insert(InsertOperation::new(position, 0, String::from(text)))
}

fn delete(position: u32, len: u32) -> Operation {
    Operation::Delete(DeleteOperation::new(position, 0, len))
}

fn copy(operation: &Operation) -> Operation {
    match operation {
        Operation::Insert(op) => insert(op.position(), op.text()),
        Operation::Delete(op) => delete(op.position(), *op.len()),
    }
}

fn shape(operation: &Operation) -> (u32, u32, String) {
    match operation {
        Operation::Insert(op) => (op.position(), 0, op.text().clone()),
        Operation::Delete(op) => (op.position(), *op.len(), String::new()),
    }
}

/// `first`, then `second` moved across `first`; `None` where one of the two
/// does not lie within the text it meets.
fn one_order(text: &str, first: &Operation, second: &Operation) -> Option<String> {
    let mut text = String::from(text);
    first.apply(&mut text).ok()?;
    let mut moved = copy(second);
    moved.transform_relative_to(first);
    moved.apply(&mut text).ok()?;
    Some(text)
}

fn converges(text: &str, a: &Operation, b: &Operation) -> bool {
    match (one_order(text, a, b), one_order(text, b, a)) {
        (Some(left), Some(right)) => left == right,
        _ => false,
    }
}

fn overlap(p: u32, l: u32, q: u32, m: u32) -> u32 {
    (p + l).min(q + m).saturating_sub(p.max(q))
}

fn torn(text: &str, p: u32, inserted: &str, q: u32, len: u32) -> bool {
    if !(q < p && p < q + len) {
        return false;
    }
    let rest: String = text.chars().skip(p as usize).collect();
    let with_insert: String = format!("{inserted}{rest}")
        .chars()
        .skip((q + len - p) as usize)
        .collect();
    let kept: String = text.chars().skip((q + len) as usize).collect();
    with_insert != format!("{inserted}{kept}")
}

fn stranded(text: &str, p: u32, l: u32, q: u32, m: u32) -> bool {
    overlap(p, l, q, m) == l && p + m > text.chars().count() as u32
}

fn conflicts(text: &str, a: &Operation, b: &Operation) -> bool {
    match (a, b) {
        (Operation::Insert(x), Operation::Insert(y)) => {
            x.position() == y.position()
                && format!("{}{}", x.text(), y.text()) != format!("{}{}", y.text(), x.text())
        }
        (Operation::Insert(x), Operation::Delete(y)) => {
            torn(text, x.position(), x.text(), y.position(), *y.len())
        }
        (Operation::Delete(x), Operation::Insert(y)) => {
            torn(text, y.position(), y.text(), x.position(), *x.len())
        }
        (Operation::Delete(x), Operation::Delete(y)) => {
            stranded(text, x.position(), *x.len(), y.position(), *y.len())
                || stranded(text, y.position(), *y.len(), x.position(), *x.len())
        }
    }
}

fn operations_on(len: u32) -> Vec<Operation> {
    let mut all = Vec::new();
    for position in 0..=len {
        for text in ["", "a", "b", "ab"] {
            all.push(insert(position, text));
        }
        for length in 0..=(len - position) {
            all.push(delete(position, length));
        }
    }
    all
}

#[test]
fn two_orders_meet_unless_the_pair_conflicts() {
    for text in ["", "a", "ab", "aab", "abab", "abbab"] {
        let all = operations_on(text.chars().count() as u32);
        for a in &all {
            for b in &all {
                assert_eq!(
                    converges(text, a, b),
                    !conflicts(text, a, b),
                    "text {text:?}, a {a:?}, b {b:?}"
                );
            }
        }
    }
}

#[test]
fn inserts_at_different_positions_meet() {
    let a = insert(1, "X");
    let b = insert(3, "YY");
    assert_eq!(one_order("abcd", &a, &b).unwrap(), "aXbcYYd");
    assert_eq!(one_order("abcd", &b, &a).unwrap(), "aXbcYYd");
}

#[test]
fn insert_and_delete_apart_meet() {
    let a = insert(5, "X");
    let b = delete(1, 3);
    assert_eq!(one_order("hello", &a, &b).unwrap(), "hoX");
    assert_eq!(one_order("hello", &b, &a).unwrap(), "hoX");
}

#[test]
fn overlapping_deletes_meet() {
    let a = delete(1, 3);
    let b = delete(2, 3);
    assert_eq!(one_order("abcdef", &a, &b).unwrap(), "af");
    assert_eq!(one_order("abcdef", &b, &a).unwrap(), "af");
}

#[test]
fn inserts_at_one_position_do_not_meet() {
    let a = insert(0, "A");
    let b = insert(0, "B");
    assert_eq!(one_order("", &a, &b).unwrap(), "AB");
    assert_eq!(one_order("", &b, &a).unwrap(), "BA");
    assert!(conflicts("", &a, &b));
    // unless the two texts read the same in both orders
    assert!(converges("", &insert(0, "xx"), &insert(0, "x")));
}

#[test]
fn insert_inside_a_deleted_range_does_not_meet() {
    let a = insert(3, "X");
    let b = delete(1, 3);
    assert_eq!(one_order("hello", &b, &a).unwrap(), "hXo");
    assert_eq!(one_order("hello", &a, &b).unwrap(), "hlo");
    assert!(conflicts("hello", &a, &b));
}

#[test]
fn covered_delete_may_be_stranded() {
    let a = delete(1, 5);
    let b = delete(2, 2);
    assert_eq!(one_order("abcdef", &a, &b), None);
    assert!(conflicts("abcdef", &a, &b));
    // where the other delete leaves enough text, the empty delete fits
    assert_eq!(one_order("abcdef", &delete(1, 3), &b).unwrap(), "aef");
    assert_eq!(one_order("abcdef", &b, &delete(1, 3)).unwrap(), "aef");
}

#[test]
fn disjoint_operations_that_do_not_move_each_other_stay() {
    let pairs = [
        (delete(3, 0), delete(0, 2)),
        (insert(2, ""), insert(5, "")),
        (delete(0, 0), insert(4, "")),
        (insert(1, ""), delete(1, 0)),
    ];
    for (a, b) in pairs {
        let mut moved_a = copy(&a);
        moved_a.transform_relative_to(&b);
        let mut moved_b = copy(&b);
        moved_b.transform_relative_to(&a);
        assert_eq!(shape(&moved_a), shape(&a));
        assert_eq!(shape(&moved_b), shape(&b));
    }
}

#[test]
fn transform_keeps_kind_revision_and_text() {
    let mut op = Operation::Insert(InsertOperation::new(4, 9, String::from("kept")));
    op.transform_relative_to(&delete(0, 2));
    op.transform_relative_to(&insert(0, "abc"));
    assert_eq!(op.revision(), 9);
    assert_eq!(op.position(), 5);
    assert_eq!(op.downcast::<InsertOperation>().unwrap().text(), "kept");
    let mut cut = Operation::Delete(DeleteOperation::new(2, 9, 6));
    cut.transform_relative_to(&delete(0, 4));
    cut.transform_relative_to(&insert(0, "abc"));
    assert_eq!(shape(&cut), (3, 4, String::new()));
    assert_eq!(cut.revision(), 9);
}
