use linked_lists::basic::List;

#[test]
fn first_basics() {
    let mut list = List::new();

    // Check if empty pop case works!
    assert_eq!(list.pop(), None);

    // fill in
    list.push(1);
    list.push(2);
    list.push(3);

    assert_eq!(list.pop(), Some(3));
    assert_eq!(list.pop(), Some(2));

    list.push(4);
    list.push(5);

    assert_eq!(list.pop(), Some(5));
    assert_eq!(list.pop(), Some(4));

    assert_eq!(list.pop(), Some(1));
    assert_eq!(list.pop(), None);
}

#[test]
fn pop_stays_empty() {
    let mut list = List::new();
    assert_eq!(list.pop(), None);
    assert_eq!(list.pop(), None);
    list.push(7);
    assert_eq!(list.pop(), Some(7));
    assert_eq!(list.pop(), None);
    assert_eq!(list.pop(), None);
}

#[test]
fn long_list_teardown() {
    // Regression test: dropping a long list must not exhaust the call
    // stack, so teardown has to walk the chain iteratively.
    let mut list = List::new();
    for i in 0..100_000 {
        list.push(i);
    }
    drop(list);
}
