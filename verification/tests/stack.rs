use linked_lists::stack::List;

#[test]
fn second_basics() {
    let mut list = List::new();

    // Check if empty pop case works!
    assert_eq!(list.pop(), None);

    // fill in
    list.push(1);
    list.push(2);
    list.push(3);

    assert_eq!(list.pop(), Some(3));
    assert_eq!(list.pop(), Some(2));

    list.push(4);
    list.push(5);

    assert_eq!(list.pop(), Some(5));
    assert_eq!(list.pop(), Some(4));

    assert_eq!(list.pop(), Some(1));
    assert_eq!(list.pop(), None);
}

#[test]
fn peek() {
    let mut list = List::new();
    assert_eq!(list.peek(), None);
    assert_eq!(list.peek_mut(), None);
    list.push(1);
    list.push(2);
    list.push(3);

    assert_eq!(list.peek(), Some(&3));
    assert_eq!(list.peek_mut(), Some(&mut 3));

    list.peek_mut().map(|value| *value = 42);

    assert_eq!(list.peek(), Some(&42));
    assert_eq!(list.pop(), Some(42));
}

#[test]
fn into_iter() {
    let mut list = List::new();
    list.push(1);
    list.push(2);
    list.push(3);

    let mut iter = list.into_iter();
    assert_eq!(iter.next(), Some(3));
    assert_eq!(iter.next(), Some(2));
    assert_eq!(iter.next(), Some(1));
    assert_eq!(iter.next(), None);
}

#[test]
fn iter() {
    let mut list = List::new();
    list.push(1);
    list.push(2);
    list.push(3);

    let mut iter = list.iter();
    assert_eq!(iter.next(), Some(&3));
    assert_eq!(iter.next(), Some(&2));
    assert_eq!(iter.next(), Some(&1));
}

#[test]
fn iter_mut() {
    let mut list = List::new();
    list.push(1);
    list.push(2);
    list.push(3);

    let mut iter = list.iter_mut();
    assert_eq!(iter.next(), Some(&mut 3));
    assert_eq!(iter.next(), Some(&mut 2));
    assert_eq!(iter.next(), Some(&mut 1));
}

#[test]
fn into_iter_stays_exhausted() {
    let mut list = List::new();
    list.push(9);
    let mut iter = list.into_iter();
    assert_eq!(iter.next(), Some(9));
    assert_eq!(iter.next(), None);
    assert_eq!(iter.next(), None);
    assert_eq!(iter.next(), None);
}

#[test]
fn iter_empty_yields_nothing() {
    let list: List<i32> = List::new();
    let mut iter = list.iter();
    assert_eq!(iter.next(), None);
    assert_eq!(iter.next(), None);
}

#[test]
fn iter_mut_write_is_seen_by_later_traversal() {
    let mut list = List::new();
    list.push(1);
    list.push(2);
    list.push(3);

    let mut iter = list.iter_mut();
    if let Some(top) = iter.next() {
        *top = 42;
    }
    if let Some(middle) = iter.next() {
        *middle = 43;
    }
    drop(iter);

    let mut fresh = list.iter();
    assert_eq!(fresh.next(), Some(&42));
    assert_eq!(fresh.next(), Some(&43));
    assert_eq!(fresh.next(), Some(&1));
    assert_eq!(fresh.next(), None);

    assert_eq!(list.pop(), Some(42));
    assert_eq!(list.pop(), Some(43));
    assert_eq!(list.pop(), Some(1));
    assert_eq!(list.pop(), None);
}

#[test]
fn long_generic_list_teardown() {
    // Regression test: dropping a long list must not exhaust the call
    // stack, so teardown has to walk the chain iteratively.
    let mut list = List::new();
    for i in 0..100_000u32 {
        list.push(i);
    }
    drop(list);
}
