use linked_queue::List;

#[test]
fn basics() {
    let mut list = List::new();

    assert_eq!(list.pop(), None);

    list.push(1);
    list.push(2);
    list.push(3);

    assert_eq!(list.pop(), Some(1));
    assert_eq!(list.pop(), Some(2));

    list.push(4);
    list.push(5);

    assert_eq!(list.pop(), Some(3));
    assert_eq!(list.pop(), Some(4));

    assert_eq!(list.pop(), Some(5));
    assert_eq!(list.pop(), None);

    list.push(6);
    list.push(7);

    assert_eq!(list.pop(), Some(6));
    assert_eq!(list.pop(), Some(7));
    assert_eq!(list.pop(), None);
}

#[test]
fn pop_on_new_queue_is_none() {
    let mut list: List<String> = List::new();
    assert_eq!(list.pop(), None);
    assert_eq!(list.pop(), None);
    assert_eq!(list.peek(), None);
    assert_eq!(list.peek_mut(), None);
}

#[test]
fn pops_come_in_push_order() {
    let mut list = List::new();
    for i in 0..1000u32 {
        list.push(i);
    }
    for i in 0..1000u32 {
        assert_eq!(list.pop(), Some(i));
    }
    assert_eq!(list.pop(), None);
}

#[test]
fn interleaved_pushes_and_pops_keep_arrival_order() {
    let mut list = List::new();
    let mut pushed = 0u32;
    let mut popped = 0u32;
    for round in 0..200u32 {
        for _ in 0..(round % 7) {
            list.push(pushed);
            pushed += 1;
        }
        for _ in 0..(round % 5) {
            let got = list.pop();
            if popped < pushed {
                assert_eq!(got, Some(popped));
                popped += 1;
            } else {
                assert_eq!(got, None);
            }
        }
    }
    while popped < pushed {
        assert_eq!(list.pop(), Some(popped));
        popped += 1;
    }
    assert_eq!(list.pop(), None);
}

#[test]
fn emptied_queue_takes_new_elements() {
    let mut list = List::new();
    list.push('a');
    list.push('b');
    assert_eq!(list.pop(), Some('a'));
    assert_eq!(list.pop(), Some('b'));
    assert_eq!(list.pop(), None);
    list.push('c');
    assert_eq!(list.pop(), Some('c'));
    assert_eq!(list.pop(), None);
    list.push('d');
    list.push('e');
    assert_eq!(list.peek(), Some(&'d'));
    assert_eq!(list.pop(), Some('d'));
    assert_eq!(list.pop(), Some('e'));
    assert_eq!(list.pop(), None);
}

#[test]
fn single_element_is_both_front_and_back() {
    let mut list = List::new();
    list.push(10);
    assert_eq!(list.peek(), Some(&10));
    list.push(20);
    assert_eq!(list.peek(), Some(&10));
    assert_eq!(list.pop(), Some(10));
    assert_eq!(list.peek(), Some(&20));
    assert_eq!(list.pop(), Some(20));
    assert_eq!(list.peek(), None);
}

#[test]
fn peek_then_pop_agree() {
    let mut list = List::new();
    list.push(String::from("first"));
    list.push(String::from("second"));
    let seen = list.peek().cloned();
    assert_eq!(seen, Some(String::from("first")));
    assert_eq!(list.peek().cloned(), seen);
    assert_eq!(list.pop(), seen);
    let seen = list.peek_mut().map(|e| e.clone());
    assert_eq!(seen, Some(String::from("second")));
    assert_eq!(list.pop(), seen);
    assert_eq!(list.peek(), None);
}

#[test]
fn peek_mut_rewrites_the_front_only() {
    let mut list = List::new();
    list.push(1);
    list.push(2);
    list.push(3);
    match list.peek_mut() {
        Some(front) => *front = 100,
        None => panic!("queue of three has a front"),
    }
    assert_eq!(list.peek(), Some(&100));
    assert_eq!(list.pop(), Some(100));
    assert_eq!(list.pop(), Some(2));
    assert_eq!(list.pop(), Some(3));
    assert_eq!(list.pop(), None);
}

#[test]
fn option_elements_are_told_from_absence() {
    let mut list: List<Option<u8>> = List::new();
    list.push(None);
    list.push(Some(1));
    assert_eq!(list.peek(), Some(&None));
    assert_eq!(list.pop(), Some(None));
    assert_eq!(list.pop(), Some(Some(1)));
    assert_eq!(list.pop(), None);
}

#[test]
fn clear_empties_the_queue() {
    let mut list = List::new();
    list.clear();
    assert_eq!(list.pop(), None);
    for i in 0..10 {
        list.push(i);
    }
    assert_eq!(list.pop(), Some(0));
    list.clear();
    assert_eq!(list.peek(), None);
    assert_eq!(list.pop(), None);
    list.push(42);
    list.push(43);
    assert_eq!(list.pop(), Some(42));
    assert_eq!(list.pop(), Some(43));
    assert_eq!(list.pop(), None);
}

#[test]
fn long_queue_is_torn_down_without_deep_recursion() {
    let mut list = List::new();
    for i in 0..200_000u32 {
        list.push(i);
    }
    assert_eq!(list.peek(), Some(&0));
    drop(list);

    let mut list = List::new();
    for i in 0..200_000u32 {
        list.push(i);
    }
    list.clear();
    assert_eq!(list.pop(), None);
}
