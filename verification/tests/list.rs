use kernel::datastructures::linkedlist::{declare_linked_list, List};

#[test]
fn new_list_is_empty() {
    let mut list = List::new();
    assert_eq!(list.pop(), None);
    assert_eq!(list.pop(), None);
}

#[test]
fn pop_returns_the_last_pushed_first() {
    let mut list = List::new();
    list.push(1);
    list.push(2);
    list.push(3);
    assert_eq!(list.pop(), Some(3));
    assert_eq!(list.pop(), Some(2));
    list.push(-7);
    assert_eq!(list.pop(), Some(-7));
    assert_eq!(list.pop(), Some(1));
    assert_eq!(list.pop(), None);
}

#[test]
fn declared_list_holds_three() {
    let mut list = declare_linked_list();
    assert_eq!(list.pop(), Some(3));
    assert_eq!(list.pop(), None);
}

#[test]
fn list_prints_its_chain() {
    let mut list = List::new();
    list.push(3);
    let text = format!("{:?}", list);
    assert!(text.contains("elem: 3"));
}

#[test]
fn long_list_keeps_its_order() {
    let mut list = List::new();
    for i in 0..1000 {
        list.push(i);
    }
    for i in (0..1000).rev() {
        assert_eq!(list.pop(), Some(i));
    }
    assert_eq!(list.pop(), None);
}
