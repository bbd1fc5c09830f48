use incubator::dlist::DoublyLinkedList;
use incubator::linked_list::LinkedList;

#[test]
fn test_empty() {
    let list: LinkedList<i32> = LinkedList::new();
    assert_eq!(list.back(), None);
    assert_eq!(list.front(), None);
}

#[test]
fn test_one_added() {
    let mut list = LinkedList::new();
    list.push_back(10);
    assert_eq!(list.back(), Some(10));
    assert_eq!(list.front(), Some(10));
}

#[test]
fn test_two_added() {
    let mut list = LinkedList::new();
    list.push_back(10);
    list.push_back(20);
    assert_eq!(list.back(), Some(20));
    assert_eq!(list.front(), Some(10));
}

#[test]
fn test_three_added() {
    let mut list = LinkedList::new();
    list.push_back(20);
    list.push_back(30);
    list.push_front(10);
    assert_eq!(list.back(), Some(30));
    assert_eq!(list.front(), Some(10));
}

#[test]
fn test_one_pop() {
    let mut list = LinkedList::new();
    list.push_back(20);
    list.push_back(30);
    list.push_front(10);
    let val = list.pop_back().unwrap();
    assert_eq!(val, 30);
    assert_eq!(list.back(), Some(20));
    assert_eq!(list.front(), Some(10));
}

#[test]
fn test_two_pop() {
    let mut list = LinkedList::new();
    list.push_back(20);
    list.push_back(30);
    list.push_back(40);
    list.push_front(10);
    let val = list.pop_back().unwrap();
    let val2 = list.pop_front().unwrap();
    assert_eq!(val, 40);
    assert_eq!(val2, 10);
    assert_eq!(list.back(), Some(30));
    assert_eq!(list.front(), Some(20));
}

#[test]
fn into_iter_yields_front_first() {
    let mut list = LinkedList::new();
    list.push_back(1);
    list.push_back(2);
    list.push_front(0);
    let mut iter = list.into_iter();
    assert_eq!(iter.next(), Some(0));
    assert_eq!(iter.next(), Some(1));
    assert_eq!(iter.next(), Some(2));
    assert_eq!(iter.next(), None);
}

#[test]
fn doubly_linked_list_pushes_both_ends() {
    let mut list = DoublyLinkedList::new();
    assert!(list.is_empty());
    list.push_back(1);
    list.push_back(2);
    list.push_front(0);
    assert_eq!(list.len(), 3);
    assert!(!list.is_empty());
    assert_eq!(list.iter_order().as_slice(), &[0, 1, 2]);
    let backward: Vec<i32> = list.iter_order().iter().rev().copied().collect();
    assert_eq!(backward, vec![2, 1, 0]);
}
