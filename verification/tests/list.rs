use pipewire_wrapper::spa::list::List;

#[derive(Debug)]
struct TestElement {
    payload: u32,
}

impl TestElement {
    fn new(payload: u32) -> Self {
        Self { payload }
    }
}

#[test]
fn test_init() {
    let mut list: List<TestElement> = List::new();

    assert!(!list.initialized());
    list.init();
    assert!(list.initialized());
}

#[test]
fn test_empty() {
    let mut list: List<TestElement> = List::new();
    list.init();
    assert!(list.empty());
}

#[test]
fn test_insert() {
    let mut list: List<TestElement> = List::new();

    list.init();
    let elem1 = list.new_element(TestElement::new(1));
    let elem2 = list.new_element(TestElement::new(2));
    assert!(list.empty());

    list.insert(elem1);

    assert!(!list.empty());
    assert_eq!(list.payload(list.first().unwrap()).payload, list.payload(elem1).payload);
    assert!(list.next(elem1).is_none());
    assert!(list.prev(elem1).is_none());

    list.insert(elem2);
    assert_eq!(list.payload(list.first().unwrap()).payload, list.payload(elem2).payload);
    assert_eq!(list.payload(list.next(elem2).unwrap()).payload, list.payload(elem1).payload);
    assert!(list.next(elem1).is_none());
}

#[test]
fn test_insert_list() {
    let mut list1: List<TestElement> = List::new();
    let mut list2: List<TestElement> = List::new();

    list1.init();
    list2.init();
    let elem1 = list1.new_element(TestElement::new(1));
    let elem2 = list1.new_element(TestElement::new(2));
    let elem3 = list2.new_element(TestElement::new(3));
    let elem4 = list2.new_element(TestElement::new(4));

    list1.insert(elem1);
    list1.insert(elem2);

    list2.insert(elem3);
    list2.insert(elem4);

    list1.insert_list(&mut list2);

    let current = list1.first();
    assert_eq!(list1.payload(current.unwrap()).payload, 4);
    let current = list1.next(current.unwrap());
    assert_eq!(list1.payload(current.unwrap()).payload, 3);
    let current = list1.next(current.unwrap());
    assert_eq!(list1.payload(current.unwrap()).payload, 2);
    let current = list1.next(current.unwrap());
    assert_eq!(list1.payload(current.unwrap()).payload, 1);
    let current = list1.next(current.unwrap());
    assert!(current.is_none());
}

#[test]
fn test_iterator() {
    let mut list1: List<TestElement> = List::new();
    let elem1 = list1.new_element(TestElement::new(1));
    let elem2 = list1.new_element(TestElement::new(2));
    let elem3 = list1.new_element(TestElement::new(3));
    let elem4 = list1.new_element(TestElement::new(4));

    list1.init();
    list1.insert(elem1);
    list1.insert(elem2);
    list1.insert(elem3);
    list1.insert(elem4);

    let mut iter = list1.iter();

    assert_eq!(iter.next().unwrap().payload, 4);
    assert_eq!(iter.next().unwrap().payload, 3);
    assert_eq!(iter.next().unwrap().payload, 2);
    assert_eq!(iter.next().unwrap().payload, 1);

    assert!(iter.next().is_none());
}

#[test]
fn test_mut_iterator() {
    let mut list1: List<TestElement> = List::new();
    let elem1 = list1.new_element(TestElement::new(1));
    let elem2 = list1.new_element(TestElement::new(2));
    let elem3 = list1.new_element(TestElement::new(3));
    let elem4 = list1.new_element(TestElement::new(4));

    list1.init();
    list1.insert(elem1);
    list1.insert(elem2);
    list1.insert(elem3);
    list1.insert(elem4);

    let mut iter = list1.iter_mut();

    assert_eq!(list1.payload_mut(iter.next(&list1).unwrap()).payload, 4);
    assert_eq!(list1.payload_mut(iter.next(&list1).unwrap()).payload, 3);
    assert_eq!(list1.payload_mut(iter.next(&list1).unwrap()).payload, 2);
    assert_eq!(list1.payload_mut(iter.next(&list1).unwrap()).payload, 1);

    assert!(iter.next(&list1).is_none());
}

#[test]
fn list_append_remove_and_clean() {
    let mut list: List<TestElement> = List::new();
    list.init();
    let a = list.new_element(TestElement::new(1));
    let b = list.new_element(TestElement::new(2));
    let c = list.new_element(TestElement::new(3));
    list.append(a);
    list.append(b);
    list.prepend(c);
    assert_eq!(list.payload(list.first().unwrap()).payload, 3);
    assert_eq!(list.payload(list.last().unwrap()).payload, 2);
    assert_eq!(list.prev(b), Some(a));
    list.remove(a);
    assert_eq!(list.next(c), Some(b));
    assert_eq!(list.prev(b), Some(c));
    list.payload_mut(b).payload = 20;
    assert_eq!(list.payload(b).payload, 20);
    list.clean();
    assert!(list.empty());
    assert!(list.first().is_none());
    assert!(list.last().is_none());
}
