use incubator::facts::{Fact, HasFacts};

#[test]
fn test_vec_facts() {
    let f: Fact<Vec<i32>> = Fact::new();
    let fact = f.fact();
    assert!(Fact::<Vec<i32>>::all_facts().contains(&fact));
}

#[test]
fn test_string_facts() {
    let f: Fact<String> = Fact::new();
    let fact = f.fact();
    assert!(Fact::<String>::all_facts().contains(&fact));
}

#[test]
fn test_option_facts() {
    let f: Fact<Option<i32>> = Fact::new();
    let fact = f.fact();
    assert!(Fact::<Option<i32>>::all_facts().contains(&fact));
}

#[test]
fn test_result_facts() {
    let f: Fact<Result<i32, String>> = Fact::new();
    let fact = f.fact();
    assert!(Fact::<Result<i32, String>>::all_facts().contains(&fact));
}

#[test]
fn test_zero_size() {
    assert_eq!(std::mem::size_of::<Fact<Vec<u8>>>(), 0);
    assert_eq!(std::mem::size_of::<Fact<String>>(), 0);
    assert_eq!(std::mem::size_of::<Fact<Option<i32>>>(), 0);
}

#[test]
fn test_fact_count() {
    assert_eq!(Fact::<Vec<i32>>::fact_count(), 7);
    assert_eq!(Fact::<String>::fact_count(), 5);
    assert_eq!(Fact::<Option<i32>>::fact_count(), 5);
}

#[test]
fn test_all_facts() {
    let facts = Fact::<Vec<i32>>::all_facts();
    assert_eq!(facts.len(), 7);
    assert!(facts.contains(&"Vec is heap-allocated"));
}

#[test]
fn smart_pointer_facts_are_present() {
    assert_eq!(Fact::<Box<i32>>::fact_count(), 5);
    assert_eq!(Fact::<std::rc::Rc<i32>>::fact_count(), 5);
    assert_eq!(Fact::<std::sync::Arc<i32>>::fact_count(), 5);
    assert_eq!(<Box<i32> as HasFacts>::facts()[0], "Box provides heap allocation for a single value");
}
