use jector::providers::{Factory, Provider, ProviderStack, Singleton};
use jector::InstanceFactory;
use std::cell::{Cell, RefCell};
use std::rc::Rc;

#[derive(Default)]
struct MyInstanceFactory {
    val: RefCell<i32>,
}

impl InstanceFactory<(), i32, ()> for MyInstanceFactory {
    /// The first call returns 1, the second returns 2, ...
    fn new_instance(&self, _: &(), _: &()) -> i32 {
        let mut ref_val = self.val.borrow_mut();
        *ref_val += 1;
        *ref_val
    }
}

/// Counts its constructions where the test can see the count.
struct Counting {
    calls: Rc<Cell<i32>>,
}

impl InstanceFactory<(), i32, i32> for Counting {
    /// The n-th call returns n plus the params.
    fn new_instance(&self, _: &(), params: &i32) -> i32 {
        self.calls.set(self.calls.get() + 1);
        self.calls.get() + *params
    }
}

type MyProviderStack = ProviderStack<(), i32, ()>;

struct MyProvider {
    val: i32,
}

impl MyProvider {
    fn new(val: i32) -> MyProvider {
        MyProvider { val }
    }
}

impl Provider<(), i32, ()> for MyProvider {
    fn get(&self, _: &(), _: &()) -> i32 {
        self.val
    }
}

#[test]
fn each_call_create_unique_instance() {
    let provider = Factory::new(Box::new(MyInstanceFactory::default()));
    let val_1 = provider.get(&(), &());
    let val_2 = provider.get(&(), &());

    assert_eq!(val_1, 1);
    assert_eq!(val_2, 2);
}

#[test]
fn factory_gives_one_two_up_to_n() {
    let provider = Factory::new(Box::new(MyInstanceFactory::default()));
    let mut seen = Vec::new();
    for _ in 0..10 {
        seen.push(provider.get(&(), &()));
    }
    assert_eq!(seen, vec![1, 2, 3, 4, 5, 6, 7, 8, 9, 10]);
}

#[test]
fn factory_constructs_once_per_call_from_the_params_of_the_call() {
    let calls = Rc::new(Cell::new(0));
    let provider = Factory::new(Box::new(Counting { calls: calls.clone() }));
    assert_eq!(calls.get(), 0);
    assert_eq!(provider.get(&(), &100), 101);
    assert_eq!(calls.get(), 1);
    assert_eq!(provider.get(&(), &200), 202);
    assert_eq!(calls.get(), 2);
}

#[test]
fn boxed_factory_is_a_provider() {
    let provider: Box<dyn Provider<(), i32, ()>> =
        Factory::boxed(Box::new(MyInstanceFactory::default()));
    assert_eq!(provider.get(&(), &()), 1);
    assert_eq!(provider.get(&(), &()), 2);
}

#[test]
fn every_call_return_same_value() {
    let provider = Singleton::new(Box::new(MyInstanceFactory::default()));
    let val_1 = provider.get(&(), &());
    let val_2 = provider.get(&(), &());

    assert_eq!(val_1, 1);
    assert_eq!(val_2, 1);
}

#[test]
fn singleton_is_empty_until_first_get() {
    let provider = Singleton::new(Box::new(MyInstanceFactory::default()));
    assert!(provider.is_empty());
    assert!(provider.is_empty());
    provider.get(&(), &());
    assert!(!provider.is_empty());
    assert!(!provider.is_empty());
}

#[test]
fn singleton_constructs_once_for_any_number_of_gets() {
    let calls = Rc::new(Cell::new(0));
    let provider = Singleton::new(Box::new(Counting { calls: calls.clone() }));
    assert_eq!(calls.get(), 0);
    for _ in 0..7 {
        assert_eq!(provider.get(&(), &0), 1);
        assert_eq!(calls.get(), 1);
    }
}

#[test]
fn singleton_ignores_params_after_first_construction() {
    let calls = Rc::new(Cell::new(0));
    let provider = Singleton::new(Box::new(Counting { calls: calls.clone() }));
    assert_eq!(provider.get(&(), &10), 11);
    assert_eq!(provider.get(&(), &20), 11);
    assert_eq!(provider.get(&(), &30), 11);
    assert_eq!(calls.get(), 1);
}

#[test]
fn singleton_clear_then_get_constructs_once_more() {
    let calls = Rc::new(Cell::new(0));
    let provider = Singleton::new(Box::new(Counting { calls: calls.clone() }));
    let before = provider.get(&(), &0);
    assert_eq!(before, 1);
    provider.clear();
    assert!(provider.is_empty());
    assert_eq!(calls.get(), 1);
    let after = provider.get(&(), &0);
    assert_eq!(after, 2);
    assert_ne!(before, after);
    assert_eq!(calls.get(), 2);
    assert_eq!(provider.get(&(), &0), 2);
    assert_eq!(calls.get(), 2);
    assert!(!provider.is_empty());
}

#[test]
fn singleton_clear_on_empty_memo_keeps_it_empty() {
    let calls = Rc::new(Cell::new(0));
    let provider = Singleton::new(Box::new(Counting { calls: calls.clone() }));
    provider.clear();
    assert!(provider.is_empty());
    assert_eq!(calls.get(), 0);
    assert_eq!(provider.get(&(), &5), 6);
}

#[test]
fn singleton_hands_out_clones_of_one_shared_value() {
    struct Shared;
    impl InstanceFactory<(), Rc<RefCell<i32>>, ()> for Shared {
        fn new_instance(&self, _: &(), _: &()) -> Rc<RefCell<i32>> {
            Rc::new(RefCell::new(0))
        }
    }
    let provider = Singleton::new(Box::new(Shared));
    let first = provider.get(&(), &());
    let second = provider.get(&(), &());
    assert!(Rc::ptr_eq(&first, &second));
    *first.borrow_mut() = 5;
    assert_eq!(*second.borrow(), 5);
    assert_eq!(*provider.get(&(), &()).borrow(), 5);
}

#[test]
fn boxed_singleton_is_a_provider() {
    let provider: Box<dyn Provider<(), i32, ()>> =
        Singleton::boxed(Box::new(MyInstanceFactory::default()));
    assert_eq!(provider.get(&(), &()), 1);
    assert_eq!(provider.get(&(), &()), 1);
}

#[test]
fn default_is_empty() {
    let provider: MyProviderStack = ProviderStack::default();
    assert!(provider.is_empty());
    assert_eq!(provider.len(), 0);
}

#[test]
#[should_panic]
fn empty_instance_panic_on_get() {
    let provider: MyProviderStack = ProviderStack::default();
    provider.get(&(), &());
}

#[test]
fn pop_on_empty_stack_gives_nothing() {
    let mut provider: MyProviderStack = ProviderStack::default();
    assert!(provider.pop().is_none());
    assert!(provider.is_empty());
    assert_eq!(provider.len(), 0);
    assert!(provider.pop().is_none());
}

#[test]
fn instance_with_initial_provider_is_not_empty() {
    let instance = ProviderStack::new(Box::new(MyProvider::new(42)));
    assert!(!instance.is_empty());
    assert_eq!(instance.len(), 1);
}

#[test]
fn instance_with_initial_provider_return_value() {
    let instance = ProviderStack::new(Box::new(MyProvider::new(42)));
    assert_eq!(instance.get(&(), &()), 42);
}

#[test]
fn provider_can_be_overridden() {
    let mut instance = ProviderStack::new(Box::new(MyProvider::new(42)));
    instance.push(Box::new(MyProvider::new(666)));
    assert_eq!(instance.get(&(), &()), 666);
}

#[test]
fn override_can_be_reverted() {
    let mut instance = ProviderStack::new(Box::new(MyProvider::new(42)));
    instance.push(Box::new(MyProvider::new(666)));
    instance.pop();
    assert_eq!(instance.get(&(), &()), 42);
}

#[test]
fn stack_depth_follows_push_and_pop() {
    let mut instance = ProviderStack::new(Box::new(MyProvider::new(42)));
    assert_eq!(instance.get(&(), &()), 42);
    assert_eq!(instance.len(), 1);
    instance.push(Box::new(MyProvider::new(666)));
    assert_eq!(instance.get(&(), &()), 666);
    assert_eq!(instance.len(), 2);
    let popped = instance.pop();
    assert_eq!(popped.map(|provider| provider.get(&(), &())), Some(666));
    assert_eq!(instance.get(&(), &()), 42);
    assert_eq!(instance.len(), 1);
}

#[test]
fn stack_pops_down_to_empty_and_fills_again() {
    let mut instance = ProviderStack::new(Box::new(MyProvider::new(1)));
    instance.push(Box::new(MyProvider::new(2)));
    instance.push(Box::new(MyProvider::new(3)));
    assert_eq!(instance.len(), 3);
    assert_eq!(instance.pop().map(|provider| provider.get(&(), &())), Some(3));
    assert_eq!(instance.pop().map(|provider| provider.get(&(), &())), Some(2));
    assert_eq!(instance.pop().map(|provider| provider.get(&(), &())), Some(1));
    assert!(instance.is_empty());
    assert!(instance.pop().is_none());
    instance.push(Box::new(MyProvider::new(4)));
    assert!(!instance.is_empty());
    assert_eq!(instance.get(&(), &()), 4);
}

#[test]
fn stack_holds_providers_of_different_kinds() {
    let mut instance: MyProviderStack =
        ProviderStack::new(Singleton::boxed(Box::new(MyInstanceFactory::default())));
    assert_eq!(instance.get(&(), &()), 1);
    assert_eq!(instance.get(&(), &()), 1);
    instance.push(Factory::boxed(Box::new(MyInstanceFactory::default())));
    assert_eq!(instance.get(&(), &()), 1);
    assert_eq!(instance.get(&(), &()), 2);
    instance.push(Box::new(ProviderStack::new(Box::new(MyProvider::new(7)))));
    assert_eq!(instance.get(&(), &()), 7);
    instance.pop();
    assert_eq!(instance.get(&(), &()), 3);
    instance.pop();
    assert_eq!(instance.get(&(), &()), 1);
}

/// A container that resolves one provider through another.
struct Wiring {
    base: Singleton<Wiring, i32, ()>,
    next: Factory<Wiring, i32, i32>,
}

struct Base;

impl InstanceFactory<Wiring, i32, ()> for Base {
    fn new_instance(&self, _: &Wiring, _: &()) -> i32 {
        42
    }
}

#[derive(Default)]
struct Scaled {
    val: RefCell<i32>,
}

impl InstanceFactory<Wiring, i32, i32> for Scaled {
    fn new_instance(&self, container: &Wiring, params: &i32) -> i32 {
        let mut val = self.val.borrow_mut();
        *val += 1;
        (container.base.get(container, &()) + *val) * *params
    }
}

#[test]
fn container_is_handed_through_to_the_instance_factory() {
    let container = Wiring {
        base: Singleton::new(Box::new(Base)),
        next: Factory::new(Box::new(Scaled::default())),
    };
    assert!(container.base.is_empty());
    assert_eq!(container.next.get(&container, &2), 86);
    assert!(!container.base.is_empty());
    assert_eq!(container.next.get(&container, &3), 132);
    assert_eq!(container.base.get(&container, &()), 42);
}

#[test]
fn first_time_callers_share_one_construction() {
    let calls = Rc::new(Cell::new(0));
    let provider = Singleton::new(Box::new(Counting { calls: calls.clone() }));
    let callers: Vec<Box<dyn Fn() -> i32 + '_>> = vec![
        Box::new(|| provider.get(&(), &1)),
        Box::new(|| provider.get(&(), &2)),
        Box::new(|| provider.get(&(), &3)),
        Box::new(|| provider.get(&(), &4)),
    ];
    let seen: Vec<i32> = callers.iter().map(|caller| caller()).collect();
    assert_eq!(seen, vec![2, 2, 2, 2]);
    assert_eq!(calls.get(), 1);
}

/// A container whose singleton asks the container about itself while its
/// value is constructed.
struct Probe {
    single: Singleton<Probe, bool, ()>,
}

struct AsksBack;

impl InstanceFactory<Probe, bool, ()> for AsksBack {
    fn new_instance(&self, container: &Probe, _: &()) -> bool {
        container.single.is_empty()
    }
}

#[test]
fn memo_is_empty_while_the_value_is_constructed() {
    let container = Probe { single: Singleton::new(Box::new(AsksBack)) };
    assert!(container.single.get(&container, &()));
    assert!(!container.single.is_empty());
    assert!(container.single.get(&container, &()));
    container.single.clear();
    assert!(container.single.is_empty());
    assert!(container.single.get(&container, &()));
}

struct Constant {
    val: i32,
}

impl jector::ValueFactory<(), i32, ()> for Constant {
    fn new_instance(&self, _: &(), _: &()) -> i32 {
        self.val
    }
}

#[test]
fn value_factory_creates_a_value() {
    let factory = Constant { val: 42 };
    assert_eq!(jector::ValueFactory::new_instance(&factory, &(), &()), 42);
    let boxed: Box<dyn jector::ValueFactory<(), i32, ()>> = Box::new(Constant { val: 7 });
    assert_eq!(boxed.new_instance(&(), &()), 7);
}

#[test]
fn prototype_is_among_the_providers() {
    let provider: Box<dyn Provider<(), Vec<i32>, ()>> =
        Box::new(jector::providers::Prototype::new(vec![1, 2]));
    let mut first = provider.get(&(), &());
    let second = provider.get(&(), &());
    first.clear();
    assert_eq!(first, Vec::<i32>::new());
    assert_eq!(second, vec![1, 2]);
}
