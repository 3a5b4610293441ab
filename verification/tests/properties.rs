use mini_di::Construct;
use mini_di::ConstructAs;
use mini_di::Container;
use mini_di::Error;
use mini_di::Resolver;
use std::sync::atomic::AtomicUsize;
use std::sync::atomic::Ordering;
use std::sync::Arc;
use std::sync::Mutex;

/// Counts how often it was constructed, in a counter that is itself
/// resolved from the container.
struct Counted {
    serial: usize,
}

impl Construct for Counted {
    fn construct(locator: &Resolver) -> Self {
        let counter: Arc<AtomicUsize> = locator.resolve().unwrap();
        Self {
            serial: counter.fetch_add(1, Ordering::SeqCst) + 1,
        }
    }
}

struct ArcCounted;

impl Construct for ArcCounted {
    fn construct(_locator: &Resolver) -> Self {
        Self
    }
}

impl ConstructAs for ArcCounted {
    type Target = Arc<Counted>;
    fn construct_as(locator: &Resolver) -> Self::Target {
        Arc::new(Counted::construct(locator))
    }
}

struct Logger {
    lines: Mutex<Vec<String>>,
}

impl Logger {
    fn log(&self, message: &str) {
        self.lines.lock().unwrap().push(message.to_string());
    }
}

impl Construct for Logger {
    fn construct(_locator: &Resolver) -> Self {
        Self {
            lines: Mutex::new(Vec::new()),
        }
    }
}

struct Boss {
    logger: Arc<Logger>,
}

impl Boss {
    fn hit(&self) {
        self.logger.log("Boss was hit.");
    }
}

impl Construct for Boss {
    fn construct(locator: &Resolver) -> Self {
        Self {
            logger: locator.resolve().unwrap(),
        }
    }
}

trait AudioManager {
    fn play(&self) -> &'static str;
}

struct TestAudioManager;

impl AudioManager for TestAudioManager {
    fn play(&self) -> &'static str {
        "TestAudioManager"
    }
}

impl Construct for TestAudioManager {
    fn construct(_locator: &Resolver) -> Self {
        Self
    }
}

impl ConstructAs for TestAudioManager {
    type Target = Box<dyn AudioManager>;
    fn construct_as(locator: &Resolver) -> Self::Target {
        Box::new(TestAudioManager::construct(locator))
    }
}

/// Names the scope it was built in, through a label that it resolves.
struct Labelled {
    label: String,
}

impl Construct for Labelled {
    fn construct(locator: &Resolver) -> Self {
        Self {
            label: locator.resolve().unwrap(),
        }
    }
}

fn counter_of(container: &Container) -> usize {
    let counter: Arc<AtomicUsize> = container.as_resolver().resolve().unwrap();
    counter.load(Ordering::SeqCst)
}

fn counting_container() -> Container {
    let mut container = Container::new();
    container
        .when::<Arc<AtomicUsize>>()
        .clone(Arc::new(AtomicUsize::new(0)))
        .unwrap();
    container
}

fn shareable<T: Send + Sync>(_value: &T) -> bool {
    true
}

#[test]
fn clone_returns_the_value_on_every_call() {
    let mut container = Container::new();
    container.when::<u32>().clone(42).unwrap();
    let resolver = container.as_resolver();
    assert_eq!(resolver.resolve::<u32>(), Some(42));
    assert_eq!(resolver.resolve::<u32>(), Some(42));
    assert_eq!(container.as_resolver().resolve::<u32>(), Some(42));
}

#[test]
fn clones_are_independent() {
    let mut container = Container::new();
    container.when::<Vec<u32>>().clone(vec![1, 2, 3]).unwrap();
    let resolver = container.as_resolver();
    let mut first: Vec<u32> = resolver.resolve().unwrap();
    first.push(4);
    first[0] = 9;
    let second: Vec<u32> = resolver.resolve().unwrap();
    assert_eq!(first, vec![9, 2, 3, 4]);
    assert_eq!(second, vec![1, 2, 3]);
}

#[test]
fn second_registration_is_refused() {
    let mut container = Container::new();
    assert!(matches!(container.when::<u32>().clone(1), Ok(())));
    assert!(matches!(
        container.when::<u32>().clone(2),
        Err(Error::AlreadyRegistered)
    ));
    assert_eq!(container.as_resolver().resolve::<u32>(), Some(1));
}

#[test]
fn every_strategy_refuses_a_taken_key() {
    let mut container = counting_container();
    container.when::<Counted>().construct_it().unwrap();
    assert!(matches!(
        container.when::<Counted>().construct_it(),
        Err(Error::AlreadyRegistered)
    ));
    assert!(matches!(
        container
            .when::<Counted>()
            .construct_with(|_| Counted { serial: 100 }),
        Err(Error::AlreadyRegistered)
    ));
    container.when::<Arc<Counted>>().construct::<ArcCounted>().unwrap();
    assert!(matches!(
        container.when::<Arc<Counted>>().construct::<ArcCounted>(),
        Err(Error::AlreadyRegistered)
    ));
    assert!(matches!(
        container.when::<Arc<Counted>>().singleton().construct_it(),
        Err(Error::AlreadyRegistered)
    ));
    assert!(matches!(
        container
            .when::<Arc<Counted>>()
            .singleton()
            .construct::<ArcCounted>(),
        Err(Error::AlreadyRegistered)
    ));
    assert!(matches!(
        container
            .when::<Arc<Counted>>()
            .singleton()
            .construct_with(|_| Arc::new(Counted { serial: 100 })),
        Err(Error::AlreadyRegistered)
    ));
    assert!(matches!(
        container.register_singleton::<Counted>(),
        Err(Error::AlreadyRegistered)
    ));
    // The first registrations are the ones that answer.
    let transient: Counted = container.as_resolver().resolve().unwrap();
    assert_eq!(transient.serial, 1);
    let delegated: Arc<Counted> = container.as_resolver().resolve().unwrap();
    assert_eq!(delegated.serial, 2);
    let again: Arc<Counted> = container.as_resolver().resolve().unwrap();
    assert_eq!(again.serial, 3);
}

#[test]
fn refused_registration_names_its_reason() {
    let mut container = Container::new();
    container.when::<u8>().clone(1).unwrap();
    let refused = container.when::<u8>().clone(2).unwrap_err();
    assert_eq!(format!("{:?}", refused), "AlreadyRegistered");
}

#[test]
fn child_falls_back_to_parent() {
    let mut parent = Container::new();
    parent.when::<u32>().clone(1).unwrap();
    let child = Container::with_parent(&parent);
    assert_eq!(child.as_resolver().resolve::<u32>(), Some(1));
}

#[test]
fn child_shadows_parent() {
    let mut parent = Container::new();
    parent.when::<u32>().clone(1).unwrap();
    parent.when::<u64>().clone(10).unwrap();
    let mut child = Container::with_parent(&parent);
    child.when::<u32>().clone(2).unwrap();
    assert_eq!(child.as_resolver().resolve::<u32>(), Some(2));
    assert_eq!(child.as_resolver().resolve::<u64>(), Some(10));
    assert_eq!(parent.as_resolver().resolve::<u32>(), Some(1));
}

#[test]
fn registering_in_a_child_leaves_the_parent_alone() {
    let parent = Arc::new(Container::new());
    let mut child = Container::with_parent(parent.clone());
    child.when::<u32>().clone(2).unwrap();
    assert_eq!(child.as_resolver().resolve::<u32>(), Some(2));
    assert_eq!(parent.as_resolver().resolve::<u32>(), None);
}

#[test]
fn borrowed_and_shared_parents_resolve_alike() {
    let mut parent = Container::new();
    parent.when::<u32>().clone(7).unwrap();
    parent.when::<String>().clone("up".to_string()).unwrap();
    let by_ref = Container::with_parent(&parent);
    let from_ref = (
        by_ref.as_resolver().resolve::<u32>(),
        by_ref.as_resolver().resolve::<String>(),
        by_ref.as_resolver().resolve::<u8>(),
    );
    let mut again = Container::new();
    again.when::<u32>().clone(7).unwrap();
    again.when::<String>().clone("up".to_string()).unwrap();
    let owned = Container::with_parent(Arc::new(again));
    let from_owned = (
        owned.as_resolver().resolve::<u32>(),
        owned.as_resolver().resolve::<String>(),
        owned.as_resolver().resolve::<u8>(),
    );
    assert_eq!(from_ref, (Some(7), Some("up".to_string()), None));
    assert_eq!(from_owned, from_ref);
}

#[test]
fn three_scopes_nearest_wins() {
    let mut root = Container::new();
    root.when::<u8>().clone(1).unwrap();
    root.when::<u16>().clone(1).unwrap();
    root.when::<u32>().clone(1).unwrap();
    let mut middle = Container::with_parent(&root);
    middle.when::<u16>().clone(2).unwrap();
    middle.when::<u32>().clone(2).unwrap();
    let mut leaf = Container::with_parent(&middle);
    leaf.when::<u32>().clone(3).unwrap();
    let resolver = leaf.as_resolver();
    assert_eq!(resolver.resolve::<u8>(), Some(1));
    assert_eq!(resolver.resolve::<u16>(), Some(2));
    assert_eq!(resolver.resolve::<u32>(), Some(3));
    assert_eq!(resolver.resolve::<u64>(), None);
}

#[test]
fn nested_resolution_starts_at_the_lowest_scope() {
    let mut parent = Container::new();
    parent.when::<String>().clone("parent".to_string()).unwrap();
    parent.when::<Labelled>().construct_it().unwrap();
    let mut child = Container::with_parent(&parent);
    child.when::<String>().clone("child".to_string()).unwrap();
    let through_child: Labelled = child.as_resolver().resolve().unwrap();
    let through_parent: Labelled = parent.as_resolver().resolve().unwrap();
    assert_eq!(through_child.label, "child");
    assert_eq!(through_parent.label, "parent");
}

#[test]
fn singleton_is_one_instance() {
    let mut container = counting_container();
    container
        .when::<Arc<Counted>>()
        .singleton()
        .construct_it()
        .unwrap();
    assert_eq!(counter_of(&container), 0);
    let first: Arc<Counted> = container.as_resolver().resolve().unwrap();
    let second: Arc<Counted> = container.as_resolver().resolve().unwrap();
    let third: Arc<Counted> = container.as_resolver().resolve().unwrap();
    assert!(Arc::ptr_eq(&first, &second));
    assert!(Arc::ptr_eq(&first, &third));
    assert_eq!(first.serial, 1);
    assert_eq!(counter_of(&container), 1);
}

#[test]
fn singleton_from_a_closure_is_one_instance() {
    let mut container = counting_container();
    container
        .when::<Arc<Counted>>()
        .singleton()
        .construct_with(|locator| Arc::new(Counted::construct(locator)))
        .unwrap();
    let first: Arc<Counted> = container.as_resolver().resolve().unwrap();
    let second: Arc<Counted> = container.as_resolver().resolve().unwrap();
    assert!(Arc::ptr_eq(&first, &second));
    assert_eq!(counter_of(&container), 1);
}

#[test]
fn singleton_from_a_recipe_is_one_instance() {
    let mut container = counting_container();
    container
        .when::<Arc<Counted>>()
        .singleton()
        .construct::<ArcCounted>()
        .unwrap();
    let first: Arc<Counted> = container.as_resolver().resolve().unwrap();
    let second: Arc<Counted> = container.as_resolver().resolve().unwrap();
    assert!(Arc::ptr_eq(&first, &second));
    assert_eq!(counter_of(&container), 1);
}

#[test]
fn register_singleton_is_one_instance() {
    let mut container = counting_container();
    container.register_singleton::<Counted>().unwrap();
    let first: Arc<Counted> = container.as_resolver().resolve().unwrap();
    let second: Arc<Counted> = container.as_resolver().resolve().unwrap();
    assert!(Arc::ptr_eq(&first, &second));
    assert_eq!(second.serial, 1);
    assert_eq!(counter_of(&container), 1);
}

#[test]
fn transient_is_built_on_every_call() {
    let mut container = counting_container();
    container.when::<Counted>().construct_it().unwrap();
    let first: Counted = container.as_resolver().resolve().unwrap();
    let second: Counted = container.as_resolver().resolve().unwrap();
    assert_eq!(first.serial, 1);
    assert_eq!(second.serial, 2);
    assert_eq!(counter_of(&container), 2);
}

#[test]
fn closure_is_called_on_every_call() {
    let mut container = counting_container();
    container
        .when::<usize>()
        .construct_with(|locator| Counted::construct(locator).serial * 10)
        .unwrap();
    assert_eq!(container.as_resolver().resolve::<usize>(), Some(10));
    assert_eq!(container.as_resolver().resolve::<usize>(), Some(20));
}

#[test]
fn singleton_in_a_parent_is_shared_by_children() {
    let mut parent = counting_container();
    parent.register_singleton::<Counted>().unwrap();
    let left = Container::with_parent(&parent);
    let right = Container::with_parent(&parent);
    let from_left: Arc<Counted> = left.as_resolver().resolve().unwrap();
    let from_right: Arc<Counted> = right.as_resolver().resolve().unwrap();
    let from_parent: Arc<Counted> = parent.as_resolver().resolve().unwrap();
    assert!(Arc::ptr_eq(&from_left, &from_right));
    assert!(Arc::ptr_eq(&from_left, &from_parent));
    assert_eq!(counter_of(&parent), 1);
}

#[test]
fn unregistered_type_is_absent() {
    let container = Container::new();
    assert_eq!(container.as_resolver().resolve::<u32>(), None);
    let mut other = Container::new();
    other.when::<u64>().clone(5).unwrap();
    assert_eq!(other.as_resolver().resolve::<u32>(), None);
    assert_eq!(other.as_resolver().resolve::<i64>(), None);
    assert!(other.as_resolver().resolve::<Arc<u64>>().is_none());
}

#[test]
fn types_are_kept_apart() {
    let mut container = Container::new();
    container.when::<u8>().clone(8).unwrap();
    container.when::<u16>().clone(16).unwrap();
    container.when::<u32>().clone(32).unwrap();
    container.when::<String>().clone("text".to_string()).unwrap();
    container.when::<Arc<u32>>().clone(Arc::new(33)).unwrap();
    let resolver = container.as_resolver();
    assert_eq!(resolver.resolve::<u32>(), Some(32));
    assert_eq!(resolver.resolve::<u8>(), Some(8));
    assert_eq!(resolver.resolve::<String>(), Some("text".to_string()));
    assert_eq!(resolver.resolve::<u16>(), Some(16));
    assert_eq!(resolver.resolve::<Arc<u32>>(), Some(Arc::new(33)));
}

#[test]
fn bosses_share_one_logger() {
    let mut container = Container::new();
    container
        .when::<Arc<Logger>>()
        .singleton()
        .construct_it()
        .unwrap();
    container.when::<Boss>().construct_it().unwrap();
    let resolver = container.as_resolver();
    let first: Boss = resolver.resolve().unwrap();
    let second: Boss = resolver.resolve().unwrap();
    assert!(Arc::ptr_eq(&first.logger, &second.logger));
    first.hit();
    second.hit();
    let logger: Arc<Logger> = resolver.resolve().unwrap();
    assert!(Arc::ptr_eq(&logger, &first.logger));
    assert_eq!(
        *logger.lines.lock().unwrap(),
        vec!["Boss was hit.".to_string(), "Boss was hit.".to_string()]
    );
}

#[test]
fn capability_dispatches_to_its_recipe() {
    let mut container = Container::new();
    container
        .when::<Box<dyn AudioManager>>()
        .construct::<TestAudioManager>()
        .unwrap();
    let manager: Box<dyn AudioManager> = container.as_resolver().resolve().unwrap();
    assert_eq!(manager.play(), "TestAudioManager");
}

#[test]
fn locator_finds_what_resolver_finds() {
    let mut parent = Container::new();
    parent.when::<u32>().clone(42).unwrap();
    let mut child = Container::with_parent(&parent);
    child.when::<u64>().clone(7).unwrap();
    let locator = child.as_locator();
    assert_eq!(locator.locate::<u32>(), Some(42));
    assert_eq!(locator.locate::<u64>(), Some(7));
    assert_eq!(locator.locate::<u8>(), None);
    assert_eq!(
        locator.locate::<u32>(),
        child.as_resolver().resolve::<u32>()
    );
}

#[test]
fn wrapped_values_are_built_from_the_inner_recipe() {
    let mut container = counting_container();
    container
        .when::<std::rc::Rc<Counted>>()
        .construct_it()
        .unwrap();
    container.when::<Arc<Counted>>().construct_it().unwrap();
    container
        .when::<std::cell::RefCell<Counted>>()
        .construct_it()
        .unwrap();
    container.when::<Mutex<Counted>>().construct_it().unwrap();
    let resolver = container.as_resolver();
    let rc: std::rc::Rc<Counted> = resolver.resolve().unwrap();
    let arc: Arc<Counted> = resolver.resolve().unwrap();
    let cell: std::cell::RefCell<Counted> = resolver.resolve().unwrap();
    let mutex: Mutex<Counted> = resolver.resolve().unwrap();
    assert_eq!(rc.serial, 1);
    assert_eq!(arc.serial, 2);
    assert_eq!(cell.borrow().serial, 3);
    assert_eq!(mutex.lock().unwrap().serial, 4);
}

#[test]
fn container_can_be_shared() {
    let mut container = counting_container();
    container.register_singleton::<Counted>().unwrap();
    assert!(shareable(&container));
    let child = Container::with_parent(Arc::new(container));
    assert!(shareable(&child));
    let first: Arc<Counted> = child.as_resolver().resolve().unwrap();
    assert_eq!(first.serial, 1);
}
