use matchbot::registry::{MapRegistry, RegistryError, DEFAULT_POOL_BOUND};

fn names_of(reg: &MapRegistry) -> Vec<String> {
    reg.names().iter().map(|s| s.clone()).collect()
}

#[test]
fn bounded_pool_scenario() {
    // Pool bound 2, pool ["Ascent"]: adding "Bind" succeeds, then the pool
    // is full and "Haven" is refused.
    let mut reg = MapRegistry::new(2);
    assert_eq!(reg.add_map(String::from("Ascent")), Ok(()));
    assert_eq!(reg.add_map(String::from("Bind")), Ok(()));
    assert_eq!(names_of(&reg), vec![String::from("Ascent"), String::from("Bind")]);
    assert_eq!(reg.add_map(String::from("Haven")), Err(RegistryError::PoolFull));
    assert_eq!(names_of(&reg), vec![String::from("Ascent"), String::from("Bind")]);
}

#[test]
fn full_pool_refuses_any_name() {
    let mut reg = MapRegistry::new(1);
    assert_eq!(reg.add_map(String::from("Ascent")), Ok(()));
    assert_eq!(reg.add_map(String::from("Bind")), Err(RegistryError::PoolFull));
    // Even a name that is already present fails with PoolFull, not Duplicate.
    assert_eq!(reg.add_map(String::from("Ascent")), Err(RegistryError::PoolFull));
    assert_eq!(reg.len(), 1);
}

#[test]
fn duplicates_are_refused_case_sensitively() {
    let mut reg = MapRegistry::new(DEFAULT_POOL_BOUND);
    assert_eq!(reg.add_map(String::from("Ascent")), Ok(()));
    assert_eq!(reg.add_map(String::from("Ascent")), Err(RegistryError::Duplicate));
    // A different capitalization is a different name.
    assert_eq!(reg.add_map(String::from("ascent")), Ok(()));
    assert_eq!(reg.len(), 2);
}

#[test]
fn remove_keeps_the_order_of_the_others() {
    let mut reg = MapRegistry::new(DEFAULT_POOL_BOUND);
    assert_eq!(reg.add_map(String::from("Ascent")), Ok(()));
    assert_eq!(reg.add_map(String::from("Bind")), Ok(()));
    assert_eq!(reg.add_map(String::from("Haven")), Ok(()));
    assert_eq!(reg.remove_map(&String::from("Bind")), Ok(()));
    assert_eq!(names_of(&reg), vec![String::from("Ascent"), String::from("Haven")]);
    assert_eq!(reg.remove_map(&String::from("Bind")), Err(RegistryError::NotFound));
}

#[test]
fn load_accepts_only_valid_pools() {
    let good = vec![String::from("Ascent"), String::from("Bind")];
    let reg = MapRegistry::load(good, 5).expect("valid pool");
    assert_eq!(reg.len(), 2);
    assert_eq!(reg.bound(), 5);

    let dup = vec![String::from("Ascent"), String::from("Ascent")];
    assert!(MapRegistry::load(dup, 5).is_none());

    let over = vec![String::from("Ascent"), String::from("Bind")];
    assert!(MapRegistry::load(over, 1).is_none());
}

#[test]
fn snapshot_copies_the_pool() {
    let mut reg = MapRegistry::new(DEFAULT_POOL_BOUND);
    assert_eq!(reg.add_map(String::from("Ascent")), Ok(()));
    let snap = reg.snapshot();
    assert_eq!(snap, vec![String::from("Ascent")]);
    assert_eq!(reg.add_map(String::from("Bind")), Ok(()));
    // The snapshot is unaffected by later mutation.
    assert_eq!(snap.len(), 1);
}
