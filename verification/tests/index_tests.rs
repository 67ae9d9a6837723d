use gesture_config::{
    bits_max, bits_min, BaseConfig, CameraProperties, Config, Device, SpatialIndex,
};

fn device(name: &str, min: (f64, f64, f64), max: (f64, f64, f64)) -> Device {
    Device {
        name: name.to_owned(),
        min_x: min.0.to_bits(),
        min_y: min.1.to_bits(),
        min_z: min.2.to_bits(),
        max_x: max.0.to_bits(),
        max_y: max.1.to_bits(),
        max_z: max.2.to_bits(),
    }
}

fn config_with(devices: Vec<Device>) -> Config {
    let base = BaseConfig::from_source(
        (0.0f64.to_bits(), 0.0f64.to_bits(), 0.0f64.to_bits()),
        devices,
        None,
        None,
        None,
        None,
        None,
    );
    Config::from_sources(
        Ok(CameraProperties::test_new()),
        Ok(CameraProperties::test_new()),
        Ok(base),
    )
    .unwrap()
}

#[test]
fn total_order_helpers() {
    let a = (-1.5f64).to_bits();
    let b = 1.0f64.to_bits();
    assert_eq!(bits_min(a, b), a);
    assert_eq!(bits_max(a, b), b);
    // the negative range orders reversed: -3 comes before -2
    let c = (-3.0f64).to_bits();
    let d = (-2.0f64).to_bits();
    assert_eq!(bits_min(c, d), c);
    assert_eq!(bits_max(c, d), d);
    // in the IEEE-754 total order, -0.0 comes before +0.0
    let nz = (-0.0f64).to_bits();
    let pz = 0.0f64.to_bits();
    assert_eq!(bits_min(nz, pz), nz);
    assert_eq!(bits_max(nz, pz), pz);
}

#[test]
fn empty_index() {
    let config = config_with(Vec::new());
    let index = config.aabbtree();
    assert_eq!(index.len(), 0);
    assert!(index.bounds().is_none());
    assert!(!index.contains_name(&"D1".to_owned()));
}

#[test]
fn index_membership_matches_devices() {
    let devices = vec![
        device("alpha", (-1.0, 0.0, 2.0), (1.0, 3.0, 4.0)),
        device("beta", (-5.0, 1.0, -2.0), (0.5, 2.0, 9.0)),
        device("gamma", (0.25, -4.0, 0.0), (0.75, 8.0, 1.0)),
    ];
    let names: Vec<String> = devices.iter().map(|d| d.name.clone()).collect();
    let config = config_with(devices);
    let index = config.aabbtree();

    // same membership, same order, none dropped, no duplicates
    assert_eq!(index.len(), 3);
    for (i, name) in names.iter().enumerate() {
        assert_eq!(&index.leaf(i).name, name);
        assert!(index.contains_name(name));
    }
    assert!(!index.contains_name(&"delta".to_owned()));
}

#[test]
fn index_second_call_is_stable() {
    let devices = vec![
        device("alpha", (0.0, 0.0, 0.0), (1.0, 1.0, 1.0)),
        device("beta", (2.0, 2.0, 2.0), (3.0, 3.0, 3.0)),
    ];
    let config = config_with(devices);

    let first: Vec<String> = {
        let index = config.aabbtree();
        (0..index.len()).map(|i| index.leaf(i).name.clone()).collect()
    };
    let second: Vec<String> = {
        let index = config.aabbtree();
        (0..index.len()).map(|i| index.leaf(i).name.clone()).collect()
    };
    assert_eq!(first, second);
    assert_eq!(first, vec!["alpha".to_owned(), "beta".to_owned()]);
}

#[test]
fn index_bounds_enclose_all_leaves() {
    let devices = vec![
        device("alpha", (-1.0, 0.0, 2.0), (1.0, 3.0, 4.0)),
        device("beta", (-5.0, 1.0, -2.0), (0.5, 2.0, 9.0)),
        device("gamma", (0.25, -4.0, 0.0), (0.75, 8.0, 1.0)),
    ];
    let config = config_with(devices);
    let bounds = config.aabbtree().bounds().unwrap();
    assert_eq!(f64::from_bits(bounds.min_x), -5.0);
    assert_eq!(f64::from_bits(bounds.min_y), -4.0);
    assert_eq!(f64::from_bits(bounds.min_z), -2.0);
    assert_eq!(f64::from_bits(bounds.max_x), 1.0);
    assert_eq!(f64::from_bits(bounds.max_y), 8.0);
    assert_eq!(f64::from_bits(bounds.max_z), 9.0);
}

#[test]
fn standalone_build_copies_devices() {
    let devices = vec![device("alpha", (0.0, 0.0, 0.0), (1.0, 1.0, 1.0))];
    let index = SpatialIndex::build(&devices);
    assert_eq!(index.len(), 1);
    assert_eq!(index.leaf(0).name, "alpha");
    assert_eq!(index.leaf(0).max_x, 1.0f64.to_bits());
}
