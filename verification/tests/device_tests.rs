use rwav::audio::{
    Audio, PropertyAddress, PropertyEntry, PropertyRegistry, SCOPE_GLOBAL, SCOPE_OUTPUT,
    SELECTOR_DEVICE_LIST, SELECTOR_DEVICE_NAME, SELECTOR_OUTPUT_STREAMS, SYSTEM_OBJECT_ID,
};

fn utf16le_bytes(text: &str) -> Vec<u8> {
    let mut out: Vec<u8> = Vec::new();
    for unit in text.encode_utf16() {
        out.push((unit & 0xFF) as u8);
        out.push((unit >> 8) as u8);
    }
    out
}

/// A registry with two devices: id 10 ("Speakers", output-capable) and
/// id 20 ("Microphone", no output streams).
fn demo_registry() -> PropertyRegistry {
    let entries = vec![
        PropertyEntry {
            object: SYSTEM_OBJECT_ID,
            address: PropertyAddress { selector: SELECTOR_DEVICE_LIST, scope: SCOPE_GLOBAL, element: 0 },
            status: 0,
            data: vec![10, 0, 0, 0, 20, 0, 0, 0],
        },
        PropertyEntry {
            object: 10,
            address: PropertyAddress { selector: SELECTOR_DEVICE_NAME, scope: SCOPE_GLOBAL, element: 0 },
            status: 0,
            data: utf16le_bytes("Speakers"),
        },
        PropertyEntry {
            object: 20,
            address: PropertyAddress { selector: SELECTOR_DEVICE_NAME, scope: SCOPE_GLOBAL, element: 0 },
            status: 0,
            data: utf16le_bytes("Microphone"),
        },
        PropertyEntry {
            object: 10,
            address: PropertyAddress {
                selector: SELECTOR_OUTPUT_STREAMS,
                scope: SCOPE_OUTPUT,
                element: 0,
            },
            status: 0,
            data: vec![0; 8],
        },
        PropertyEntry {
            object: 20,
            address: PropertyAddress {
                selector: SELECTOR_OUTPUT_STREAMS,
                scope: SCOPE_OUTPUT,
                element: 0,
            },
            status: 0,
            data: Vec::new(),
        },
    ];
    PropertyRegistry { entries }
}

#[test]
pub fn test_get_num_devices() {
    let registry = demo_registry();
    let num_devices = Audio::num_devices(&registry).unwrap();
    println!("NUM DEVICES: {num_devices}");
    assert!(num_devices > 0);
}

#[test]
pub fn test_get_device_ids() {
    let registry = demo_registry();
    let device_ids = Audio::get_device_ids(&registry).unwrap();
    println!("DEVICE IDS: {:#?}", device_ids);
    assert!(device_ids.len() > 0);
}

#[test]
pub fn test_get_device_name() {
    let registry = demo_registry();
    let device_ids = Audio::get_device_ids(&registry).unwrap();
    let device_name = Audio::get_device_name(&registry, &device_ids[0]).unwrap();
    println!("DEVICE NAME: {device_name}");
    assert!(device_name.len() > 0);
}

#[test]
pub fn test_is_output_device() {
    let registry = demo_registry();
    let device_ids = Audio::get_device_ids(&registry).unwrap();
    // Loop until an output device is found
    for device_id in &device_ids {
        if Audio::is_output_device(&registry, device_id).unwrap() {
            let device_name = Audio::get_device_name(&registry, device_id).unwrap();
            println!("OUTPUT DEVICE FOUND: {device_name}");
            assert!(true);
            return;
        }
    }
    println!("NO OUTPUT DEVICE FOUND!");
    assert!(false);
}

#[test]
pub fn test_get_device_names() {
    let registry = demo_registry();
    let device_names = Audio::get_device_names(&registry).unwrap();
    println!("DEVICE NAMES: {:#?}", device_names);
    assert!(device_names.len() > 0);
}

#[test]
fn device_ids_and_names_are_exact() {
    let registry = demo_registry();
    let device_ids = Audio::get_device_ids(&registry).unwrap();
    assert_eq!(device_ids, vec![10, 20]);
    let names = Audio::get_device_names(&registry).unwrap();
    assert_eq!(names, vec!["Speakers".to_string(), "Microphone".to_string()]);
    let devices = Audio::get_devices(&registry).unwrap();
    assert_eq!(devices.len(), 2);
    assert_eq!(devices[0], ("Speakers".to_string(), 10));
    assert_eq!(devices[1], ("Microphone".to_string(), 20));
}

#[test]
fn device_count_matches_id_list_length() {
    let registry = demo_registry();
    let count = Audio::num_devices(&registry).unwrap();
    let device_ids = Audio::get_device_ids(&registry).unwrap();
    assert_eq!(device_ids.len(), count as usize);
}

#[test]
fn device_count_is_stable_across_calls() {
    let registry = demo_registry();
    let first = Audio::num_devices(&registry).unwrap();
    let second = Audio::num_devices(&registry).unwrap();
    assert_eq!(first, second);
    assert_eq!(first, 2);
}

#[test]
fn non_output_device_reports_false() {
    let registry = demo_registry();
    assert_eq!(Audio::is_output_device(&registry, &20).unwrap(), false);
    assert_eq!(Audio::is_output_device(&registry, &10).unwrap(), true);
}

#[test]
fn all_enumerated_names_are_nonempty() {
    let registry = demo_registry();
    for id in Audio::get_device_ids(&registry).unwrap() {
        let name = Audio::get_device_name(&registry, &id).unwrap();
        assert!(!name.is_empty());
    }
}
