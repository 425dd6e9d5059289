use rwav::audio::{
    Audio, AudioOperationError, PropertyAddress, PropertyEntry, PropertyRegistry,
    STATUS_UNKNOWN_PROPERTY, SCOPE_GLOBAL, SCOPE_OUTPUT, SELECTOR_CHANNEL_NUMBERS,
    SELECTOR_DEFAULT_OUTPUT, SELECTOR_DEVICE_LIST, SELECTOR_DEVICE_NAME,
    SELECTOR_OUTPUT_STREAMS, SELECTOR_VOLUME, SYSTEM_OBJECT_ID,
};

fn channels_address() -> PropertyAddress {
    PropertyAddress { selector: SELECTOR_CHANNEL_NUMBERS, scope: SCOPE_OUTPUT, element: 0 }
}

fn volume_address_at(element: u32) -> PropertyAddress {
    PropertyAddress { selector: SELECTOR_VOLUME, scope: SCOPE_OUTPUT, element }
}

fn volume_registry() -> PropertyRegistry {
    PropertyRegistry {
        entries: vec![
            PropertyEntry {
                object: 7,
                address: channels_address(),
                status: 0,
                // Channel elements 1 (left) and 2 (right), little-endian.
                data: vec![1, 0, 0, 0, 2, 0, 0, 0],
            },
            PropertyEntry {
                object: 7,
                address: volume_address_at(1),
                status: 0,
                data: vec![0, 0, 0, 0],
            },
            PropertyEntry {
                object: 7,
                address: volume_address_at(2),
                status: 0,
                data: vec![0, 0, 0, 0],
            },
        ],
    }
}

fn list_address() -> PropertyAddress {
    PropertyAddress { selector: SELECTOR_DEVICE_LIST, scope: SCOPE_GLOBAL, element: 0 }
}

fn name_address() -> PropertyAddress {
    PropertyAddress { selector: SELECTOR_DEVICE_NAME, scope: SCOPE_GLOBAL, element: 0 }
}

fn one_device_registry(name_data: Vec<u8>) -> PropertyRegistry {
    PropertyRegistry {
        entries: vec![
            PropertyEntry {
                object: SYSTEM_OBJECT_ID,
                address: list_address(),
                status: 0,
                data: vec![7, 0, 0, 0],
            },
            PropertyEntry { object: 7, address: name_address(), status: 0, data: name_data },
        ],
    }
}

#[test]
fn empty_registry_reports_query_failures() {
    let registry = PropertyRegistry { entries: Vec::new() };
    assert_eq!(
        Audio::num_devices(&registry),
        Err(AudioOperationError::UnableToGetNumDevices)
    );
    assert_eq!(
        Audio::get_device_ids(&registry),
        Err(AudioOperationError::UnableToGetNumDevices)
    );
    assert_eq!(
        Audio::get_device_name(&registry, &7),
        Err(AudioOperationError::DeviceNotFound)
    );
    assert_eq!(
        Audio::is_output_device(&registry, &7),
        Err(AudioOperationError::UnableToGetDeviceDescription)
    );
}

#[test]
fn nonzero_status_fails_enumeration() {
    let registry = PropertyRegistry {
        entries: vec![PropertyEntry {
            object: SYSTEM_OBJECT_ID,
            address: list_address(),
            status: -50,
            data: vec![7, 0, 0, 0],
        }],
    };
    assert_eq!(
        Audio::num_devices(&registry),
        Err(AudioOperationError::UnableToGetNumDevices)
    );
}

#[test]
fn device_list_bytes_decode_little_endian() {
    let registry = PropertyRegistry {
        entries: vec![PropertyEntry {
            object: SYSTEM_OBJECT_ID,
            address: list_address(),
            status: 0,
            data: vec![0x01, 0x02, 0x00, 0x00, 0xFF, 0x00, 0x00, 0x00],
        }],
    };
    assert_eq!(Audio::num_devices(&registry).unwrap(), 2);
    assert_eq!(Audio::get_device_ids(&registry).unwrap(), vec![0x0201, 0xFF]);
}

#[test]
fn odd_name_bytes_fail_decoding() {
    let registry = one_device_registry(vec![0x53, 0x00, 0x70]);
    assert_eq!(
        Audio::get_device_name(&registry, &7),
        Err(AudioOperationError::UnableToGetDeviceName)
    );
}

#[test]
fn unpaired_surrogate_fails_decoding() {
    // A lone high surrogate (0xD800) is not well-formed UTF-16.
    let registry = one_device_registry(vec![0x00, 0xD8]);
    assert_eq!(
        Audio::get_device_name(&registry, &7),
        Err(AudioOperationError::UnableToGetDeviceName)
    );
}

#[test]
fn surrogate_pair_decodes_to_supplementary_character() {
    // U+1F50A (speaker with three sound waves) is the pair 0xD83D 0xDD0A.
    let registry = one_device_registry(vec![0x3D, 0xD8, 0x0A, 0xDD]);
    let name = Audio::get_device_name(&registry, &7).unwrap();
    assert_eq!(name, "\u{1F50A}");
}

#[test]
fn accented_name_decodes_exactly() {
    // "Écouteurs": the registry stores UTF-16 code units, little-endian.
    let mut data: Vec<u8> = Vec::new();
    for unit in "Écouteurs".encode_utf16() {
        data.push((unit & 0xFF) as u8);
        data.push((unit >> 8) as u8);
    }
    let registry = one_device_registry(data);
    assert_eq!(Audio::get_device_name(&registry, &7).unwrap(), "Écouteurs");
}

#[test]
fn set_output_device_writes_the_default_output_property() {
    let default_address = PropertyAddress {
        selector: SELECTOR_DEFAULT_OUTPUT,
        scope: SCOPE_GLOBAL,
        element: 0,
    };
    let mut registry = PropertyRegistry {
        entries: vec![PropertyEntry {
            object: SYSTEM_OBJECT_ID,
            address: default_address,
            status: 0,
            data: vec![0, 0, 0, 0],
        }],
    };
    assert_eq!(Audio::set_output_device(&mut registry, &0x0403_0201), Ok(true));
    let (status, data) = registry.query_data(SYSTEM_OBJECT_ID, &default_address);
    assert_eq!(status, 0);
    assert_eq!(data, vec![0x01, 0x02, 0x03, 0x04]);
}

#[test]
fn set_output_device_without_the_property_fails() {
    let mut registry = PropertyRegistry { entries: Vec::new() };
    assert_eq!(
        Audio::set_output_device(&mut registry, &7),
        Err(AudioOperationError::SystemCommError)
    );
}

#[test]
fn two_phase_queries_answer_size_then_data() {
    let out_address = PropertyAddress {
        selector: SELECTOR_OUTPUT_STREAMS,
        scope: SCOPE_OUTPUT,
        element: 0,
    };
    let registry = PropertyRegistry {
        entries: vec![PropertyEntry {
            object: 9,
            address: out_address,
            status: 0,
            data: vec![1, 2, 3],
        }],
    };
    let (status, size) = registry.query_size(9, &out_address);
    assert_eq!((status, size), (0, 3));
    let (status, data) = registry.query_data(9, &out_address);
    assert_eq!(status, 0);
    assert_eq!(data, vec![1, 2, 3]);
    let (status, size) = registry.query_size(8, &out_address);
    assert_eq!(status, STATUS_UNKNOWN_PROPERTY);
    assert_eq!(size, 0);
}

#[test]
fn name_query_propagates_the_not_found_error() {
    let registry = PropertyRegistry {
        entries: vec![
            PropertyEntry {
                object: SYSTEM_OBJECT_ID,
                address: list_address(),
                status: 0,
                data: vec![7, 0, 0, 0],
            },
            PropertyEntry { object: 7, address: name_address(), status: 1, data: Vec::new() },
        ],
    };
    assert_eq!(
        Audio::get_device_name(&registry, &7),
        Err(AudioOperationError::DeviceNotFound)
    );
    assert_eq!(
        Audio::get_device_names(&registry),
        Err(AudioOperationError::DeviceNotFound)
    );
    assert_eq!(
        Audio::get_devices(&registry),
        Err(AudioOperationError::DeviceNotFound)
    );
}

#[test]
fn set_volume_writes_both_channel_scalars() {
    let mut registry = volume_registry();
    let left = vec![0x00, 0x00, 0x80, 0x3F];
    let right = vec![0x00, 0x00, 0x00, 0x3F];
    assert_eq!(
        Audio::set_device_volume(&mut registry, &7, left.clone(), right.clone()),
        Ok(true)
    );
    let (status, data) = registry.query_data(7, &volume_address_at(1));
    assert_eq!(status, 0);
    assert_eq!(data, left);
    let (status, data) = registry.query_data(7, &volume_address_at(2));
    assert_eq!(status, 0);
    assert_eq!(data, right);
}

#[test]
fn set_volume_without_channel_numbering_fails() {
    let mut registry = PropertyRegistry { entries: Vec::new() };
    assert_eq!(
        Audio::set_device_volume(&mut registry, &7, vec![0; 4], vec![0; 4]),
        Err(AudioOperationError::SystemCommError)
    );
}

#[test]
fn set_volume_with_short_channel_data_fails() {
    let mut registry = PropertyRegistry {
        entries: vec![PropertyEntry {
            object: 7,
            address: channels_address(),
            status: 0,
            data: vec![1, 0, 0, 0],
        }],
    };
    assert_eq!(
        Audio::set_device_volume(&mut registry, &7, vec![0; 4], vec![0; 4]),
        Err(AudioOperationError::SystemCommError)
    );
}

#[test]
fn set_volume_failure_at_second_step_leaves_left_applied() {
    let mut registry = volume_registry();
    // Remove the right channel's volume property: the second write fails.
    registry.entries.retain(|e| e.address != volume_address_at(2));
    let left = vec![0x11, 0x22, 0x33, 0x44];
    assert_eq!(
        Audio::set_device_volume(&mut registry, &7, left.clone(), vec![0; 4]),
        Err(AudioOperationError::SystemCommError)
    );
    // No rollback: the left volume stays as written.
    let (status, data) = registry.query_data(7, &volume_address_at(1));
    assert_eq!(status, 0);
    assert_eq!(data, left);
}

#[test]
fn name_failure_reports_the_first_failing_device() {
    // Device 7's name property is absent (not found); device 8's holds an
    // odd byte count (undecodable). Enumeration order decides the error.
    let mut registry = PropertyRegistry {
        entries: vec![
            PropertyEntry {
                object: SYSTEM_OBJECT_ID,
                address: list_address(),
                status: 0,
                data: vec![7, 0, 0, 0, 8, 0, 0, 0],
            },
            PropertyEntry { object: 8, address: name_address(), status: 0, data: vec![0x41] },
        ],
    };
    assert_eq!(
        Audio::get_device_names(&registry),
        Err(AudioOperationError::DeviceNotFound)
    );
    assert_eq!(
        Audio::get_devices(&registry),
        Err(AudioOperationError::DeviceNotFound)
    );
    // With the order reversed, the undecodable device comes first.
    registry.entries[0].data = vec![8, 0, 0, 0, 7, 0, 0, 0];
    assert_eq!(
        Audio::get_device_names(&registry),
        Err(AudioOperationError::UnableToGetDeviceName)
    );
    assert_eq!(
        Audio::get_devices(&registry),
        Err(AudioOperationError::UnableToGetDeviceName)
    );
}
