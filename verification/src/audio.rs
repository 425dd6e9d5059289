//! Device management: typed property queries against a model of the
//! platform audio registry, and the playback session state machine.
//!
//! Every property lives at a `(selector, scope, element)` address on some
//! audio object. Reads follow the two-phase protocol: first query the size
//! of a property, then fetch its bytes. A platform status of exactly zero
//! means success; any non-zero status is a failure.

use vstd::prelude::*;
use vstd::string::StringSliceAdditionalSpecFns;
use vstd::utf8::{is_ascii_chars, is_ascii_chars_encode_utf8};
use crate::codec::{le_u16_at, le_u32_at, le_bytes_of_u32, read_le_u16, read_le_u32, push_le_u32};
use crate::utils::ascii_str_transmute_u32_be;

verus! {

/// Opaque platform-assigned identifier of one audio device.
pub type AudioDeviceId = u32;

/// The audio object that owns the global, device-independent properties.
pub const SYSTEM_OBJECT_ID: u32 = 1;

/// FourCC "dev#": the global device-list property.
pub const SELECTOR_DEVICE_LIST: u32 = 0x6465_7623;

/// FourCC "lnam": a device's localized-name property.
pub const SELECTOR_DEVICE_NAME: u32 = 0x6c6e_616d;

/// FourCC "stm#": a device's output-stream-configuration property.
pub const SELECTOR_OUTPUT_STREAMS: u32 = 0x7374_6d23;

/// FourCC "dOut": the default-output-device property.
pub const SELECTOR_DEFAULT_OUTPUT: u32 = 0x644f_7574;

/// FourCC "dch2": a device's preferred-stereo-channels property.
pub const SELECTOR_CHANNEL_NUMBERS: u32 = 0x6463_6832;

/// FourCC "volm": a device's per-channel volume-scalar property.
pub const SELECTOR_VOLUME: u32 = 0x766f_6c6d;

/// FourCC "glob": the device-independent scope.
pub const SCOPE_GLOBAL: u32 = 0x676c_6f62;

/// FourCC "outp": the output scope.
pub const SCOPE_OUTPUT: u32 = 0x6f75_7470;

/// FourCC "who?": the status the registry reports for an unknown property.
pub const STATUS_UNKNOWN_PROPERTY: i32 = 0x7768_6f3f;

/// Addresses one queryable or settable property of an audio object.
#[derive(Debug, Clone, Copy, PartialEq, Eq, Structural)]
pub struct PropertyAddress {
    pub selector: u32,
    pub scope: u32,
    pub element: u32,
}

/// One property of one audio object: the status the platform would report
/// for it, and its value bytes.
pub struct PropertyEntry {
    pub object: u32,
    pub address: PropertyAddress,
    pub status: i32,
    pub data: Vec<u8>,
}

/// The platform audio object graph, modelled as the flat list of its
/// addressable properties.
pub struct PropertyRegistry {
    pub entries: Vec<PropertyEntry>,
}

/// `e` is the property of `object` at `addr`.
pub open spec fn entry_matches(e: PropertyEntry, object: u32, addr: PropertyAddress) -> bool {
    e.object == object && e.address == addr
}

/// Index of the first property of `object` at `addr`, or -1 when absent.
pub open spec fn find_index(entries: Seq<PropertyEntry>, object: u32, addr: PropertyAddress) -> int
    decreases entries.len(),
{
    if entries.len() == 0 {
        -1
    } else if entry_matches(entries[0], object, addr) {
        0
    } else {
        let rest = find_index(entries.drop_first(), object, addr);
        if rest == -1 {
            -1
        } else {
            rest + 1
        }
    }
}

/// When no property in the prefix `[0, i)` matches, the first match is at
/// `i` if `i` matches, and there is none at all if the whole list was
/// scanned.
proof fn lemma_find_index_prefix(
    entries: Seq<PropertyEntry>,
    object: u32,
    addr: PropertyAddress,
    i: int,
)
    requires
        0 <= i <= entries.len(),
        forall|j| 0 <= j < i ==> !entry_matches(#[trigger] entries[j], object, addr),
    ensures
        i < entries.len() && entry_matches(entries[i], object, addr) ==> find_index(
            entries,
            object,
            addr,
        ) == i,
        i == entries.len() ==> find_index(entries, object, addr) == -1,
    decreases entries.len(),
{
    if entries.len() == 0 {
    } else if i == 0 {
        if entry_matches(entries[0], object, addr) {
        } else {
        }
    } else {
        assert(!entry_matches(entries[0], object, addr));
        assert(forall|j|
            0 <= j < i - 1 ==> !entry_matches(
                #[trigger] entries.drop_first()[j],
                object,
                addr,
            )) by {
            assert(forall|j|
                0 <= j < i - 1 ==> entries.drop_first()[j] == #[trigger] entries[j + 1]);
        }
        lemma_find_index_prefix(entries.drop_first(), object, addr, i - 1);
        assert(i - 1 < entries.drop_first().len() ==> entries.drop_first()[i - 1] == entries[i]);
    }
}

/// The first match depends only on the object and address keys of the
/// entries: two registries whose entries carry the same keys agree on it.
proof fn lemma_find_index_same_keys(
    pre: Seq<PropertyEntry>,
    post: Seq<PropertyEntry>,
    object: u32,
    addr: PropertyAddress,
)
    requires
        post.len() == pre.len(),
        forall|j|
            0 <= j < pre.len() ==> (#[trigger] post[j]).object == pre[j].object && post[j].address
                == pre[j].address,
    ensures
        find_index(post, object, addr) == find_index(pre, object, addr),
    decreases pre.len(),
{
    if pre.len() == 0 {
    } else {
        assert(entry_matches(post[0], object, addr) == entry_matches(pre[0], object, addr));
        assert(forall|j|
            0 <= j < pre.drop_first().len() ==> (#[trigger] post.drop_first()[j]).object
                == pre.drop_first()[j].object && post.drop_first()[j].address
                == pre.drop_first()[j].address) by {
            assert(forall|j|
                0 <= j < pre.len() - 1 ==> pre.drop_first()[j] == #[trigger] pre[j + 1]
                    && post.drop_first()[j] == post[j + 1]);
        }
        lemma_find_index_same_keys(pre.drop_first(), post.drop_first(), object, addr);
    }
}

/// The index the first match is found at is in bounds and matches.
proof fn lemma_find_index_found(entries: Seq<PropertyEntry>, object: u32, addr: PropertyAddress)
    ensures
        find_index(entries, object, addr) != -1 ==> {
            let i = find_index(entries, object, addr);
            &&& 0 <= i < entries.len()
            &&& entry_matches(entries[i], object, addr)
        },
    decreases entries.len(),
{
    if entries.len() == 0 {
    } else if entry_matches(entries[0], object, addr) {
    } else {
        lemma_find_index_found(entries.drop_first(), object, addr);
    }
}

impl PropertyRegistry {
    /// Every property value fits the platform's 32-bit size fields.
    pub open spec fn wf(&self) -> bool {
        forall|i|
            0 <= i < self.entries@.len() ==> (#[trigger] self.entries@[i]).data@.len()
                <= u32::MAX
    }

    /// The status the registry reports for the property of `object` at
    /// `addr`: the entry's own status, or the unknown-property status when
    /// the property does not exist.
    pub open spec fn status_of(&self, object: u32, addr: PropertyAddress) -> i32 {
        let i = find_index(self.entries@, object, addr);
        if i == -1 {
            STATUS_UNKNOWN_PROPERTY
        } else {
            self.entries@[i].status
        }
    }

    /// The value bytes of the property of `object` at `addr` (empty when
    /// the property does not exist).
    pub open spec fn data_of(&self, object: u32, addr: PropertyAddress) -> Seq<u8> {
        let i = find_index(self.entries@, object, addr);
        if i == -1 {
            Seq::empty()
        } else {
            self.entries@[i].data@
        }
    }

    /// Scans for the property of `object` at `addr`.
    fn find(&self, object: u32, addr: &PropertyAddress) -> (r: Option<usize>)
        ensures
            match r {
                Some(i) => find_index(self.entries@, object, *addr) == i && i
                    < self.entries@.len() && entry_matches(self.entries@[i as int], object, *addr),
                None => find_index(self.entries@, object, *addr) == -1,
            },
    {
        let mut i: usize = 0;
        while i < self.entries.len()
            invariant
                i <= self.entries@.len(),
                forall|j| 0 <= j < i ==> !entry_matches(#[trigger] self.entries@[j], object, *addr),
            decreases self.entries@.len() - i,
        {
            let e = &self.entries[i];
            if e.object == object && e.address == *addr {
                proof {
                    lemma_find_index_prefix(self.entries@, object, *addr, i as int);
                }
                return Some(i);
            }
            i = i + 1;
        }
        proof {
            lemma_find_index_prefix(self.entries@, object, *addr, i as int);
        }
        None
    }

    /// Phase one of a read: reports the property's status and, on success,
    /// the byte size of its value.
    pub fn query_size(&self, object: u32, addr: &PropertyAddress) -> (r: (i32, u32))
        requires
            self.wf(),
        ensures
            r.0 == self.status_of(object, *addr),
            r.0 == 0 ==> r.1 == self.data_of(object, *addr).len(),
            r.0 != 0 ==> r.1 == 0,
    {
        match self.find(object, addr) {
            None => (STATUS_UNKNOWN_PROPERTY, 0),
            Some(i) => {
                let e = &self.entries[i];
                if e.status != 0 {
                    (e.status, 0)
                } else {
                    (0, e.data.len() as u32)
                }
            },
        }
    }

    /// Phase two of a read: reports the property's status and, on success,
    /// a copy of its value bytes.
    pub fn query_data(&self, object: u32, addr: &PropertyAddress) -> (r: (i32, Vec<u8>))
        ensures
            r.0 == self.status_of(object, *addr),
            r.0 == 0 ==> r.1@ == self.data_of(object, *addr),
            r.0 != 0 ==> r.1@.len() == 0,
    {
        match self.find(object, addr) {
            None => (STATUS_UNKNOWN_PROPERTY, Vec::new()),
            Some(i) => {
                let e = &self.entries[i];
                if e.status != 0 {
                    (e.status, Vec::new())
                } else {
                    let mut copy: Vec<u8> = Vec::new();
                    let mut k: usize = 0;
                    while k < e.data.len()
                        invariant
                            k <= e.data@.len(),
                            copy@ =~= e.data@.subrange(0, k as int),
                            e == &self.entries@[find_index(self.entries@, object, *addr)],
                        decreases e.data@.len() - k,
                    {
                        copy.push(e.data[k]);
                        k = k + 1;
                    }
                    proof {
                        assert(copy@ =~= e.data@);
                    }
                    (0, copy)
                }
            },
        }
    }

    /// Writes a property value: reports the property's status, and on
    /// success replaces the value bytes with `data`.
    pub fn set_data(&mut self, object: u32, addr: &PropertyAddress, data: Vec<u8>) -> (r: i32)
        requires
            old(self).wf(),
            data@.len() <= u32::MAX,
        ensures
            final(self).wf(),
            r == old(self).status_of(object, *addr),
            r != 0 ==> final(self).entries@ == old(self).entries@,
            r == 0 ==> ({
                let fi = find_index(old(self).entries@, object, *addr);
                &&& final(self).entries@.len() == old(self).entries@.len()
                &&& forall|j|
                    0 <= j < old(self).entries@.len() && j != fi ==> final(self).entries@[j]
                        == old(self).entries@[j]
                &&& final(self).entries@[fi].object == object
                &&& final(self).entries@[fi].address == *addr
                &&& final(self).entries@[fi].status == 0i32
                &&& final(self).entries@[fi].data@ == data@
            }),
    {
        match self.find(object, addr) {
            None => STATUS_UNKNOWN_PROPERTY,
            Some(i) => {
                let st = self.entries[i].status;
                if st != 0 {
                    st
                } else {
                    self.entries[i].data = data;
                    0
                }
            },
        }
    }
}

/// How a device or playback operation failed.
#[derive(Debug, Clone, Copy, PartialEq, Eq, Structural)]
pub enum AudioOperationError {
    DeviceNotFound,
    DeviceNotAvailable,
    DeviceNotOpen,
    DeviceNotStarted,
    DeviceNotStopped,
    DeviceNotPaused,
    DeviceNotUnpaused,
    DeviceNotDisposed,
    DeviceNotInitialized,
    DeviceNotReset,
    DeviceNotSuspended,
    DeviceNotResumed,
    DeviceNotInterrupted,
    DeviceNotUninterrupted,
    DeviceNotStartedAtTime,
    DeviceNotStoppedAtTime,
    DeviceNotScheduled,
    DeviceNotUnscheduled,
    DeviceNotFlushed,
    DeviceNotEnabled,
    DeviceNotDisabled,
    UnableToGetDeviceName,
    UnableToGetDeviceId,
    UnableToGetNumDevices,
    UnableToGetDeviceDescription,
    UnableToGetDeviceSourceDescription,
    BufferAllocationFailed,
    SystemCommError,
}

/// The descriptive text of each failure, naming the failed step.
pub open spec fn spec_message(e: AudioOperationError) -> Seq<char> {
    match e {
        AudioOperationError::DeviceNotFound => "Device not found!"@,
        AudioOperationError::DeviceNotAvailable => "Device not available!"@,
        AudioOperationError::DeviceNotOpen => "Device not open!"@,
        AudioOperationError::DeviceNotStarted => "Device not closed!"@,
        AudioOperationError::DeviceNotStopped => "Device not stopped!"@,
        AudioOperationError::DeviceNotPaused => "Device not paused!"@,
        AudioOperationError::DeviceNotUnpaused => "Device not unpaused!"@,
        AudioOperationError::DeviceNotDisposed => "Device not disposed!"@,
        AudioOperationError::DeviceNotInitialized => "Device not initialized!"@,
        AudioOperationError::DeviceNotReset => "Device not reset!"@,
        AudioOperationError::DeviceNotSuspended => "Device not suspended!"@,
        AudioOperationError::DeviceNotResumed => "Device not resumed!"@,
        AudioOperationError::DeviceNotInterrupted => "Device not interrupted!"@,
        AudioOperationError::DeviceNotUninterrupted => "Device not uninterrupted!"@,
        AudioOperationError::DeviceNotStartedAtTime => "Device not started at time!"@,
        AudioOperationError::DeviceNotStoppedAtTime => "Device not stopped at time!"@,
        AudioOperationError::DeviceNotScheduled => "Device not scheduled!"@,
        AudioOperationError::DeviceNotUnscheduled => "Device not unscheduled!"@,
        AudioOperationError::DeviceNotFlushed => "Device not flushed!"@,
        AudioOperationError::DeviceNotEnabled => "Device not enabled!"@,
        AudioOperationError::DeviceNotDisabled => "Device not disabled!"@,
        AudioOperationError::UnableToGetDeviceName => "Unable to get device name from system!"@,
        AudioOperationError::UnableToGetDeviceId => "Unable to get device id from system!"@,
        AudioOperationError::UnableToGetNumDevices => "Unable to get number of devices from system!"@,
        AudioOperationError::UnableToGetDeviceDescription => "Unable to get device description from system!"@,
        AudioOperationError::UnableToGetDeviceSourceDescription => "Unable to get device source description from system!"@,
        AudioOperationError::BufferAllocationFailed => "Unable to allocate a playback buffer!"@,
        AudioOperationError::SystemCommError => "General error communicating with the system!"@,
    }
}

impl AudioOperationError {
    /// The descriptive failure text naming the failed step, for reporting
    /// a playback or device error to the user.
    pub fn message(&self) -> (r: &'static str)
        ensures
            r@ == spec_message(*self),
            r@.len() > 0,
    {
        proof {
            reveal_strlit("Device not found!");
            reveal_strlit("Device not available!");
            reveal_strlit("Device not open!");
            reveal_strlit("Device not closed!");
            reveal_strlit("Device not stopped!");
            reveal_strlit("Device not paused!");
            reveal_strlit("Device not unpaused!");
            reveal_strlit("Device not disposed!");
            reveal_strlit("Device not initialized!");
            reveal_strlit("Device not reset!");
            reveal_strlit("Device not suspended!");
            reveal_strlit("Device not resumed!");
            reveal_strlit("Device not interrupted!");
            reveal_strlit("Device not uninterrupted!");
            reveal_strlit("Device not started at time!");
            reveal_strlit("Device not stopped at time!");
            reveal_strlit("Device not scheduled!");
            reveal_strlit("Device not unscheduled!");
            reveal_strlit("Device not flushed!");
            reveal_strlit("Device not enabled!");
            reveal_strlit("Device not disabled!");
            reveal_strlit("Unable to get device name from system!");
            reveal_strlit("Unable to get device id from system!");
            reveal_strlit("Unable to get number of devices from system!");
            reveal_strlit("Unable to get device description from system!");
            reveal_strlit("Unable to get device source description from system!");
            reveal_strlit("Unable to allocate a playback buffer!");
            reveal_strlit("General error communicating with the system!");
        }
        match self {
            AudioOperationError::DeviceNotFound => "Device not found!",
            AudioOperationError::DeviceNotAvailable => "Device not available!",
            AudioOperationError::DeviceNotOpen => "Device not open!",
            AudioOperationError::DeviceNotStarted => "Device not closed!",
            AudioOperationError::DeviceNotStopped => "Device not stopped!",
            AudioOperationError::DeviceNotPaused => "Device not paused!",
            AudioOperationError::DeviceNotUnpaused => "Device not unpaused!",
            AudioOperationError::DeviceNotDisposed => "Device not disposed!",
            AudioOperationError::DeviceNotInitialized => "Device not initialized!",
            AudioOperationError::DeviceNotReset => "Device not reset!",
            AudioOperationError::DeviceNotSuspended => "Device not suspended!",
            AudioOperationError::DeviceNotResumed => "Device not resumed!",
            AudioOperationError::DeviceNotInterrupted => "Device not interrupted!",
            AudioOperationError::DeviceNotUninterrupted => "Device not uninterrupted!",
            AudioOperationError::DeviceNotStartedAtTime => "Device not started at time!",
            AudioOperationError::DeviceNotStoppedAtTime => "Device not stopped at time!",
            AudioOperationError::DeviceNotScheduled => "Device not scheduled!",
            AudioOperationError::DeviceNotUnscheduled => "Device not unscheduled!",
            AudioOperationError::DeviceNotFlushed => "Device not flushed!",
            AudioOperationError::DeviceNotEnabled => "Device not enabled!",
            AudioOperationError::DeviceNotDisabled => "Device not disabled!",
            AudioOperationError::UnableToGetDeviceName => "Unable to get device name from system!",
            AudioOperationError::UnableToGetDeviceId => "Unable to get device id from system!",
            AudioOperationError::UnableToGetNumDevices => "Unable to get number of devices from system!",
            AudioOperationError::UnableToGetDeviceDescription => "Unable to get device description from system!",
            AudioOperationError::UnableToGetDeviceSourceDescription => "Unable to get device source description from system!",
            AudioOperationError::BufferAllocationFailed => "Unable to allocate a playback buffer!",
            AudioOperationError::SystemCommError => "General error communicating with the system!",
        }
    }
}

/// Address of the global device-list property.
pub open spec fn device_list_address() -> PropertyAddress {
    PropertyAddress { selector: SELECTOR_DEVICE_LIST, scope: SCOPE_GLOBAL, element: 0 }
}

/// Address of a device's localized-name property.
pub open spec fn device_name_address() -> PropertyAddress {
    PropertyAddress { selector: SELECTOR_DEVICE_NAME, scope: SCOPE_GLOBAL, element: 0 }
}

/// Address of a device's output-stream-configuration property.
pub open spec fn output_streams_address() -> PropertyAddress {
    PropertyAddress { selector: SELECTOR_OUTPUT_STREAMS, scope: SCOPE_OUTPUT, element: 0 }
}

/// Address of the default-output-device property.
pub open spec fn default_output_address() -> PropertyAddress {
    PropertyAddress { selector: SELECTOR_DEFAULT_OUTPUT, scope: SCOPE_GLOBAL, element: 0 }
}

/// Address of a device's preferred-stereo-channels property.
pub open spec fn channel_numbers_address() -> PropertyAddress {
    PropertyAddress { selector: SELECTOR_CHANNEL_NUMBERS, scope: SCOPE_OUTPUT, element: 0 }
}

/// Address of a device's volume-scalar property at one channel element.
pub open spec fn volume_address(element: u32) -> PropertyAddress {
    PropertyAddress { selector: SELECTOR_VOLUME, scope: SCOPE_OUTPUT, element }
}

/// Builds the device-list address from its FourCC tags.
fn device_list_address_ex() -> (r: PropertyAddress)
    ensures
        r == device_list_address(),
{
    proof {
        reveal_strlit("dev#");
        reveal_strlit("glob");
        assert(is_ascii_chars("dev#"@));
        assert(is_ascii_chars("glob"@));
        is_ascii_chars_encode_utf8("dev#"@);
        is_ascii_chars_encode_utf8("glob"@);
    }
    let selector = match ascii_str_transmute_u32_be("dev#") {
        Ok(v) => v,
        Err(_) => 0,
    };
    let scope = match ascii_str_transmute_u32_be("glob") {
        Ok(v) => v,
        Err(_) => 0,
    };
    PropertyAddress { selector, scope, element: 0 }
}

/// Builds the device-name address from its FourCC tags.
fn device_name_address_ex() -> (r: PropertyAddress)
    ensures
        r == device_name_address(),
{
    proof {
        reveal_strlit("lnam");
        reveal_strlit("glob");
        assert(is_ascii_chars("lnam"@));
        assert(is_ascii_chars("glob"@));
        is_ascii_chars_encode_utf8("lnam"@);
        is_ascii_chars_encode_utf8("glob"@);
    }
    let selector = match ascii_str_transmute_u32_be("lnam") {
        Ok(v) => v,
        Err(_) => 0,
    };
    let scope = match ascii_str_transmute_u32_be("glob") {
        Ok(v) => v,
        Err(_) => 0,
    };
    PropertyAddress { selector, scope, element: 0 }
}

/// What a sequence of UTF-16 code units decodes to, if it is valid;
/// the decoding is a function of the code units alone.
pub uninterp spec fn utf16_decode(units: Seq<u16>) -> Option<Seq<char>>;

/// Relies on String::from_utf16: it succeeds exactly on well-formed UTF-16
/// code units and returns their decoding, which depends on the units
/// alone; an empty unit sequence decodes to empty text, and a nonempty
/// valid one to at least one character.
#[verifier::external_body]
fn string_from_utf16(units: &Vec<u16>) -> (r: Option<String>)
    ensures
        r is Some <==> utf16_decode(units@) is Some,
        r matches Some(s) ==> Some(s@) == utf16_decode(units@),
        units@.len() == 0 ==> r is Some,
        units@.len() == 0 ==> (r matches Some(s) ==> s@.len() == 0),
        units@.len() > 0 ==> (r matches Some(s) ==> s@.len() > 0),
{
    String::from_utf16(units.as_slice()).ok()
}

/// Number of devices the registry's device list holds.
pub open spec fn spec_device_count(reg: PropertyRegistry) -> int {
    reg.data_of(SYSTEM_OBJECT_ID, device_list_address()).len() as int / 4
}

/// The device identifiers stored little-endian in the device list.
pub open spec fn spec_device_ids(reg: PropertyRegistry) -> Seq<AudioDeviceId> {
    Seq::new(
        spec_device_count(reg) as nat,
        |i| le_u32_at(reg.data_of(SYSTEM_OBJECT_ID, device_list_address()), 4 * i) as u32,
    )
}

/// What a device-count query returns: the list size in id-sized elements,
/// or the enumeration error when the platform reports a failure.
pub open spec fn spec_num_devices_result(reg: PropertyRegistry) -> Result<
    u32,
    AudioOperationError,
> {
    if reg.status_of(SYSTEM_OBJECT_ID, device_list_address()) == 0 {
        Ok(spec_device_count(reg) as u32)
    } else {
        Err(AudioOperationError::UnableToGetNumDevices)
    }
}

/// The raw bytes of a device's localized-name property.
pub open spec fn spec_name_data(reg: PropertyRegistry, id: AudioDeviceId) -> Seq<u8> {
    reg.data_of(id, device_name_address())
}

/// The UTF-16 code units stored little-endian in a device's name property.
pub open spec fn spec_name_units(reg: PropertyRegistry, id: AudioDeviceId) -> Seq<u16> {
    Seq::new(
        (spec_name_data(reg, id).len() / 2) as nat,
        |i| le_u16_at(spec_name_data(reg, id), 2 * i) as u16,
    )
}

/// A device-name query succeeds: the property is present, its bytes pair
/// into code units, and the units are well-formed UTF-16.
pub open spec fn name_ok(reg: PropertyRegistry, id: AudioDeviceId) -> bool {
    &&& reg.status_of(id, device_name_address()) == 0
    &&& spec_name_data(reg, id).len() % 2 == 0
    &&& utf16_decode(spec_name_units(reg, id)) is Some
}

/// The error a failing device-name query reports.
pub open spec fn name_error(reg: PropertyRegistry, id: AudioDeviceId) -> AudioOperationError {
    if reg.status_of(id, device_name_address()) != 0 {
        AudioOperationError::DeviceNotFound
    } else {
        AudioOperationError::UnableToGetDeviceName
    }
}

/// Index of the first id in `ids` whose name query fails, or -1 when
/// every name query succeeds.
pub open spec fn first_name_failure(reg: PropertyRegistry, ids: Seq<AudioDeviceId>) -> int
    decreases ids.len(),
{
    if ids.len() == 0 {
        -1
    } else if !name_ok(reg, ids[0]) {
        0
    } else {
        let rest = first_name_failure(reg, ids.drop_first());
        if rest == -1 {
            -1
        } else {
            rest + 1
        }
    }
}

/// When every name query in the prefix `[0, i)` succeeds, the first
/// failure is at `i` if `i` fails, and there is none at all if the whole
/// list was scanned.
proof fn lemma_first_name_failure_prefix(reg: PropertyRegistry, ids: Seq<AudioDeviceId>, i: int)
    requires
        0 <= i <= ids.len(),
        forall|j| 0 <= j < i ==> name_ok(reg, #[trigger] ids[j]),
    ensures
        i < ids.len() && !name_ok(reg, ids[i]) ==> first_name_failure(reg, ids) == i,
        i == ids.len() ==> first_name_failure(reg, ids) == -1,
    decreases ids.len(),
{
    if ids.len() == 0 {
    } else if i == 0 {
    } else {
        assert(name_ok(reg, ids[0]));
        assert(forall|j| 0 <= j < i - 1 ==> name_ok(reg, #[trigger] ids.drop_first()[j])) by {
            assert(forall|j| 0 <= j < i - 1 ==> ids.drop_first()[j] == #[trigger] ids[j + 1]);
        }
        lemma_first_name_failure_prefix(reg, ids.drop_first(), i - 1);
        assert(i - 1 < ids.drop_first().len() ==> ids.drop_first()[i - 1] == ids[i]);
    }
}

/// What an output-capability query returns: whether the device has any
/// output stream configured, or the description error on failure.
pub open spec fn spec_is_output_result(reg: PropertyRegistry, id: AudioDeviceId) -> Result<
    bool,
    AudioOperationError,
> {
    if reg.status_of(id, output_streams_address()) == 0 {
        Ok(reg.data_of(id, output_streams_address()).len() > 0)
    } else {
        Err(AudioOperationError::UnableToGetDeviceDescription)
    }
}

/// `post` is `pre` with the property of `object` at `addr` set to `bytes`
/// and everything else unchanged.
pub open spec fn set_updates(
    pre: PropertyRegistry,
    post: PropertyRegistry,
    object: u32,
    addr: PropertyAddress,
    bytes: Seq<u8>,
) -> bool {
    let fi = find_index(pre.entries@, object, addr);
    &&& post.entries@.len() == pre.entries@.len()
    &&& forall|j|
        0 <= j < pre.entries@.len() && j != fi ==> post.entries@[j] == pre.entries@[j]
    &&& post.entries@[fi].object == object
    &&& post.entries@[fi].address == addr
    &&& post.entries@[fi].status == 0i32
    &&& post.entries@[fi].data@ == bytes
}

/// A successful write of one property leaves every property's status as
/// it was: the update keeps each entry's keys, and the written entry
/// already reported success.
proof fn lemma_set_preserves_status(
    pre: PropertyRegistry,
    post: PropertyRegistry,
    object: u32,
    addr: PropertyAddress,
    bytes: Seq<u8>,
    object2: u32,
    addr2: PropertyAddress,
)
    requires
        set_updates(pre, post, object, addr, bytes),
        pre.status_of(object, addr) == 0,
    ensures
        post.status_of(object2, addr2) == pre.status_of(object2, addr2),
{
    let fi = find_index(pre.entries@, object, addr);
    lemma_find_index_found(pre.entries@, object, addr);
    lemma_find_index_same_keys(pre.entries@, post.entries@, object2, addr2);
    let i2 = find_index(pre.entries@, object2, addr2);
    if i2 != -1 {
        lemma_find_index_found(pre.entries@, object2, addr2);
        if i2 == fi {
            assert(pre.entries@[i2].status == 0);
            assert(post.entries@[i2].status == 0);
        }
    }
}

/// Entry point for the device-management operations.
pub struct Audio(());

impl Audio {
    /// Phase-one query of the global device list: its size in id-sized
    /// elements.
    pub fn num_devices(reg: &PropertyRegistry) -> (r: Result<u32, AudioOperationError>)
        requires
            reg.wf(),
        ensures
            r == spec_num_devices_result(*reg),
    {
        let property_address = device_list_address_ex();
        let (os_status, data_size) = reg.query_size(SYSTEM_OBJECT_ID, &property_address);
        if os_status != 0 {
            return Err(AudioOperationError::UnableToGetNumDevices);
        }
        Ok(data_size / 4)
    }

    /// Fetches the full device-id list in one phase-two query.
    pub fn get_device_ids(reg: &PropertyRegistry) -> (r: Result<
        Vec<AudioDeviceId>,
        AudioOperationError,
    >)
        requires
            reg.wf(),
        ensures
            r is Ok <==> reg.status_of(SYSTEM_OBJECT_ID, device_list_address()) == 0,
            r matches Ok(v) ==> v@ == spec_device_ids(*reg),
            r matches Err(e) ==> e == AudioOperationError::UnableToGetNumDevices,
    {
        let num_devices = match Self::num_devices(reg) {
            Ok(n) => n,
            Err(e) => {
                return Err(e);
            },
        };
        let property_address = device_list_address_ex();
        let (os_status, data) = reg.query_data(SYSTEM_OBJECT_ID, &property_address);
        assert(os_status == 0);
        let n = num_devices as usize;
        proof {
            lemma_find_index_found(reg.entries@, SYSTEM_OBJECT_ID, device_list_address());
            assert(4 * (data@.len() as int / 4) <= data@.len() as int) by (nonlinear_arith);
        }
        let mut devices: Vec<AudioDeviceId> = Vec::new();
        let mut i: usize = 0;
        while i < n
            invariant
                i <= n,
                n == spec_device_count(*reg),
                data@ == reg.data_of(SYSTEM_OBJECT_ID, device_list_address()),
                4 * (n as int) <= data.len(),
                devices@ =~= spec_device_ids(*reg).take(i as int),
            decreases n - i,
        {
            let id = read_le_u32(&data, 4 * i);
            proof {
                assert(le_u32_at(data@, 4 * (i as int)) < 0x1_0000_0000);
            }
            devices.push(id);
            i = i + 1;
        }
        proof {
            assert(devices@ =~= spec_device_ids(*reg));
        }
        Ok(devices)
    }

    /// Queries and decodes a device's localized name.
    ///
    /// The name property holds UTF-16 code units stored little-endian; a
    /// nonempty well-formed name always decodes to nonempty text.
    pub fn get_device_name(reg: &PropertyRegistry, id: &AudioDeviceId) -> (r: Result<
        String,
        AudioOperationError,
    >)
        requires
            reg.wf(),
        ensures
            r is Ok <==> name_ok(*reg, *id),
            r matches Err(e) ==> e == name_error(*reg, *id),
            r matches Ok(s) ==> Some(s@) == utf16_decode(spec_name_units(*reg, *id)),
            spec_name_units(*reg, *id).len() > 0 ==> (r matches Ok(s) ==> s@.len() > 0),
    {
        let property_address = device_name_address_ex();
        let (os_status, data) = reg.query_data(*id, &property_address);
        if os_status != 0 {
            return Err(AudioOperationError::DeviceNotFound);
        }
        if data.len() % 2 != 0 {
            return Err(AudioOperationError::UnableToGetDeviceName);
        }
        let n = data.len() / 2;
        proof {
            assert(2 * (data@.len() as int / 2) <= data@.len() as int) by (nonlinear_arith);
        }
        let mut units: Vec<u16> = Vec::new();
        let mut i: usize = 0;
        while i < n
            invariant
                i <= n,
                n == spec_name_data(*reg, *id).len() / 2,
                data@ == spec_name_data(*reg, *id),
                2 * (n as int) <= data.len(),
                units@ =~= spec_name_units(*reg, *id).take(i as int),
            decreases n - i,
        {
            let unit = read_le_u16(&data, 2 * i);
            proof {
                assert(le_u16_at(data@, 2 * (i as int)) < 0x1_0000);
            }
            units.push(unit);
            i = i + 1;
        }
        proof {
            assert(units@ =~= spec_name_units(*reg, *id));
        }
        match string_from_utf16(&units) {
            Some(name) => Ok(name),
            None => Err(AudioOperationError::UnableToGetDeviceName),
        }
    }

    /// Pairs every enumerated device id with its decoded name.
    pub fn get_devices(reg: &PropertyRegistry) -> (r: Result<
        Vec<(String, AudioDeviceId)>,
        AudioOperationError,
    >)
        requires
            reg.wf(),
        ensures
            reg.status_of(SYSTEM_OBJECT_ID, device_list_address()) != 0 ==> (r matches Err(e) && e
                == AudioOperationError::UnableToGetNumDevices),
            reg.status_of(SYSTEM_OBJECT_ID, device_list_address()) == 0 ==> ({
                let ids = spec_device_ids(*reg);
                &&& (r is Ok <==> forall|i| 0 <= i < ids.len() ==> name_ok(*reg, ids[i]))
                &&& (r matches Ok(v) ==> v@.len() == ids.len() && forall|i|
                    0 <= i < ids.len() ==> (#[trigger] v@[i]).1 == ids[i] && Some(v@[i].0@)
                        == utf16_decode(spec_name_units(*reg, ids[i])))
                &&& (r matches Err(e) ==> ({
                    let k = first_name_failure(*reg, ids);
                    &&& 0 <= k < ids.len()
                    &&& !name_ok(*reg, ids[k])
                    &&& e == name_error(*reg, ids[k])
                }))
            }),
    {
        let device_ids = match Self::get_device_ids(reg) {
            Ok(v) => v,
            Err(e) => {
                return Err(e);
            },
        };
        let mut result: Vec<(String, AudioDeviceId)> = Vec::new();
        let mut i: usize = 0;
        while i < device_ids.len()
            invariant
                reg.wf(),
                reg.status_of(SYSTEM_OBJECT_ID, device_list_address()) == 0,
                i <= device_ids@.len(),
                device_ids@ == spec_device_ids(*reg),
                result@.len() == i,
                forall|j| 0 <= j < i ==> name_ok(*reg, #[trigger] device_ids@[j]),
                forall|j|
                    0 <= j < i ==> (#[trigger] result@[j]).1 == device_ids@[j] && Some(
                        result@[j].0@,
                    ) == utf16_decode(spec_name_units(*reg, device_ids@[j])),
            decreases device_ids@.len() - i,
        {
            let device = device_ids[i];
            let name = match Self::get_device_name(reg, &device) {
                Ok(s) => s,
                Err(e) => {
                    proof {
                        lemma_first_name_failure_prefix(*reg, device_ids@, i as int);
                    }
                    return Err(e);
                },
            };
            result.push((name, device));
            i = i + 1;
        }
        Ok(result)
    }

    /// Decoded names of every enumerated device, in enumeration order.
    pub fn get_device_names(reg: &PropertyRegistry) -> (r: Result<Vec<String>, AudioOperationError>)
        requires
            reg.wf(),
        ensures
            reg.status_of(SYSTEM_OBJECT_ID, device_list_address()) != 0 ==> (r matches Err(e) && e
                == AudioOperationError::UnableToGetNumDevices),
            reg.status_of(SYSTEM_OBJECT_ID, device_list_address()) == 0 ==> ({
                let ids = spec_device_ids(*reg);
                &&& (r is Ok <==> forall|i| 0 <= i < ids.len() ==> name_ok(*reg, ids[i]))
                &&& (r matches Ok(v) ==> v@.len() == ids.len() && forall|i|
                    0 <= i < ids.len() ==> Some((#[trigger] v@[i])@) == utf16_decode(
                        spec_name_units(*reg, ids[i]),
                    ))
                &&& (r matches Err(e) ==> ({
                    let k = first_name_failure(*reg, ids);
                    &&& 0 <= k < ids.len()
                    &&& !name_ok(*reg, ids[k])
                    &&& e == name_error(*reg, ids[k])
                }))
            }),
    {
        let device_ids = match Self::get_device_ids(reg) {
            Ok(v) => v,
            Err(e) => {
                return Err(e);
            },
        };
        let mut device_names: Vec<String> = Vec::new();
        let mut i: usize = 0;
        while i < device_ids.len()
            invariant
                reg.wf(),
                reg.status_of(SYSTEM_OBJECT_ID, device_list_address()) == 0,
                i <= device_ids@.len(),
                device_ids@ == spec_device_ids(*reg),
                device_names@.len() == i,
                forall|j| 0 <= j < i ==> name_ok(*reg, #[trigger] device_ids@[j]),
                forall|j|
                    0 <= j < i ==> Some((#[trigger] device_names@[j])@) == utf16_decode(
                        spec_name_units(*reg, device_ids@[j]),
                    ),
            decreases device_ids@.len() - i,
        {
            let device_id = device_ids[i];
            let device_name = match Self::get_device_name(reg, &device_id) {
                Ok(s) => s,
                Err(e) => {
                    proof {
                        lemma_first_name_failure_prefix(*reg, device_ids@, i as int);
                    }
                    return Err(e);
                },
            };
            device_names.push(device_name);
            i = i + 1;
        }
        Ok(device_names)
    }

    /// Tests whether a device has any output stream configured: a
    /// successful zero-size answer means "not an output device", not an
    /// error.
    pub fn is_output_device(reg: &PropertyRegistry, device_id: &AudioDeviceId) -> (r: Result<
        bool,
        AudioOperationError,
    >)
        requires
            reg.wf(),
        ensures
            r == spec_is_output_result(*reg, *device_id),
    {
        let property_address = PropertyAddress {
            selector: SELECTOR_OUTPUT_STREAMS,
            scope: SCOPE_OUTPUT,
            element: 0,
        };
        let (os_status, property_size) = reg.query_size(*device_id, &property_address);
        if os_status != 0 {
            return Err(AudioOperationError::UnableToGetDeviceDescription);
        }
        Ok(property_size > 0)
    }

    /// Makes `device_id` the default output device by writing the
    /// default-output property of the system object.
    pub fn set_output_device(reg: &mut PropertyRegistry, device_id: &AudioDeviceId) -> (r: Result<
        bool,
        AudioOperationError,
    >)
        requires
            old(reg).wf(),
        ensures
            final(reg).wf(),
            r is Ok <==> old(reg).status_of(SYSTEM_OBJECT_ID, default_output_address()) == 0,
            r matches Ok(b) ==> b,
            r matches Err(e) ==> e == AudioOperationError::SystemCommError && final(reg).entries@
                == old(reg).entries@,
            r is Ok ==> set_updates(
                *old(reg),
                *final(reg),
                SYSTEM_OBJECT_ID,
                default_output_address(),
                le_bytes_of_u32(*device_id),
            ),
    {
        let property_address = PropertyAddress {
            selector: SELECTOR_DEFAULT_OUTPUT,
            scope: SCOPE_GLOBAL,
            element: 0,
        };
        let mut data: Vec<u8> = Vec::new();
        push_le_u32(&mut data, *device_id);
        let os_status = reg.set_data(SYSTEM_OBJECT_ID, &property_address, data);
        if os_status != 0 {
            return Err(AudioOperationError::SystemCommError);
        }
        Ok(true)
    }

    /// Sets a device's left and right volume in two steps: first fetch the
    /// preferred-stereo-channels property to learn which element indices
    /// are left and right, then write the 4-byte volume scalar at each.
    ///
    /// A failure at the second write after the first succeeded leaves the
    /// volume partially applied; there is no rollback.
    pub fn set_device_volume(
        reg: &mut PropertyRegistry,
        device_id: &AudioDeviceId,
        left_channel: Vec<u8>,
        right_channel: Vec<u8>,
    ) -> (r: Result<bool, AudioOperationError>)
        requires
            old(reg).wf(),
            left_channel@.len() == 4,
            right_channel@.len() == 4,
        ensures
            final(reg).wf(),
            r matches Err(e) ==> e == AudioOperationError::SystemCommError,
            r matches Ok(b) ==> b,
            ({
                let ch_st = old(reg).status_of(*device_id, channel_numbers_address());
                let chdata = old(reg).data_of(*device_id, channel_numbers_address());
                &&& (ch_st != 0 || chdata.len() < 8 ==> r is Err && final(reg).entries@ == old(
                    reg,
                ).entries@)
                &&& (ch_st == 0 && chdata.len() >= 8 ==> ({
                    let left_element = le_u32_at(chdata, 0) as u32;
                    let right_element = le_u32_at(chdata, 4) as u32;
                    let left_st = old(reg).status_of(*device_id, volume_address(left_element));
                    let right_st = old(reg).status_of(*device_id, volume_address(right_element));
                    &&& (left_st != 0 ==> r is Err && final(reg).entries@ == old(reg).entries@)
                    &&& (left_st == 0 && right_st != 0 ==> r is Err && set_updates(
                        *old(reg),
                        *final(reg),
                        *device_id,
                        volume_address(left_element),
                        left_channel@,
                    ))
                    &&& (left_st == 0 && right_st == 0 ==> r is Ok && exists|
                        mid: PropertyRegistry,
                    |
                        set_updates(
                            *old(reg),
                            mid,
                            *device_id,
                            volume_address(left_element),
                            left_channel@,
                        ) && #[trigger] set_updates(
                            mid,
                            *final(reg),
                            *device_id,
                            volume_address(right_element),
                            right_channel@,
                        ))
                }))
            }),
    {
        let channel_address = PropertyAddress {
            selector: SELECTOR_CHANNEL_NUMBERS,
            scope: SCOPE_OUTPUT,
            element: 0,
        };
        let (os_status, channels) = reg.query_data(*device_id, &channel_address);
        if os_status != 0 {
            return Err(AudioOperationError::SystemCommError);
        }
        if channels.len() < 8 {
            return Err(AudioOperationError::SystemCommError);
        }
        let left_element = read_le_u32(&channels, 0);
        let right_element = read_le_u32(&channels, 4);
        let left_address = PropertyAddress {
            selector: SELECTOR_VOLUME,
            scope: SCOPE_OUTPUT,
            element: left_element,
        };
        let left_status = reg.set_data(*device_id, &left_address, left_channel);
        if left_status != 0 {
            return Err(AudioOperationError::SystemCommError);
        }
        let ghost mid = *reg;
        proof {
            lemma_set_preserves_status(
                *old(reg),
                mid,
                *device_id,
                volume_address(left_element),
                left_channel@,
                *device_id,
                volume_address(right_element),
            );
        }
        let right_address = PropertyAddress {
            selector: SELECTOR_VOLUME,
            scope: SCOPE_OUTPUT,
            element: right_element,
        };
        let right_status = reg.set_data(*device_id, &right_address, right_channel);
        if right_status != 0 {
            return Err(AudioOperationError::SystemCommError);
        }
        proof {
            assert(set_updates(
                *old(reg),
                mid,
                *device_id,
                volume_address(left_element),
                left_channel@,
            ) && set_updates(
                mid,
                *final(reg),
                *device_id,
                volume_address(right_element),
                right_channel@,
            ));
        }
        Ok(true)
    }
}

/// Law: absent hot-plug (two queries of the same registry value), the
/// device count is stable, and it is never negative.
pub proof fn lemma_device_count_stable(
    reg: PropertyRegistry,
    r1: Result<u32, AudioOperationError>,
    r2: Result<u32, AudioOperationError>,
)
    requires
        r1 == spec_num_devices_result(reg),
        r2 == spec_num_devices_result(reg),
    ensures
        r1 == r2,
        spec_device_count(reg) >= 0,
{
}

/// Law: the id list is exactly as long as the device count it was sized
/// from.
pub proof fn lemma_device_ids_length(reg: PropertyRegistry)
    ensures
        spec_device_ids(reg).len() == spec_device_count(reg),
{
}

/// Every enumerated device answers the output-capability query.
pub open spec fn output_queries_ok(reg: PropertyRegistry) -> bool {
    forall|i|
        0 <= i < spec_device_ids(reg).len() ==> reg.status_of(
            #[trigger] spec_device_ids(reg)[i],
            output_streams_address(),
        ) == 0
}

/// Law: on a machine with an output device configured (some enumerated
/// device has a nonempty output-stream configuration), the capability
/// test answers `true` for at least one enumerated id.
pub proof fn lemma_output_device_found(reg: PropertyRegistry)
    requires
        output_queries_ok(reg),
        exists|i|
            0 <= i < spec_device_ids(reg).len() && reg.data_of(
                #[trigger] spec_device_ids(reg)[i],
                output_streams_address(),
            ).len() > 0,
    ensures
        exists|i|
            0 <= i < spec_device_ids(reg).len() && spec_is_output_result(
                reg,
                #[trigger] spec_device_ids(reg)[i],
            ) == Ok::<bool, AudioOperationError>(true),
{
    let i = choose|i|
        0 <= i < spec_device_ids(reg).len() && reg.data_of(
            #[trigger] spec_device_ids(reg)[i],
            output_streams_address(),
        ).len() > 0;
    assert(spec_is_output_result(reg, spec_device_ids(reg)[i]) == Ok::<bool, AudioOperationError>(
        true,
    ));
}

/// Every enumerated device carries a well-formed, nonempty name property.
pub open spec fn names_wf(reg: PropertyRegistry) -> bool {
    forall|i|
        0 <= i < spec_device_ids(reg).len() ==> (name_ok(reg, #[trigger] spec_device_ids(reg)[i])
            && spec_name_units(reg, spec_device_ids(reg)[i]).len() > 0)
}

/// Law: on such a registry, a name query for any enumerated id succeeds,
/// and by `get_device_name`'s contract the text it returns is nonempty.
pub proof fn lemma_device_names_nonempty(reg: PropertyRegistry, i: int)
    requires
        names_wf(reg),
        0 <= i < spec_device_ids(reg).len(),
    ensures
        name_ok(reg, spec_device_ids(reg)[i]),
        spec_name_units(reg, spec_device_ids(reg)[i]).len() > 0,
{
}

/// PCM geometry of the audio payload a session plays.
pub struct SourceDescription {
    pub bits_per_sample: u16,
    pub num_channels: u16,
    pub sample_rate: u32,
}

/// Lifecycle state of one playback session.
#[derive(Debug, Clone, Copy, PartialEq, Eq, Structural)]
pub enum SessionState {
    Initialized,
    Started,
    Paused,
    Stopped,
}

/// The stop transition: from any state the session ends `Stopped`;
/// platform resources are disposed exactly when the session had a running
/// or paused queue.
pub open spec fn spec_stop(s: SessionState) -> (SessionState, bool) {
    (SessionState::Stopped, s == SessionState::Started || s == SessionState::Paused)
}

/// The completion-callback transition: only a `Started` session is moved
/// to `Stopped` and disposed; any other state is left untouched.
pub open spec fn spec_complete(s: SessionState) -> (SessionState, bool) {
    if s == SessionState::Started {
        (SessionState::Stopped, true)
    } else {
        (s, false)
    }
}

/// Law: stopping twice in a row leaves the session `Stopped`, and the
/// second stop does not attempt a second disposal.
pub proof fn lemma_stop_idempotent(s: SessionState)
    ensures
        spec_stop(spec_stop(s).0).0 == SessionState::Stopped,
        !spec_stop(spec_stop(s).0).1,
{
}

/// Law: however a caller-initiated stop races the completion callback,
/// platform resources are disposed at most once: every disposing
/// transition lands in `Stopped`, out of which neither trigger disposes.
pub proof fn lemma_dispose_at_most_once(s: SessionState)
    ensures
        spec_stop(s).1 ==> spec_stop(s).0 == SessionState::Stopped,
        spec_complete(s).1 ==> spec_complete(s).0 == SessionState::Stopped,
        !spec_stop(SessionState::Stopped).1,
        !spec_complete(SessionState::Stopped).1,
{
}

/// One playback lifecycle: the bound device, the payload geometry, and
/// the session's place in the state machine.
pub struct AudioSession {
    pub id: u32,
    pub source_description: SourceDescription,
    pub state: SessionState,
    pub device: Option<AudioDeviceId>,
}

impl AudioSession {
    /// Creates a fresh session awaiting its start transition.
    pub fn new(id: u32, source_description: SourceDescription) -> (r: AudioSession)
        ensures
            r.id == id,
            r.source_description == source_description,
            r.state == SessionState::Initialized,
            r.device is None,
    {
        AudioSession { id, source_description, state: SessionState::Initialized, device: None }
    }

    /// `Initialized -> Started`: binds a device and takes over the queue
    /// buffer the backend allocated. The backend's outcomes are passed in:
    /// `bind_ok` for the device binding, `alloc_ok` for the buffer.
    pub fn start(&mut self, device_id: AudioDeviceId, bind_ok: bool, alloc_ok: bool) -> (r: Result<
        (),
        AudioOperationError,
    >)
        ensures
            old(self).state != SessionState::Initialized ==> (r matches Err(e) && e
                == AudioOperationError::DeviceNotInitialized && *final(self) == *old(self)),
            old(self).state == SessionState::Initialized && !bind_ok ==> (r matches Err(e) && e
                == AudioOperationError::DeviceNotAvailable && *final(self) == *old(self)),
            old(self).state == SessionState::Initialized && bind_ok && !alloc_ok ==> (r matches Err(e)
                && e == AudioOperationError::BufferAllocationFailed && *final(self) == *old(self)),
            old(self).state == SessionState::Initialized && bind_ok && alloc_ok ==> ({
                &&& r is Ok
                &&& final(self).state == SessionState::Started
                &&& final(self).device == Some(device_id)
                &&& final(self).id == old(self).id
                &&& final(self).source_description == old(self).source_description
            }),
    {
        if !matches!(self.state, SessionState::Initialized) {
            return Err(AudioOperationError::DeviceNotInitialized);
        }
        if !bind_ok {
            return Err(AudioOperationError::DeviceNotAvailable);
        }
        if !alloc_ok {
            return Err(AudioOperationError::BufferAllocationFailed);
        }
        self.state = SessionState::Started;
        self.device = Some(device_id);
        Ok(())
    }

    /// `Started -> Paused`: pauses the queue without reallocating buffers.
    pub fn pause(&mut self) -> (r: Result<(), AudioOperationError>)
        ensures
            old(self).state == SessionState::Started ==> ({
                &&& r is Ok
                &&& final(self).state == SessionState::Paused
                &&& final(self).device == old(self).device
                &&& final(self).id == old(self).id
                &&& final(self).source_description == old(self).source_description
            }),
            old(self).state != SessionState::Started ==> (r matches Err(e) && e
                == AudioOperationError::DeviceNotPaused && *final(self) == *old(self)),
    {
        if !matches!(self.state, SessionState::Started) {
            return Err(AudioOperationError::DeviceNotPaused);
        }
        self.state = SessionState::Paused;
        Ok(())
    }

    /// `Paused -> Started`: resumes the queue.
    pub fn resume(&mut self) -> (r: Result<(), AudioOperationError>)
        ensures
            old(self).state == SessionState::Paused ==> ({
                &&& r is Ok
                &&& final(self).state == SessionState::Started
                &&& final(self).device == old(self).device
                &&& final(self).id == old(self).id
                &&& final(self).source_description == old(self).source_description
            }),
            old(self).state != SessionState::Paused ==> (r matches Err(e) && e
                == AudioOperationError::DeviceNotUnpaused && *final(self) == *old(self)),
    {
        if !matches!(self.state, SessionState::Paused) {
            return Err(AudioOperationError::DeviceNotUnpaused);
        }
        self.state = SessionState::Started;
        Ok(())
    }

    /// Caller-initiated stop: the terminal transition. Detaches the bound
    /// device and reports whether the caller must dispose the platform
    /// queue; stopping an already-stopped session is a no-op, not an
    /// error.
    pub fn stop(&mut self) -> (dispose: bool)
        ensures
            final(self).state == spec_stop(old(self).state).0,
            dispose == spec_stop(old(self).state).1,
            final(self).device is None,
            final(self).id == old(self).id,
            final(self).source_description == old(self).source_description,
    {
        let dispose = matches!(self.state, SessionState::Started)
            || matches!(self.state, SessionState::Paused);
        self.state = SessionState::Stopped;
        self.device = None;
        dispose
    }

    /// Completion-callback trigger: when a buffer finishes playing, a
    /// `Started` session stops and its resources are disposed; in every
    /// other state the callback finds nothing to do, so a callback racing
    /// a caller-initiated stop never disposes twice.
    pub fn on_playback_complete(&mut self) -> (dispose: bool)
        ensures
            final(self).state == spec_complete(old(self).state).0,
            dispose == spec_complete(old(self).state).1,
            dispose ==> final(self).device is None,
            !dispose ==> *final(self) == *old(self),
            final(self).id == old(self).id,
            final(self).source_description == old(self).source_description,
    {
        if matches!(self.state, SessionState::Started) {
            self.state = SessionState::Stopped;
            self.device = None;
            true
        } else {
            false
        }
    }
}

/// Owns the playback sessions created on this host.
pub struct AudioManager {
    sessions: Vec<AudioSession>,
}

impl AudioManager {
    /// The sessions the manager currently owns.
    pub closed spec fn spec_sessions(&self) -> Seq<AudioSession> {
        self.sessions@
    }

    /// A manager that owns no sessions yet.
    pub fn new() -> (r: Self)
        ensures
            r.spec_sessions().len() == 0,
    {
        Self { sessions: Vec::new() }
    }
}

} // verus!
