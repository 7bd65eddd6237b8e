//! The device manager: the registry of devices and the arbitration of
//! discovery events into additions and removals.
//!
//! An address is the durable identity of a device; its index is the alias
//! under which callers know it. The first discovery of an address assigns
//! the next free index, and that index stays with the address: a device
//! that goes and comes back is announced under the index it had.

use crate::device::communication::CommunicationEvent;
use crate::device::configuration::{
    find_definition, first_match, same_text, ProtocolDefinition,
};
use crate::device::server_device::{ServerDevice, ServerDeviceModel};
use crate::message::ButtplugDeviceMessageType;
use vstd::prelude::*;

verus! {

/// What the device manager tells the session layer.
#[derive(Debug, PartialEq, Eq)]
pub enum ServerEvent {
    /// A device is connected and takes the commands listed.
    DeviceAdded { index: u32, name: String, device_messages: Vec<ButtplugDeviceMessageType> },
    /// The device with this index is gone.
    DeviceRemoved { index: u32 },
    /// A scan has ended.
    ScanningFinished,
}

/// What a `ServerEvent` says.
pub ghost enum ServerEventModel {
    DeviceAdded { index: u32, name: Seq<char>, device_messages: Seq<ButtplugDeviceMessageType> },
    DeviceRemoved { index: u32 },
    ScanningFinished,
}

impl View for ServerEvent {
    type V = ServerEventModel;

    open spec fn view(&self) -> ServerEventModel {
        match self {
            ServerEvent::DeviceAdded { index, name, device_messages } => {
                ServerEventModel::DeviceAdded {
                    index: *index,
                    name: name@,
                    device_messages: device_messages@,
                }
            },
            ServerEvent::DeviceRemoved { index } => ServerEventModel::DeviceRemoved {
                index: *index,
            },
            ServerEvent::ScanningFinished => ServerEventModel::ScanningFinished,
        }
    }
}

/// The models of a sequence of events, in order.
pub open spec fn event_models(events: Seq<ServerEvent>) -> Seq<ServerEventModel> {
    Seq::new(events.len(), |i: int| events[i]@)
}

/// The place of one address in the registry. Its position is the index of
/// the device.
#[derive(Debug)]
struct Slot<H> {
    address: String,
    device: Option<ServerDevice<H>>,
}

/// One address known to the registry, and the device connected at it, if
/// one is.
pub ghost struct SlotModel<H> {
    pub address: Seq<char>,
    pub device: Option<ServerDeviceModel<H>>,
}

/// The state of a device manager. Slot `i` is that of device index `i`.
pub ghost struct DeviceManagerModel<H> {
    /// The configuration table.
    pub config: Seq<ProtocolDefinition>,
    /// Whether the session permits raw commands.
    pub allow_raw: bool,
    /// The addresses to which an index has been assigned, by index.
    pub slots: Seq<SlotModel<H>>,
}

/// The number of device indices: an index is a 32-bit number.
pub open spec fn index_count() -> nat {
    0x1_0000_0000
}

/// The first of `slots`, from position `start` on, that holds `address`.
pub open spec fn slot_from<H>(slots: Seq<SlotModel<H>>, address: Seq<char>, start: int) -> Option<
    int,
>
    decreases slots.len() - start,
{
    if start < 0 || start >= slots.len() {
        None
    } else if slots[start].address == address {
        Some(start)
    } else {
        slot_from(slots, address, start + 1)
    }
}

impl<H> DeviceManagerModel<H> {
    /// No address has two indices, and every index is a 32-bit number.
    pub open spec fn wf(self) -> bool {
        &&& self.slots.len() <= index_count()
        &&& forall|i: int, j: int|
            0 <= i < j < self.slots.len() ==> self.slots[i].address != self.slots[j].address
    }

    /// The index assigned to `address`, if one is.
    pub open spec fn index_of(self, address: Seq<char>) -> Option<int> {
        slot_from(self.slots, address, 0)
    }

    /// The device connected under `index`, if one is.
    pub open spec fn device(self, index: int) -> Option<ServerDeviceModel<H>> {
        if 0 <= index < self.slots.len() {
            self.slots[index].device
        } else {
            None
        }
    }

    /// The index of the device registered at `address`, if one is. This
    /// is the mapping by which a repeated announcement is told from a new
    /// device; an address whose device has left the registry is not in it.
    pub open spec fn registered_at(self, address: Seq<char>) -> Option<int> {
        match self.index_of(address) {
            Some(i) => if self.slots[i].device is Some {
                Some(i)
            } else {
                None
            },
            None => None,
        }
    }

    /// The device that a discovery is bound to: the first entry of the
    /// table that matches decides, and without a match there is none.
    pub open spec fn binding(self, name: Seq<char>, address: Seq<char>, handle: H) -> Option<
        ServerDeviceModel<H>,
    > {
        match first_match(self.config, name, address) {
            Some(d) => Some(ServerDeviceModel::bound(&self.config[d], self.allow_raw, handle)),
            None => None,
        }
    }

    /// The announcement of `device` under `index`.
    pub open spec fn added(index: int, device: ServerDeviceModel<H>) -> ServerEventModel {
        ServerEventModel::DeviceAdded {
            index: index as u32,
            name: device.name,
            device_messages: device.messages(),
        }
    }

    /// The state with the device of slot `index` replaced.
    pub open spec fn with_device(self, index: int, device: Option<ServerDeviceModel<H>>) -> Self {
        DeviceManagerModel {
            slots: self.slots.update(
                index,
                SlotModel { address: self.slots[index].address, device },
            ),
            ..self
        }
    }

    /// The state with a slot more, for a device at an address that had no
    /// index.
    pub open spec fn with_new(self, address: Seq<char>, device: ServerDeviceModel<H>) -> Self {
        DeviceManagerModel {
            slots: self.slots.push(SlotModel { address, device: Some(device) }),
            ..self
        }
    }

    /// The state and the events after the discovery of a device.
    ///
    /// An address without an index gets the next one, if the table has an
    /// entry for the device and an index is left; else the discovery is
    /// ignored. At an address whose device is connected the discovery is a
    /// repeated announcement and is ignored. At an address whose device
    /// has lost its connection, or has been removed, the device found now
    /// takes the index of the address; a stale device that was still
    /// registered is announced as removed first.
    pub open spec fn discovered(self, address: Seq<char>, name: Seq<char>, handle: H) -> (
        Self,
        Seq<ServerEventModel>,
    ) {
        let binding = self.binding(name, address, handle);
        match self.index_of(address) {
            None => if binding is Some && self.slots.len() < index_count() {
                (
                    self.with_new(address, binding->Some_0),
                    seq![Self::added(self.slots.len() as int, binding->Some_0)],
                )
            } else {
                (self, Seq::empty())
            },
            Some(i) => {
                let existing = self.slots[i].device;
                if existing is Some && existing->Some_0.connected {
                    (self, Seq::empty())
                } else {
                    let removed = if existing is Some {
                        seq![ServerEventModel::DeviceRemoved { index: i as u32 }]
                    } else {
                        Seq::empty()
                    };
                    let added = if binding is Some {
                        seq![Self::added(i, binding->Some_0)]
                    } else {
                        Seq::empty()
                    };
                    (self.with_device(i, binding), removed + added)
                }
            },
        }
    }

    /// The state and the events after the transport has dropped the
    /// connection of the device with the given index: the device leaves
    /// the registry and is announced as removed. Without such a device
    /// nothing happens.
    pub open spec fn disconnected(self, index: u32) -> (Self, Seq<ServerEventModel>) {
        if self.device(index as int) is Some {
            (self.with_device(index as int, None), seq![ServerEventModel::DeviceRemoved { index }])
        } else {
            (self, Seq::empty())
        }
    }

    /// The state and the events after the loss of the device at `address`.
    pub open spec fn lost(self, address: Seq<char>) -> (Self, Seq<ServerEventModel>) {
        match self.index_of(address) {
            Some(i) => self.disconnected(i as u32),
            None => (self, Seq::empty()),
        }
    }

    /// The state after the transport has reported that the connection of
    /// the device with the given index is no longer live. The device stays
    /// registered until its removal is processed or its address is
    /// discovered again.
    pub open spec fn connection_lost(self, index: u32) -> Self {
        match self.device(index as int) {
            Some(device) => self.with_device(
                index as int,
                Some(ServerDeviceModel { connected: false, ..device }),
            ),
            None => self,
        }
    }

    /// The state and the events after an event of a communication manager.
    pub open spec fn step(self, event: CommunicationEvent<H>) -> (Self, Seq<ServerEventModel>) {
        match event {
            CommunicationEvent::DeviceDiscovered { address, name, handle } => self.discovered(
                address@,
                name@,
                handle,
            ),
            CommunicationEvent::ScanningFinished => (
                self,
                seq![ServerEventModel::ScanningFinished],
            ),
            CommunicationEvent::DeviceLost { address } => self.lost(address@),
        }
    }
}

impl<H> DeviceManagerModel<H> {
    /// The slot found for an address holds it, and is the first that does.
    pub proof fn lemma_slot_from(self, address: Seq<char>, start: int)
        requires
            0 <= start,
        ensures
            match slot_from(self.slots, address, start) {
                Some(i) => start <= i < self.slots.len() && self.slots[i].address == address
                    && forall|j: int| start <= j < i ==> self.slots[j].address != address,
                None => forall|j: int|
                    start <= j < self.slots.len() ==> self.slots[j].address != address,
            },
        decreases self.slots.len() - start,
    {
        if start < self.slots.len() && self.slots[start].address != address {
            self.lemma_slot_from(address, start + 1);
        }
    }

    /// In a well-formed registry the index of an address is the position
    /// of the one slot that holds it.
    pub proof fn lemma_index_of(self, address: Seq<char>)
        requires
            self.wf(),
        ensures
            match self.index_of(address) {
                Some(i) => 0 <= i < self.slots.len() && forall|j: int|
                    0 <= j < self.slots.len() ==> (self.slots[j].address == address <==> j == i),
                None => forall|j: int|
                    0 <= j < self.slots.len() ==> self.slots[j].address != address,
            },
    {
        self.lemma_slot_from(address, 0);
    }

    /// A change of the device in a slot changes no index.
    pub proof fn lemma_with_device_keeps_indices(
        self,
        index: int,
        device: Option<ServerDeviceModel<H>>,
        address: Seq<char>,
    )
        requires
            self.wf(),
            0 <= index < self.slots.len(),
        ensures
            self.with_device(index, device).wf(),
            self.with_device(index, device).index_of(address) == self.index_of(address),
    {
        let after = self.with_device(index, device);
        assert forall|j: int| 0 <= j < self.slots.len() implies after.slots[j].address
            == self.slots[j].address by {}
        self.lemma_index_of(address);
        after.lemma_index_of(address);
        match self.index_of(address) {
            Some(i) => {
                assert(after.slots[i].address == address);
            },
            None => {
                if after.index_of(address) is Some {
                    let k = after.index_of(address)->Some_0;
                    assert(self.slots[k].address == after.slots[k].address);
                }
            },
        }
    }

    /// A new slot gives its address the next index and changes no other.
    pub proof fn lemma_with_new_keeps_indices(
        self,
        new_address: Seq<char>,
        device: ServerDeviceModel<H>,
        address: Seq<char>,
    )
        requires
            self.wf(),
            self.index_of(new_address) is None,
            self.slots.len() < index_count(),
        ensures
            self.with_new(new_address, device).wf(),
            self.with_new(new_address, device).index_of(new_address) == Some(
                self.slots.len() as int,
            ),
            address != new_address ==> self.with_new(new_address, device).index_of(address)
                == self.index_of(address),
    {
        let after = self.with_new(new_address, device);
        self.lemma_index_of(new_address);
        assert forall|j: int| 0 <= j < self.slots.len() implies after.slots[j].address
            == self.slots[j].address by {}
        assert(after.slots[self.slots.len() as int].address == new_address);
        assert(after.wf());
        self.lemma_index_of(address);
        after.lemma_index_of(address);
        after.lemma_index_of(new_address);
        if address != new_address {
            match self.index_of(address) {
                Some(i) => {
                    assert(after.slots[i].address == address);
                },
                None => {
                    if after.index_of(address) is Some {
                        let k = after.index_of(address)->Some_0;
                        if k < self.slots.len() {
                            assert(self.slots[k].address == after.slots[k].address);
                        }
                    }
                },
            }
        }
    }

    /// Every event leaves the registry well-formed, and leaves every
    /// address that has an index with that index: an index, once assigned,
    /// never passes to another address.
    pub proof fn lemma_step_keeps_indices(self, event: CommunicationEvent<H>, address: Seq<char>)
        requires
            self.wf(),
        ensures
            self.step(event).0.wf(),
            self.step(event).0.config == self.config,
            self.step(event).0.allow_raw == self.allow_raw,
            self.index_of(address) is Some ==> self.step(event).0.index_of(address)
                == self.index_of(address),
    {
        match event {
            CommunicationEvent::DeviceDiscovered { address: found, name, handle } => {
                self.lemma_discovered_keeps_indices(found@, name@, handle, address);
            },
            CommunicationEvent::ScanningFinished => {},
            CommunicationEvent::DeviceLost { address: gone } => {
                self.lemma_index_of(gone@);
                if self.index_of(gone@) is Some {
                    self.lemma_disconnected_keeps_indices(
                        self.index_of(gone@)->Some_0 as u32,
                        address,
                    );
                }
            },
        }
    }

    /// A discovery leaves the registry well-formed and changes no index
    /// that was assigned.
    pub proof fn lemma_discovered_keeps_indices(
        self,
        found: Seq<char>,
        name: Seq<char>,
        handle: H,
        address: Seq<char>,
    )
        requires
            self.wf(),
        ensures
            self.discovered(found, name, handle).0.wf(),
            self.discovered(found, name, handle).0.config == self.config,
            self.discovered(found, name, handle).0.allow_raw == self.allow_raw,
            self.index_of(address) is Some ==> self.discovered(found, name, handle).0.index_of(
                address,
            ) == self.index_of(address),
    {
        let binding = self.binding(name, found, handle);
        self.lemma_index_of(found);
        match self.index_of(found) {
            None => {
                if binding is Some && self.slots.len() < index_count() {
                    self.lemma_with_new_keeps_indices(found, binding->Some_0, address);
                }
            },
            Some(i) => {
                self.lemma_with_device_keeps_indices(i, binding, address);
            },
        }
    }

    /// A removal leaves the registry well-formed and changes no index.
    pub proof fn lemma_disconnected_keeps_indices(self, index: u32, address: Seq<char>)
        requires
            self.wf(),
        ensures
            self.disconnected(index).0.wf(),
            self.disconnected(index).0.index_of(address) == self.index_of(address),
    {
        if self.device(index as int) is Some {
            self.lemma_with_device_keeps_indices(index as int, None, address);
        }
    }

    /// The disconnect of a registered device announces its removal and
    /// takes it out of the registry, by index and by address. The address
    /// keeps the index for the return of the device.
    pub proof fn lemma_disconnect_removes_entry(self, index: u32)
        requires
            self.wf(),
            self.device(index as int) is Some,
        ensures
            self.disconnected(index).1 == seq![ServerEventModel::DeviceRemoved { index }],
            self.disconnected(index).0.device(index as int) is None,
            self.disconnected(index).0.registered_at(self.slots[index as int].address) is None,
            self.disconnected(index).0.index_of(self.slots[index as int].address) == Some(
                index as int,
            ),
    {
        let address = self.slots[index as int].address;
        self.lemma_index_of(address);
        self.lemma_disconnected_keeps_indices(index, address);
    }

    /// A discovery at an address whose device is connected is a repeated
    /// announcement: nothing changes and nothing is emitted.
    pub proof fn lemma_duplicate_is_ignored(self, address: Seq<char>, name: Seq<char>, handle: H)
        requires
            self.index_of(address) is Some,
            self.device(self.index_of(address)->Some_0) is Some,
            self.device(self.index_of(address)->Some_0)->Some_0.connected,
        ensures
            self.discovered(address, name, handle) == (self, Seq::<ServerEventModel>::empty()),
    {
        self.lemma_slot_from(address, 0);
    }

    /// Two discoveries of one address, the device of the first still
    /// connected at the second, announce one device and leave one entry.
    ///
    /// Where the first discovery connects a device (the address has no
    /// connected device yet, the table has an entry for what was found, and
    /// an index is there for it), its events end with the one `DeviceAdded`,
    /// and the second discovery changes nothing and emits nothing.
    pub proof fn lemma_repeated_discovery(
        self,
        address: Seq<char>,
        first_name: Seq<char>,
        first_handle: H,
        second_name: Seq<char>,
        second_handle: H,
    )
        requires
            self.wf(),
            self.binding(first_name, address, first_handle) is Some,
            match self.index_of(address) {
                Some(i) => !(self.device(i) is Some && self.device(i)->Some_0.connected),
                None => self.slots.len() < index_count(),
            },
        ensures
            ({
                let (first, first_events) = self.discovered(address, first_name, first_handle);
                let (second, second_events) = first.discovered(
                    address,
                    second_name,
                    second_handle,
                );
                let index = first.index_of(address);
                &&& index is Some
                &&& self.index_of(address) is Some ==> index == self.index_of(address)
                &&& first.device(index->Some_0) == self.binding(first_name, address, first_handle)
                &&& first_events.len() > 0
                &&& first_events.last() == Self::added(index->Some_0, first.device(index->Some_0)->Some_0)
                &&& forall|k: int|
                    0 <= k < first_events.len() - 1 ==> !(first_events[k] is DeviceAdded)
                &&& second_events == Seq::<ServerEventModel>::empty()
                &&& second == first
                &&& forall|j: int|
                    0 <= j < second.slots.len() && second.slots[j].address == address ==> j
                        == index->Some_0
            }),
    {
        let binding = self.binding(first_name, address, first_handle);
        let (first, first_events) = self.discovered(address, first_name, first_handle);
        self.lemma_index_of(address);
        self.lemma_discovered_keeps_indices(address, first_name, first_handle, address);
        match self.index_of(address) {
            None => {
                self.lemma_with_new_keeps_indices(address, binding->Some_0, address);
            },
            Some(i) => {
                self.lemma_with_device_keeps_indices(i, binding, address);
            },
        }
        first.lemma_index_of(address);
        first.lemma_duplicate_is_ignored(address, second_name, second_handle);
    }

    /// A device that is discovered, disconnects and is discovered again is
    /// announced under the index that it had.
    ///
    /// The first discovery of an address announces the device under a new
    /// index. The disconnect announces the removal of that index. The next
    /// discovery of the address, whatever happened to other devices in
    /// between, announces the device under the same index.
    pub proof fn lemma_reconnection_keeps_index(
        self,
        address: Seq<char>,
        first_name: Seq<char>,
        first_handle: H,
        second_name: Seq<char>,
        second_handle: H,
    )
        requires
            self.wf(),
            self.index_of(address) is None,
            self.slots.len() < index_count(),
            self.binding(first_name, address, first_handle) is Some,
            self.binding(second_name, address, second_handle) is Some,
        ensures
            ({
                let index = self.slots.len() as int;
                let (first, first_events) = self.discovered(address, first_name, first_handle);
                let (gone, gone_events) = first.disconnected(index as u32);
                let (second, second_events) = gone.discovered(address, second_name, second_handle);
                &&& first_events == seq![
                    Self::added(index, self.binding(first_name, address, first_handle)->Some_0),
                ]
                &&& gone_events == seq![ServerEventModel::DeviceRemoved { index: index as u32 }]
                &&& second_events == seq![
                    Self::added(index, self.binding(second_name, address, second_handle)->Some_0),
                ]
                &&& second.index_of(address) == Some(index)
                &&& second.device(index) == self.binding(second_name, address, second_handle)
            }),
    {
        let index = self.slots.len() as int;
        let binding = self.binding(first_name, address, first_handle)->Some_0;
        let (first, first_events) = self.discovered(address, first_name, first_handle);
        self.lemma_with_new_keeps_indices(address, binding, address);
        let (gone, gone_events) = first.disconnected(index as u32);
        first.lemma_disconnected_keeps_indices(index as u32, address);
        let again = gone.binding(second_name, address, second_handle);
        assert(again == self.binding(second_name, address, second_handle));
        gone.lemma_with_device_keeps_indices(index, again, address);
        let (second, second_events) = gone.discovered(address, second_name, second_handle);
        assert(second_events =~= seq![Self::added(index, again->Some_0)]);
    }

    /// An address that lost its device gets it back under its old index
    /// at the next discovery that the table has an entry for, whatever the
    /// registry has seen since.
    pub proof fn lemma_rediscovery_uses_assigned_index(
        self,
        address: Seq<char>,
        name: Seq<char>,
        handle: H,
    )
        requires
            self.wf(),
            self.index_of(address) is Some,
            self.device(self.index_of(address)->Some_0) is None,
            self.binding(name, address, handle) is Some,
        ensures
            self.discovered(address, name, handle).1 == seq![
                Self::added(
                    self.index_of(address)->Some_0,
                    self.binding(name, address, handle)->Some_0,
                ),
            ],
            self.discovered(address, name, handle).0.index_of(address) == self.index_of(address),
            self.discovered(address, name, handle).0.device(self.index_of(address)->Some_0)
                == self.binding(name, address, handle),
    {
        let i = self.index_of(address)->Some_0;
        self.lemma_index_of(address);
        self.lemma_with_device_keeps_indices(i, self.binding(name, address, handle), address);
        assert(self.discovered(address, name, handle).1 =~= seq![
            Self::added(i, self.binding(name, address, handle)->Some_0),
        ]);
    }
}

/// The model of the device in a slot.
spec fn device_model<H>(device: Option<ServerDevice<H>>) -> Option<ServerDeviceModel<H>> {
    match device {
        Some(device) => Some(device@),
        None => None,
    }
}

impl<H> View for Slot<H> {
    type V = SlotModel<H>;

    closed spec fn view(&self) -> SlotModel<H> {
        SlotModel { address: self.address@, device: device_model(self.device) }
    }
}

/// The models of the slots of a registry, by index.
spec fn slot_models<H>(slots: Seq<Slot<H>>) -> Seq<SlotModel<H>> {
    Seq::new(slots.len(), |i: int| slots[i]@)
}

/// The state of a manager that holds these values.
spec fn model_of<H>(config: Seq<ProtocolDefinition>, allow_raw: bool, slots: Seq<Slot<H>>)
    -> DeviceManagerModel<H> {
    DeviceManagerModel { config, allow_raw, slots: slot_models(slots) }
}

/// The slot of `address`.
fn find_slot<H>(slots: &Vec<Slot<H>>, address: &str) -> (r: Option<usize>)
    ensures
        match r {
            Some(i) => i < slots@.len() && slot_from(slot_models(slots@), address@, 0) == Some(
                i as int,
            ),
            None => slot_from(slot_models(slots@), address@, 0) is None,
        },
{
    let ghost models = slot_models(slots@);
    let mut i: usize = 0;
    while i < slots.len()
        invariant
            i <= slots@.len(),
            models == slot_models(slots@),
            slot_from(models, address@, 0) == slot_from(models, address@, i as int),
        decreases slots@.len() - i,
    {
        assert(models[i as int] == slots@[i as int]@);
        if same_text(slots[i].address.as_str(), address) {
            return Some(i);
        }
        i += 1;
    }
    None
}

/// Replaces the device of slot `i`.
fn set_device<H>(slots: &mut Vec<Slot<H>>, i: usize, device: Option<ServerDevice<H>>)
    requires
        i < old(slots)@.len(),
    ensures
        slot_models(final(slots)@) == slot_models(old(slots)@).update(
            i as int,
            SlotModel {
                address: slot_models(old(slots)@)[i as int].address,
                device: device_model(device),
            },
        ),
{
    let mut incoming = device;
    std::mem::swap(&mut slots[i].device, &mut incoming);
    assert(slot_models(slots@) =~= slot_models(old(slots)@).update(
        i as int,
        SlotModel {
            address: slot_models(old(slots)@)[i as int].address,
            device: device_model(device),
        },
    ));
}

/// The announcement of `device` under `index`.
fn announce<H>(index: u32, device: &ServerDevice<H>) -> (r: ServerEvent)
    ensures
        r@ == DeviceManagerModel::added(index as int, device@),
{
    ServerEvent::DeviceAdded {
        index,
        name: device.name().clone(),
        device_messages: device.device_messages(),
    }
}

/// Processes the discovery of a device.
fn discover<H>(
    config: &Vec<ProtocolDefinition>,
    allow_raw: bool,
    slots: &mut Vec<Slot<H>>,
    address: String,
    name: String,
    handle: H,
) -> (events: Vec<ServerEvent>)
    requires
        model_of(config@, allow_raw, old(slots)@).wf(),
    ensures
        (model_of(config@, allow_raw, final(slots)@), event_models(events@)) == model_of(
            config@,
            allow_raw,
            old(slots)@,
        ).discovered(address@, name@, handle),
{
    let ghost before = model_of(config@, allow_raw, slots@);
    let found = find_slot(slots, address.as_str());
    let definition = find_definition(config, name.as_str(), address.as_str());
    let mut events: Vec<ServerEvent> = Vec::new();
    assert(event_models(events@) =~= Seq::empty());
    match found {
        None => {
            if slots.len() > 0xFFFF_FFFF {
                return events;
            }
            match definition {
                Ok(d) => {
                    let device = ServerDevice::new(&config[d], allow_raw, handle);
                    let index: u32 = slots.len() as u32;
                    events.push(announce(index, &device));
                    assert(event_models(events@) =~= seq![
                        DeviceManagerModel::added(index as int, device@),
                    ]);
                    let ghost target = before.with_new(address@, device@);
                    slots.push(Slot { address, device: Some(device) });
                    assert(slot_models(slots@) =~= target.slots);
                    events
                },
                Err(_) => events,
            }
        },
        Some(i) => {
            assert(before.slots[i as int] == slots@[i as int]@);
            let stale = match &slots[i].device {
                Some(existing) => {
                    if existing.connected() {
                return events;
                    }
                    true
                },
                None => false,
            };
            if stale {
                events.push(ServerEvent::DeviceRemoved { index: i as u32 });
            }
            let ghost removed = event_models(events@);
            assert(removed =~= if stale {
                seq![ServerEventModel::DeviceRemoved { index: i as u32 }]
            } else {
                Seq::empty()
            });
            match definition {
                Ok(d) => {
                    let device = ServerDevice::new(&config[d], allow_raw, handle);
                    events.push(announce(i as u32, &device));
                    assert(event_models(events@) =~= removed + seq![
                        DeviceManagerModel::added(i as int, device@),
                    ]);
                    set_device(slots, i, Some(device));
                },
                Err(_) => {
                    assert(event_models(events@) =~= removed + Seq::empty());
                    set_device(slots, i, None);
                },
            }
            events
        },
    }
}

/// Processes the disconnect of the device with the given index.
fn disconnect<H>(
    config: &Vec<ProtocolDefinition>,
    allow_raw: bool,
    slots: &mut Vec<Slot<H>>,
    index: u32,
) -> (events: Vec<ServerEvent>)
    ensures
        (model_of(config@, allow_raw, final(slots)@), event_models(events@)) == model_of(
            config@,
            allow_raw,
            old(slots)@,
        ).disconnected(index),
{
    let ghost before = model_of(config@, allow_raw, slots@);
    let mut events: Vec<ServerEvent> = Vec::new();
    let i = index as usize;
    if i < slots.len() {
        assert(before.slots[i as int] == slots@[i as int]@);
        if slots[i].device.is_some() {
            events.push(ServerEvent::DeviceRemoved { index });
            assert(event_models(events@) =~= seq![ServerEventModel::DeviceRemoved { index }]);
            set_device(slots, i, None);
            return events;
        }
    }
    assert(event_models(events@) =~= Seq::empty());
    events
}

/// The device manager.
#[derive(Debug)]
pub struct DeviceManager<H> {
    config: Vec<ProtocolDefinition>,
    allow_raw: bool,
    slots: Vec<Slot<H>>,
}

impl<H> View for DeviceManager<H> {
    type V = DeviceManagerModel<H>;

    closed spec fn view(&self) -> DeviceManagerModel<H> {
        model_of(self.config@, self.allow_raw, self.slots@)
    }
}

impl<H> DeviceManager<H> {
    #[verifier::type_invariant]
    spec fn well_formed(self) -> bool {
        self@.wf()
    }

    /// A manager without devices, for the given configuration table.
    /// `allow_raw` says whether the session permits raw commands.
    pub fn new(config: Vec<ProtocolDefinition>, allow_raw: bool) -> (r: Self)
        ensures
            r@ == (DeviceManagerModel {
                config: config@,
                allow_raw,
                slots: Seq::<SlotModel<H>>::empty(),
            }),
            r@.wf(),
    {
        let r = DeviceManager { config, allow_raw, slots: Vec::new() };
        assert(r@.slots =~= Seq::empty());
        r
    }

    /// Whether the session permits raw commands.
    pub fn allow_raw(&self) -> (r: bool)
        ensures
            r == self@.allow_raw,
    {
        self.allow_raw
    }

    /// The index assigned to `address`, if one is.
    pub fn device_index(&self, address: &str) -> (r: Option<u32>)
        ensures
            self@.wf(),
            match r {
                Some(index) => self@.index_of(address@) == Some(index as int),
                None => self@.index_of(address@) is None,
            },
    {
        proof {
            use_type_invariant(self);
        }
        match find_slot(&self.slots, address) {
            Some(i) => Some(i as u32),
            None => None,
        }
    }

    /// The device connected under `index`, if one is.
    pub fn device(&self, index: u32) -> (r: Option<&ServerDevice<H>>)
        ensures
            self@.wf(),
            match r {
                Some(device) => self@.device(index as int) == Some(device@),
                None => self@.device(index as int) is None,
            },
    {
        proof {
            use_type_invariant(self);
        }
        let i = index as usize;
        if i < self.slots.len() {
            assert(self@.slots[i as int] == self.slots@[i as int]@);
            self.slots[i].device.as_ref()
        } else {
            None
        }
    }

    /// Processes an event of a communication manager and hands back the
    /// events that the session layer is to see, in order.
    pub fn handle_event(&mut self, event: CommunicationEvent<H>) -> (events: Vec<ServerEvent>)
        ensures
            old(self)@.wf(),
            (final(self)@, event_models(events@)) == old(self)@.step(event),
            final(self)@.wf(),
    {
        proof {
            use_type_invariant(&*self);
            self@.lemma_step_keeps_indices(event, Seq::empty());
        }
        let mut slots: Vec<Slot<H>> = Vec::new();
        assert(slot_models(slots@) =~= Seq::empty());
        std::mem::swap(&mut self.slots, &mut slots);
        let events = match event {
            CommunicationEvent::DeviceDiscovered { address, name, handle } => {
                discover(&self.config, self.allow_raw, &mut slots, address, name, handle)
            },
            CommunicationEvent::ScanningFinished => {
                let events = vec![ServerEvent::ScanningFinished];
                assert(event_models(events@) =~= seq![ServerEventModel::ScanningFinished]);
                events
            },
            CommunicationEvent::DeviceLost { address } => {
                match find_slot(&slots, address.as_str()) {
                    Some(i) => disconnect(&self.config, self.allow_raw, &mut slots, i as u32),
                    None => {
                        let events: Vec<ServerEvent> = Vec::new();
                        assert(event_models(events@) =~= Seq::empty());
                        events
                    },
                }
            },
        };
        std::mem::swap(&mut self.slots, &mut slots);
        events
    }

    /// Processes the disconnect of the device with the given index, as the
    /// transport or the device reports it: the device leaves the registry
    /// and its removal is handed back for the session layer. Its address
    /// keeps the index.
    pub fn device_disconnected(&mut self, index: u32) -> (events: Vec<ServerEvent>)
        ensures
            old(self)@.wf(),
            (final(self)@, event_models(events@)) == old(self)@.disconnected(index),
            final(self)@.wf(),
    {
        proof {
            use_type_invariant(&*self);
            self@.lemma_disconnected_keeps_indices(index, Seq::empty());
        }
        let mut slots: Vec<Slot<H>> = Vec::new();
        assert(slot_models(slots@) =~= Seq::empty());
        std::mem::swap(&mut self.slots, &mut slots);
        let events = disconnect(&self.config, self.allow_raw, &mut slots, index);
        std::mem::swap(&mut self.slots, &mut slots);
        events
    }

    /// Records that the transport no longer holds the connection of the
    /// device with the given index. Nothing is announced: the device stays
    /// registered, as stale, until its disconnect is processed or its
    /// address is discovered again.
    pub fn connection_lost(&mut self, index: u32)
        ensures
            old(self)@.wf(),
            final(self)@ == old(self)@.connection_lost(index),
            final(self)@.wf(),
    {
        proof {
            use_type_invariant(&*self);
        }
        let ghost before = self@;
        let mut slots: Vec<Slot<H>> = Vec::new();
        assert(slot_models(slots@) =~= Seq::empty());
        std::mem::swap(&mut self.slots, &mut slots);
        let i = index as usize;
        if i < slots.len() {
            assert(before.slots[i as int] == slots@[i as int]@);
            let mut device: Option<ServerDevice<H>> = None;
            std::mem::swap(&mut slots[i].device, &mut device);
            match device {
                Some(mut d) => {
                    d.connection_lost();
                    proof {
                        before.lemma_with_device_keeps_indices(
                            i as int,
                            Some(d@),
                            Seq::empty(),
                        );
                    }
                    set_device(&mut slots, i, Some(d));
                    assert(slot_models(slots@) =~= before.connection_lost(index).slots);
                },
                None => {
                    assert(slot_models(slots@) =~= before.slots);
                },
            }
        }
        std::mem::swap(&mut self.slots, &mut slots);
    }
}

} // verus!
