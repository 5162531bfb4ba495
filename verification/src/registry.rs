//! The device registry: up to three configured records, one per role,
//! with a reverse index from broadcast address to role and a per-role
//! persisted frame.
//!
//! The reverse index is kept consistent with the records at every
//! change: when a role's address changes, the old address leaves the
//! index before the new one enters. A record with the zero sentinel
//! address is never indexed.

use vstd::prelude::*;
use std::collections::HashMap;

use crate::device::{
    spec_device_frame, spec_frame_ok, spec_is_zero_mac, spec_mac_key, spec_type_code, Device,
    DeviceKey, DeviceType, Mac,
};
use crate::device::{lemma_frame_of_device_ok, lemma_frame_unique, mac_u64};

verus! {

/// The persisted bytes of each role, as the flash storage holds them.
/// A role without an entry has never been stored.
pub struct KvStore {
    pub inv: Option<Vec<u8>>,
    pub mppt: Option<Vec<u8>>,
    pub bmv: Option<Vec<u8>>,
}

impl KvStore {
    /// The stored bytes of a role.
    pub open spec fn spec_entry(self, t: DeviceType) -> Option<Seq<u8>> {
        match t {
            DeviceType::Inverter => match self.inv {
                Option::Some(v) => Option::Some(v@),
                Option::None => Option::None,
            },
            DeviceType::Mppt => match self.mppt {
                Option::Some(v) => Option::Some(v@),
                Option::None => Option::None,
            },
            DeviceType::Bmv => match self.bmv {
                Option::Some(v) => Option::Some(v@),
                Option::None => Option::None,
            },
        }
    }

    /// A store with no entries.
    pub fn new() -> (r: KvStore)
        ensures
            forall|t: DeviceType| r.spec_entry(t) is None,
    {
        KvStore { inv: Option::None, mppt: Option::None, bmv: Option::None }
    }

    /// The stored bytes of a role.
    pub fn entry(&self, t: DeviceType) -> (r: Option<&Vec<u8>>)
        ensures
            r is Some <==> self.spec_entry(t) is Some,
            r matches Some(v) ==> self.spec_entry(t) == Option::Some(v@),
    {
        match t {
            DeviceType::Inverter => self.inv.as_ref(),
            DeviceType::Mppt => self.mppt.as_ref(),
            DeviceType::Bmv => self.bmv.as_ref(),
        }
    }

    /// Replaces the stored bytes of a role; other roles keep theirs.
    pub fn set_entry(&mut self, t: DeviceType, bytes: Vec<u8>)
        ensures
            final(self).spec_entry(t) == Option::Some(bytes@),
            forall|t2: DeviceType| t2 != t ==> final(self).spec_entry(t2) == old(
                self,
            ).spec_entry(t2),
    {
        match t {
            DeviceType::Inverter => {
                self.inv = Option::Some(bytes);
            },
            DeviceType::Mppt => {
                self.mppt = Option::Some(bytes);
            },
            DeviceType::Bmv => {
                self.bmv = Option::Some(bytes);
            },
        }
    }
}

/// What applying a record to the registry came to.
#[derive(Clone, Copy, PartialEq, Eq, Structural, Debug)]
pub enum UpsertOutcome {
    /// The record carried the zero sentinel address and was ignored.
    Rejected,
    /// The role already holds this exact record; nothing was written.
    Unchanged,
    /// The record was applied under an address new to its role.
    Added,
    /// The record replaced the role's record under the same address.
    Updated,
    /// The record was applied in memory, but no store is attached.
    NotPersisted,
}

impl UpsertOutcome {
    /// The outcome as the configuration caller reports it.
    pub fn message(&self) -> (r: &'static str)
        ensures
            self is Rejected ==> r@ == "has 0 mac, ignoring"@,
            self is Unchanged ==> r@ == "already exists, not updated"@,
            self is Added ==> r@ == "added"@,
            self is Updated ==> r@ == "updated"@,
            self is NotPersisted ==> r@ == "not saved to storage"@,
    {
        match self {
            UpsertOutcome::Rejected => "has 0 mac, ignoring",
            UpsertOutcome::Unchanged => "already exists, not updated",
            UpsertOutcome::Added => "added",
            UpsertOutcome::Updated => "updated",
            UpsertOutcome::NotPersisted => "not saved to storage",
        }
    }
}

/// How one applied record moves the reverse index: when the role's
/// address changes, the old address leaves before the new one enters.
pub open spec fn spec_upsert_index(
    m: Map<u64, DeviceType>,
    old_addr: Mac,
    new_addr: Mac,
    t: DeviceType,
) -> Map<u64, DeviceType> {
    if old_addr == new_addr {
        m.insert(spec_mac_key(new_addr), t)
    } else {
        m.remove(spec_mac_key(old_addr)).insert(spec_mac_key(new_addr), t)
    }
}

/// The set of configured devices, at most one per role.
pub struct Devices {
    pub inverter: Device,
    pub mppt: Device,
    pub bmv: Device,
    pub addr_index: HashMap<u64, DeviceType>,
    pub store: Option<KvStore>,
}

impl Devices {
    /// The record held for a role.
    pub open spec fn spec_device(self, t: DeviceType) -> Device {
        match t {
            DeviceType::Inverter => self.inverter,
            DeviceType::Mppt => self.mppt,
            DeviceType::Bmv => self.bmv,
        }
    }

    /// The stored bytes of a role, if a store is attached.
    pub open spec fn spec_store_entry(self, t: DeviceType) -> Option<Seq<u8>> {
        match self.store {
            Option::Some(st) => st.spec_entry(t),
            Option::None => Option::None,
        }
    }

    /// Well-formedness: each slot holds a record of its own role, and
    /// every index entry points at the current, non-zero address of the
    /// role it names.
    pub open spec fn wf(self) -> bool {
        &&& self.inverter.device_type is Inverter
        &&& self.mppt.device_type is Mppt
        &&& self.bmv.device_type is Bmv
        &&& forall|a: u64|
            #[trigger] self.addr_index@.contains_key(a) ==> {
                let d = self.spec_device(self.addr_index@[a]);
                spec_mac_key(d.addr) == a && !spec_is_zero_mac(d.addr)
            }
    }

    /// A registry with every role unconfigured and no store attached.
    pub fn new() -> (r: Devices)
        ensures
            r.wf(),
            forall|t: DeviceType|
                (#[trigger] r.spec_device(t)).device_type == t && spec_is_zero_mac(
                    r.spec_device(t).addr,
                ) && r.spec_device(t).pin is None,
            r.addr_index@ == Map::<u64, DeviceType>::empty(),
            r.store is None,
    {
        Devices {
            inverter: Device::empty(DeviceType::Inverter),
            mppt: Device::empty(DeviceType::Mppt),
            bmv: Device::empty(DeviceType::Bmv),
            addr_index: HashMap::new(),
            store: Option::None,
        }
    }

    /// The record held for a role.
    pub fn device(&self, device: DeviceType) -> (r: &Device)
        ensures
            *r == self.spec_device(device),
    {
        match device {
            DeviceType::Inverter => &self.inverter,
            DeviceType::Mppt => &self.mppt,
            DeviceType::Bmv => &self.bmv,
        }
    }

    /// The broadcast address configured for a role.
    pub fn device_addr(&self, device: DeviceType) -> (r: &Mac)
        ensures
            *r == self.spec_device(device).addr,
    {
        self.device(device).addr()
    }

    /// The payload key configured for a role.
    pub fn device_key(&self, device: DeviceType) -> (r: &DeviceKey)
        ensures
            *r == self.spec_device(device).key,
    {
        self.device(device).key()
    }

    /// The pin configured for a role.
    pub fn device_pin(&self, device: DeviceType) -> (r: Option<u32>)
        ensures
            r == self.spec_device(device).pin,
    {
        self.device(device).pin()
    }

    /// The payload key of the device broadcasting from `addr`, found
    /// through the reverse index; nothing for an unknown address.
    pub fn get_key(&self, addr: &Mac) -> (r: Option<&DeviceKey>)
        ensures
            r is Some <==> self.addr_index@.contains_key(spec_mac_key(*addr)),
            r matches Some(k) ==> *k == self.spec_device(
                self.addr_index@[spec_mac_key(*addr)],
            ).key,
    {
        let k = mac_u64(addr);
        match self.addr_index.get(&k) {
            Option::Some(t) => Option::Some(self.device(*t).key()),
            Option::None => Option::None,
        }
    }

    /// The pin of the device broadcasting from `addr`; nothing for an
    /// unknown address or a device without a pin.
    pub fn get_pin(&self, addr: &Mac) -> (r: Option<u32>)
        ensures
            r == if self.addr_index@.contains_key(spec_mac_key(*addr)) {
                self.spec_device(self.addr_index@[spec_mac_key(*addr)]).pin
            } else {
                Option::<u32>::None
            },
    {
        let k = mac_u64(addr);
        match self.addr_index.get(&k) {
            Option::Some(t) => self.device(*t).pin(),
            Option::None => Option::None,
        }
    }

    /// How many devices are configured: the size of the reverse index.
    pub fn num_devices(&self) -> (r: usize)
        ensures
            r == self.addr_index@.len(),
    {
        self.addr_index.len()
    }

    /// Applies a record to its role.
    ///
    /// A record with the zero sentinel address is rejected and nothing
    /// changes. A record identical to the role's current one leaves the
    /// registry and the store untouched. Otherwise the slot and the
    /// reverse index are updated — the old address leaves the index
    /// first when it differs — and the record's frame is written to the
    /// attached store; without a store the change is in memory only.
    pub fn add_device(&mut self, device: Device) -> (r: UpsertOutcome)
        requires
            old(self).wf(),
        ensures
            final(self).wf(),
            spec_is_zero_mac(device.addr) ==> r == UpsertOutcome::Rejected && *final(self) == *old(
                self,
            ),
            !spec_is_zero_mac(device.addr) && device == old(self).spec_device(device.device_type)
                ==> r == UpsertOutcome::Unchanged && *final(self) == *old(self),
            !spec_is_zero_mac(device.addr) && device != old(self).spec_device(device.device_type)
                ==> {
                let existing = old(self).spec_device(device.device_type);
                &&& final(self).spec_device(device.device_type) == device
                &&& forall|t2: DeviceType|
                    t2 != device.device_type ==> final(self).spec_device(t2) == old(
                        self,
                    ).spec_device(t2)
                &&& final(self).addr_index@ == spec_upsert_index(
                    old(self).addr_index@,
                    existing.addr,
                    device.addr,
                    device.device_type,
                )
                &&& final(self).store is Some <==> old(self).store is Some
                &&& old(self).store is None ==> r == UpsertOutcome::NotPersisted
                &&& old(self).store is Some ==> {
                    &&& final(self).spec_store_entry(device.device_type) matches Some(s)
                        && spec_device_frame(s, device)
                    &&& forall|t2: DeviceType|
                        t2 != device.device_type ==> final(self).spec_store_entry(t2) == old(
                            self,
                        ).spec_store_entry(t2)
                    &&& r == if existing.addr == device.addr {
                        UpsertOutcome::Updated
                    } else {
                        UpsertOutcome::Added
                    }
                }
            },
    {
        if !device.is_valid() {
            return UpsertOutcome::Rejected;
        }
        let role = device.device_type();
        let existing: Device = *self.device(role);
        if existing == device {
            return UpsertOutcome::Unchanged;
        }
        let same_addr = crate::device::bytes_eq(existing.addr.as_slice(), device.addr.as_slice());
        proof {
            if same_addr {
                assert(existing.addr =~= device.addr);
            }
        }
        if !same_addr {
            let old_key = mac_u64(&existing.addr);
            self.addr_index.remove(&old_key);
        }
        let new_key = mac_u64(&device.addr);
        self.addr_index.insert(new_key, role);
        let persisted: bool = match &mut self.store {
            Option::Some(st) => {
                let frame = device.encode();
                st.set_entry(role, frame);
                true
            },
            Option::None => false,
        };
        match role {
            DeviceType::Inverter => {
                self.inverter = device;
            },
            DeviceType::Mppt => {
                self.mppt = device;
            },
            DeviceType::Bmv => {
                self.bmv = device;
            },
        }
        let r = if persisted {
            if same_addr {
                UpsertOutcome::Updated
            } else {
                UpsertOutcome::Added
            }
        } else {
            UpsertOutcome::NotPersisted
        };
        proof {
            assert forall|a: u64| #[trigger] self.addr_index@.contains_key(a) implies {
                let d = self.spec_device(self.addr_index@[a]);
                spec_mac_key(d.addr) == a && !spec_is_zero_mac(d.addr)
            } by {
                if a != spec_mac_key(device.addr) {
                    assert(old(self).addr_index@.contains_key(a));
                    assert(self.addr_index@[a] == old(self).addr_index@[a]);
                }
            }
        }
        r
    }

    /// Attaches a loaded store and fills each role from its persisted
    /// frame.
    ///
    /// A role whose entry is absent, malformed or framed for another
    /// role is left as it was — one bad entry never aborts the rest.
    /// Each loaded record with a non-zero address enters the reverse
    /// index. Meant for a freshly created registry at start-up, so the
    /// index is required to start empty.
    pub fn load_from_nvs(&mut self, store: KvStore)
        requires
            old(self).wf(),
            old(self).addr_index@ == Map::<u64, DeviceType>::empty(),
        ensures
            final(self).wf(),
            final(self).store matches Some(st) && st == store,
            forall|t: DeviceType|
                spec_role_loaded(store, t) ==> spec_device_frame(
                    store.spec_entry(t)->Some_0,
                    #[trigger] final(self).spec_device(t),
                ),
            forall|t: DeviceType|
                !spec_role_loaded(store, t) ==> #[trigger] final(self).spec_device(t) == old(
                    self,
                ).spec_device(t),
            final(self).addr_index@ == spec_load_index(*final(self), store),
    {
        self.load_role(&store, DeviceType::Inverter);
        let ghost s1 = *self;
        self.load_role(&store, DeviceType::Mppt);
        let ghost s2 = *self;
        self.load_role(&store, DeviceType::Bmv);
        let ghost s3 = *self;
        self.store = Option::Some(store);
        proof {
            assert(s2.spec_device(DeviceType::Inverter) == s1.spec_device(DeviceType::Inverter));
            assert(s3.spec_device(DeviceType::Inverter) == s2.spec_device(DeviceType::Inverter));
            assert(s3.spec_device(DeviceType::Mppt) == s2.spec_device(DeviceType::Mppt));
            assert(self.spec_device(DeviceType::Inverter) == s1.spec_device(DeviceType::Inverter));
            assert(self.spec_device(DeviceType::Mppt) == s2.spec_device(DeviceType::Mppt));
            assert(self.spec_device(DeviceType::Bmv) == s3.spec_device(DeviceType::Bmv));
            assert forall|t: DeviceType| spec_role_loaded(store, t) implies spec_device_frame(
                store.spec_entry(t)->Some_0,
                self.spec_device(t),
            ) by {
                if t is Inverter {
                    assert(spec_device_frame(
                        store.spec_entry(DeviceType::Inverter)->Some_0,
                        s1.spec_device(DeviceType::Inverter),
                    ));
                } else if t is Mppt {
                    assert(spec_device_frame(
                        store.spec_entry(DeviceType::Mppt)->Some_0,
                        s2.spec_device(DeviceType::Mppt),
                    ));
                } else {
                    assert(t is Bmv);
                    assert(spec_device_frame(
                        store.spec_entry(DeviceType::Bmv)->Some_0,
                        s3.spec_device(DeviceType::Bmv),
                    ));
                }
            }
            assert forall|t: DeviceType| !spec_role_loaded(store, t) implies self.spec_device(t)
                == old(self).spec_device(t) by {
                if t is Inverter {
                    assert(s1.spec_device(DeviceType::Inverter) == old(self).spec_device(
                        DeviceType::Inverter,
                    ));
                } else if t is Mppt {
                    assert(s2.spec_device(DeviceType::Mppt) == s1.spec_device(DeviceType::Mppt));
                } else {
                    assert(t is Bmv);
                    assert(s3.spec_device(DeviceType::Bmv) == s2.spec_device(DeviceType::Bmv));
                }
            }
            assert(self.addr_index@ =~= spec_load_index(*self, store));
        }
    }

    /// Fills one role from its persisted frame, if that frame is
    /// well-formed and names this role; indexes its address when it is
    /// not the zero sentinel.
    fn load_role(&mut self, store: &KvStore, t: DeviceType)
        requires
            old(self).wf(),
            forall|a: u64|
                #[trigger] old(self).addr_index@.contains_key(a) ==> old(self).addr_index@[a] != t,
        ensures
            final(self).wf(),
            final(self).store == old(self).store,
            spec_role_loaded(*store, t) ==> spec_device_frame(
                store.spec_entry(t)->Some_0,
                final(self).spec_device(t),
            ),
            !spec_role_loaded(*store, t) ==> final(self).spec_device(t) == old(self).spec_device(
                t,
            ),
            forall|t2: DeviceType|
                t2 != t ==> #[trigger] final(self).spec_device(t2) == old(self).spec_device(t2),
            final(self).addr_index@ == if spec_role_loaded(*store, t) && !spec_is_zero_mac(
                final(self).spec_device(t).addr,
            ) {
                old(self).addr_index@.insert(spec_mac_key(final(self).spec_device(t).addr), t)
            } else {
                old(self).addr_index@
            },
    {
        let entry = store.entry(t);
        match entry {
            Option::Some(bytes) => {
                match Device::decode(bytes.as_slice()) {
                    Option::Some(d) => {
                        let role_matches = d.device_type() == t;
                        if role_matches {
                            if d.is_valid() {
                                let k = mac_u64(&d.addr);
                                self.addr_index.insert(k, t);
                            }
                            match t {
                                DeviceType::Inverter => {
                                    self.inverter = d;
                                },
                                DeviceType::Mppt => {
                                    self.mppt = d;
                                },
                                DeviceType::Bmv => {
                                    self.bmv = d;
                                },
                            }
                        }
                    },
                    Option::None => {},
                }
            },
            Option::None => {},
        }
    }
}

/// Whether the store holds a well-formed frame for this role, framed
/// under the role's own code.
pub open spec fn spec_role_loaded(store: KvStore, t: DeviceType) -> bool {
    store.spec_entry(t) matches Some(s) && spec_frame_ok(s) && s[0] == spec_type_code(t)
}

/// The reverse index right after a fresh registry loaded `store`: the
/// address of each loaded, configured record, indexed in role order.
pub open spec fn spec_load_index(after: Devices, store: KvStore) -> Map<u64, DeviceType> {
    let m0 = Map::<u64, DeviceType>::empty();
    let m1 = if spec_role_loaded(store, DeviceType::Inverter) && !spec_is_zero_mac(
        after.inverter.addr,
    ) {
        m0.insert(spec_mac_key(after.inverter.addr), DeviceType::Inverter)
    } else {
        m0
    };
    let m2 = if spec_role_loaded(store, DeviceType::Mppt) && !spec_is_zero_mac(after.mppt.addr) {
        m1.insert(spec_mac_key(after.mppt.addr), DeviceType::Mppt)
    } else {
        m1
    };
    if spec_role_loaded(store, DeviceType::Bmv) && !spec_is_zero_mac(after.bmv.addr) {
        m2.insert(spec_mac_key(after.bmv.addr), DeviceType::Bmv)
    } else {
        m2
    }
}

/// Law: a record accepted and persisted by the registry is reproduced,
/// field for field, by a fresh registry that loads the persisted store.
/// The first premise is what applying the record guarantees of the
/// store; the second is what loading guarantees of the slot.
pub proof fn lemma_upsert_load_round_trip(st: KvStore, d: Device, loaded: Device)
    requires
        st.spec_entry(d.device_type) matches Some(s) && spec_device_frame(s, d),
        spec_role_loaded(st, d.device_type) ==> spec_device_frame(
            st.spec_entry(d.device_type)->Some_0,
            loaded,
        ),
    ensures
        loaded == d,
{
    let s = st.spec_entry(d.device_type)->Some_0;
    lemma_frame_of_device_ok(s, d);
    lemma_frame_unique(s, d, loaded);
}

/// Law: after a role's address changes twice, the reverse index
/// resolves only the most recent address; the one before returns
/// nothing, whatever the index held to begin with.
pub proof fn lemma_lookup_after_two_readdressings(
    m: Map<u64, DeviceType>,
    t: DeviceType,
    a0: Mac,
    a1: Mac,
    a2: Mac,
)
    requires
        a1 != a0,
        a2 != a1,
    ensures
        ({
            let m2 = spec_upsert_index(spec_upsert_index(m, a0, a1, t), a1, a2, t);
            &&& m2.contains_key(spec_mac_key(a2))
            &&& m2[spec_mac_key(a2)] == t
            &&& !m2.contains_key(spec_mac_key(a1))
        }),
{
    if spec_mac_key(a1) == spec_mac_key(a2) {
        crate::device::lemma_mac_key_injective(a1, a2);
    }
}

} // verus!
