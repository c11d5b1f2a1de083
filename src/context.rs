use vstd::prelude::*;

use crate::device::{carries, resolve, resolve_hex, text_of, Device};
use crate::error::Error;
use crate::id::Id;

verus! {

/// The largest number of identifiers a context issues: each must fit in `u32`.
pub const MAX_DEVICES: usize = 0xffff_ffff;

/// One row of the identity table, as Verus sees it.
pub struct Slot {
    pub locator: Option<Seq<char>>,
    pub vendor_id: Option<u16>,
    pub product_id: Option<u16>,
}

/// One row of the identity table. `locator` is `None` once the device is
/// gone; the vendor and product identifiers are those read when it was added.
struct Entry {
    locator: Option<String>,
    vendor_id: Option<u16>,
    product_id: Option<u16>,
}

impl View for Entry {
    type V = Slot;

    closed spec fn view(&self) -> Slot {
        Slot { locator: text_of(self.locator), vendor_id: self.vendor_id, product_id: self.product_id }
    }
}

pub open spec fn vendor_name() -> Seq<char> {
    seq!['i', 'd', 'V', 'e', 'n', 'd', 'o', 'r']
}

pub open spec fn product_name() -> Seq<char> {
    seq!['i', 'd', 'P', 'r', 'o', 'd', 'u', 'c', 't']
}

pub open spec fn manufacturer_name() -> Seq<char> {
    seq!['m', 'a', 'n', 'u', 'f', 'a', 'c', 't', 'u', 'r', 'e', 'r']
}

pub open spec fn product_string_name() -> Seq<char> {
    seq!['p', 'r', 'o', 'd', 'u', 'c', 't']
}

/// Whether `add_device` registers `device` on a table of length `len`: it must
/// have been read, carry a vendor identifier itself, and an identifier must be
/// left to issue.
pub open spec fn admits(len: nat, device: Option<Device>) -> bool {
    match device {
        Some(d) => carries(d.ancestry@, vendor_name()) && len < MAX_DEVICES,
        None => false,
    }
}

/// The row that registering `d` appends.
pub open spec fn fresh_slot(d: Device) -> Slot {
    Slot {
        locator: Some(d.locator@),
        vendor_id: resolve_hex(d.ancestry@, vendor_name()),
        product_id: resolve_hex(d.ancestry@, product_name()),
    }
}

/// The table, and the identifier issued, after `add_device`.
pub open spec fn add_outcome(s: Seq<Slot>, device: Option<Device>) -> (Seq<Slot>, Option<Id>) {
    if admits(s.len(), device) {
        (s.push(fresh_slot(device.unwrap())), Some(Id(s.len() as u32)))
    } else {
        (s, None)
    }
}

/// Whether row `i` is connected.
pub open spec fn connected(s: Seq<Slot>, i: int) -> bool {
    0 <= i < s.len() && s[i].locator is Some
}

/// The first row at or after `i` that is connected at `locator`.
pub open spec fn find_from(s: Seq<Slot>, locator: Seq<char>, i: int) -> Option<int>
    decreases s.len() - i,
{
    if i < 0 || i >= s.len() {
        None
    } else if s[i].locator == Some(locator) {
        Some(i)
    } else {
        find_from(s, locator, i + 1)
    }
}

proof fn lemma_find_from_hit(s: Seq<Slot>, locator: Seq<char>, i: int)
    requires
        0 <= i,
    ensures
        match find_from(s, locator, i) {
            Some(j) => i <= j < s.len() && s[j].locator == Some(locator),
            None => forall|j: int| i <= j < s.len() ==> s[j].locator != Some(locator),
        },
    decreases s.len() - i,
{
    if 0 <= i < s.len() && s[i].locator != Some(locator) {
        lemma_find_from_hit(s, locator, i + 1);
    }
}

/// The first row connected at `locator`.
pub open spec fn find(s: Seq<Slot>, locator: Seq<char>) -> Option<int> {
    find_from(s, locator, 0)
}

/// Row `i` with its locator cleared; the rest of the table kept.
pub open spec fn tombstone(s: Seq<Slot>, i: int) -> Seq<Slot> {
    s.update(i, Slot { locator: None, ..s[i] })
}

/// The table, and the identifier released, after `remove_device_by_locator`.
pub open spec fn remove_outcome(s: Seq<Slot>, locator: Seq<char>) -> (Seq<Slot>, Option<Id>) {
    match find(s, locator) {
        Some(i) => (tombstone(s, i), Some(Id(i as u32))),
        None => (s, None),
    }
}

/// An identifier issued by `add_device` is the length of the table before
/// the call, and the table grows by exactly that one row.
pub proof fn lemma_issued_id_is_old_length(s: Seq<Slot>, device: Option<Device>)
    ensures
        add_outcome(s, device).1 is Some ==> add_outcome(s, device).1.unwrap().index() == s.len()
            && add_outcome(s, device).0.len() == s.len() + 1,
        add_outcome(s, device).1 is None ==> add_outcome(s, device).0 == s,
{
}

/// Removing a locator at which no device is connected changes nothing, so
/// the connectivity of every identifier stays as it was.
pub proof fn lemma_remove_unknown_is_noop(s: Seq<Slot>, locator: Seq<char>)
    requires
        forall|j: int| 0 <= j < s.len() ==> (#[trigger] s[j]).locator != Some(locator),
    ensures
        remove_outcome(s, locator) == (s, None::<Id>),
        forall|i: int| connected(remove_outcome(s, locator).0, i) == connected(s, i),
{
    lemma_find_from_hit(s, locator, 0);
}

/// The identifier that a removal releases is no longer connected, while the
/// table keeps its length.
pub proof fn lemma_removed_is_disconnected(s: Seq<Slot>, locator: Seq<char>)
    requires
        s.len() <= MAX_DEVICES,
    ensures
        remove_outcome(s, locator).0.len() == s.len(),
        remove_outcome(s, locator).1 is Some ==> !connected(
            remove_outcome(s, locator).0,
            remove_outcome(s, locator).1.unwrap().index() as int,
        ),
{
    lemma_find_from_hit(s, locator, 0);
}

/// Removing the one device connected at a locator twice: the first removal
/// releases its identifier and disconnects it, the second finds nothing.
pub proof fn lemma_remove_twice(s: Seq<Slot>, locator: Seq<char>, i: int)
    requires
        s.len() <= MAX_DEVICES,
        0 <= i < s.len(),
        s[i].locator == Some(locator),
        forall|j: int| 0 <= j < s.len() && j != i ==> (#[trigger] s[j]).locator != Some(locator),
    ensures
        remove_outcome(s, locator).1 == Some(Id(i as u32)),
        !connected(remove_outcome(s, locator).0, i),
        remove_outcome(remove_outcome(s, locator).0, locator).1 is None,
{
    lemma_find_from_hit(s, locator, 0);
    let t = tombstone(s, i);
    assert forall|j: int| 0 <= j < t.len() implies (#[trigger] t[j]).locator != Some(locator) by {
        if j != i {
            assert(t[j] == s[j]);
        }
    }
    lemma_find_from_hit(t, locator, 0);
}

/// An identifier that was never issued is not connected.
pub proof fn lemma_unissued_not_connected(s: Seq<Slot>, i: int)
    requires
        i >= s.len(),
    ensures
        !connected(s, i),
{
}

/// The table, and the result, after a live string lookup of attribute `name`
/// for `id`, given the device as read again at its locator (`None` when it
/// could no longer be read).
pub open spec fn lookup_outcome(s: Seq<Slot>, id: Id, device: Option<Device>, name: Seq<char>) -> (
    Seq<Slot>,
    Result<Seq<char>, Error>,
) {
    if id.index() >= s.len() {
        (s, Err(Error::InvalidId))
    } else if s[id.index() as int].locator is None {
        (s, Err(Error::NotConnected))
    } else {
        match device {
            Some(d) => match resolve(d.ancestry@, name) {
                Some(text) => (s, Ok(text)),
                None => (tombstone(s, id.index() as int), Err(Error::NotConnected)),
            },
            None => (tombstone(s, id.index() as int), Err(Error::NotConnected)),
        }
    }
}

/// A USB context: the identity table that maps stable identifiers to the
/// devices seen so far.
pub struct Context {
    entries: Vec<Entry>,
}

impl View for Context {
    type V = Seq<Slot>;

    closed spec fn view(&self) -> Seq<Slot> {
        self.entries@.map_values(|e: Entry| e@)
    }
}

impl Context {
    /// Every issued identifier fits in `u32`.
    pub closed spec fn wf(&self) -> bool {
        self.entries@.len() <= MAX_DEVICES
    }

    /// A context whose table holds the devices of a startup scan, registered
    /// one after the other as `add_device` does.
    pub fn new(scan: Vec<Option<Device>>) -> (r: Context)
        ensures
            r.wf(),
            r@ == scan@.fold_left(Seq::<Slot>::empty(), |s: Seq<Slot>, d: Option<Device>| add_outcome(s, d).0),
    {
        let ghost all = scan@;
        let mut rest = scan;
        let mut context = Context { entries: Vec::new() };
        assert(context@ =~= Seq::<Slot>::empty());
        assert(all.subrange(0, 0) =~= Seq::<Option<Device>>::empty());
        assert(all.subrange(0, all.len() as int) =~= all);
        while rest.len() > 0
            invariant
                rest@.len() <= all.len(),
                rest@ == all.subrange(all.len() - rest@.len(), all.len() as int),
                context.wf(),
                context@ == all.subrange(0, all.len() - rest@.len()).fold_left(
                    Seq::<Slot>::empty(),
                    |s: Seq<Slot>, d: Option<Device>| add_outcome(s, d).0,
                ),
            decreases rest@.len(),
        {
            let ghost k = all.len() - rest@.len();
            let device = rest.remove(0);
            context.add_device(device);
            assert(all.subrange(0, k + 1).drop_last() =~= all.subrange(0, k));
            assert(rest@ =~= all.subrange(all.len() - rest@.len(), all.len() as int));
        }
        assert(all.subrange(0, all.len() as int) =~= all);
        context
    }

    /// Registers a device that was added, or found at startup: it is taken
    /// only if it was read and carries a vendor identifier itself. Its vendor
    /// and product identifiers are read now, once, as inherited along its
    /// chain.
    pub fn add_device(&mut self, device: Option<Device>) -> (r: Option<Id>)
        requires
            old(self).wf(),
        ensures
            final(self).wf(),
            (final(self)@, r) == add_outcome(old(self)@, device),
    {
        let vendor = "idVendor".to_owned();
        proof {
            reveal_strlit("idVendor");
        }
        assert(vendor@ == vendor_name());
        match device {
            Some(d) => {
                if !d.carries(&vendor) || self.entries.len() >= MAX_DEVICES {
                    return None;
                }
                let product = "idProduct".to_owned();
                proof {
                    reveal_strlit("idProduct");
                }
                assert(product@ == product_name());
                let vendor_id = d.attribute_hex(&vendor);
                let product_id = d.attribute_hex(&product);
                let id = Id(self.entries.len() as u32);
                let ghost before = self@;
                self.entries.push(Entry { locator: Some(d.locator), vendor_id, product_id });
                assert(self@ =~= before.push(fresh_slot(d)));
                Some(id)
            },
            None => None,
        }
    }

    /// Marks the first device connected at `locator` as disconnected and
    /// returns its identifier; an unknown or already removed locator changes
    /// nothing.
    pub fn remove_device_by_locator(&mut self, locator: &String) -> (r: Option<Id>)
        requires
            old(self).wf(),
        ensures
            final(self).wf(),
            (final(self)@, r) == remove_outcome(old(self)@, locator@),
    {
        proof {
            lemma_find_from_hit(self@, locator@, 0);
        }
        match self.resolve_locator(locator) {
            Some(id) => {
                let i = id.as_index();
                let ghost before = self@;
                self.entries.set(
                    i,
                    Entry {
                        locator: None,
                        vendor_id: self.entries[i].vendor_id,
                        product_id: self.entries[i].product_id,
                    },
                );
                assert(self@ =~= tombstone(before, i as int));
                Some(id)
            },
            None => None,
        }
    }

    /// The identifier of the first device connected at `locator`.
    pub fn resolve_locator(&self, locator: &String) -> (r: Option<Id>)
        requires
            self.wf(),
        ensures
            r == match find(self@, locator@) {
                Some(i) => Some(Id(i as u32)),
                None => None::<Id>,
            },
            r is Some ==> r.unwrap().index() < self@.len(),
    {
        let mut i: usize = 0;
        while i < self.entries.len()
            invariant
                i <= self.entries@.len(),
                self.wf(),
                find(self@, locator@) == find_from(self@, locator@, i as int),
            decreases self.entries@.len() - i,
        {
            let matches = match &self.entries[i].locator {
                Some(current) => *current == *locator,
                None => false,
            };
            assert(self@[i as int] == self.entries@[i as int]@);
            if matches {
                return Some(Id(i as u32));
            }
            i = i + 1;
        }
        None
    }

    /// The table position of `id`, if it was issued and its device is
    /// connected.
    fn index(&self, id: Id) -> (r: Result<usize, Error>)
        ensures
            r == if id.index() >= self@.len() {
                Err(Error::InvalidId)
            } else if !connected(self@, id.index() as int) {
                Err(Error::NotConnected)
            } else {
                Ok(id.index() as usize)
            },
    {
        let i = id.as_index();
        if i < self.entries.len() {
            assert(self@[i as int] == self.entries@[i as int]@);
            if self.entries[i].locator.is_some() {
                Ok(i)
            } else {
                Err(Error::NotConnected)
            }
        } else {
            Err(Error::InvalidId)
        }
    }

    /// Is a device plugged in?
    pub fn is_connected(&self, id: Id) -> (r: bool)
        ensures
            r == connected(self@, id.index() as int),
    {
        self.index(id).is_ok()
    }

    /// The number of identifiers issued so far.
    pub fn len(&self) -> (r: usize)
        ensures
            r == self@.len(),
    {
        self.entries.len()
    }

    /// The USB vendor ID of a device, as read when it was added; `None` for an
    /// identifier never issued.
    pub fn vendor_id(&self, id: Id) -> (r: Option<u16>)
        ensures
            r == if id.index() < self@.len() {
                self@[id.index() as int].vendor_id
            } else {
                None
            },
    {
        let i = id.as_index();
        if i < self.entries.len() {
            assert(self@[i as int] == self.entries@[i as int]@);
            self.entries[i].vendor_id
        } else {
            None
        }
    }

    /// The USB product ID of a device, as read when it was added; `None` for
    /// an identifier never issued.
    pub fn product_id(&self, id: Id) -> (r: Option<u16>)
        ensures
            r == if id.index() < self@.len() {
                self@[id.index() as int].product_id
            } else {
                None
            },
    {
        let i = id.as_index();
        if i < self.entries.len() {
            assert(self@[i as int] == self.entries@[i as int]@);
            self.entries[i].product_id
        } else {
            None
        }
    }

    /// Where the device of `id` is to be read again.
    pub fn locator(&self, id: Id) -> (r: Result<String, Error>)
        ensures
            match r {
                Ok(s) => connected(self@, id.index() as int) && self@[id.index() as int].locator
                    == Some(s@),
                Err(e) => e == (if id.index() >= self@.len() {
                    Error::InvalidId
                } else {
                    Error::NotConnected
                }) && !connected(self@, id.index() as int),
            },
    {
        let i = self.index(id)?;
        assert(self@[i as int] == self.entries@[i as int]@);
        match &self.entries[i].locator {
            Some(s) => Ok(s.clone()),
            None => Err(Error::NotConnected),
        }
    }

    /// Reads string attribute `name` of `id`'s device from `device`, the
    /// device as read again at its locator. A device that could not be read,
    /// or that no longer has the attribute, is marked disconnected.
    fn lookup_string(&mut self, id: Id, device: Option<Device>, name: &String) -> (r: Result<
        String,
        Error,
    >)
        requires
            old(self).wf(),
        ensures
            final(self).wf(),
            final(self)@ == lookup_outcome(old(self)@, id, device, name@).0,
            match r {
                Ok(s) => lookup_outcome(old(self)@, id, device, name@).1 == Ok::<Seq<char>, Error>(s@),
                Err(e) => lookup_outcome(old(self)@, id, device, name@).1 == Err::<Seq<char>, Error>(e),
            },
    {
        let i = self.index(id)?;
        let found = match &device {
            Some(d) => d.attribute(name),
            None => None,
        };
        match found {
            Some(text) => Ok(text),
            None => {
                let ghost before = self@;
                self.entries.set(
                    i,
                    Entry {
                        locator: None,
                        vendor_id: self.entries[i].vendor_id,
                        product_id: self.entries[i].product_id,
                    },
                );
                assert(self@ =~= tombstone(before, i as int));
                Err(Error::NotConnected)
            },
        }
    }

    /// The USB manufacturer string of a device, read live from `device`, the
    /// device as read again at `locator(id)`.
    pub fn manufacturer_string(&mut self, id: Id, device: Option<Device>) -> (r: Result<
        String,
        Error,
    >)
        requires
            old(self).wf(),
        ensures
            final(self).wf(),
            final(self)@ == lookup_outcome(old(self)@, id, device, manufacturer_name()).0,
            match r {
                Ok(s) => lookup_outcome(old(self)@, id, device, manufacturer_name()).1 == Ok::<
                    Seq<char>,
                    Error,
                >(s@),
                Err(e) => lookup_outcome(old(self)@, id, device, manufacturer_name()).1 == Err::<
                    Seq<char>,
                    Error,
                >(e),
            },
    {
        let name = "manufacturer".to_owned();
        proof {
            reveal_strlit("manufacturer");
        }
        assert(name@ == manufacturer_name());
        self.lookup_string(id, device, &name)
    }

    /// The USB product string of a device, read live from `device`, the
    /// device as read again at `locator(id)`.
    pub fn product_string(&mut self, id: Id, device: Option<Device>) -> (r: Result<String, Error>)
        requires
            old(self).wf(),
        ensures
            final(self).wf(),
            final(self)@ == lookup_outcome(old(self)@, id, device, product_string_name()).0,
            match r {
                Ok(s) => lookup_outcome(old(self)@, id, device, product_string_name()).1 == Ok::<
                    Seq<char>,
                    Error,
                >(s@),
                Err(e) => lookup_outcome(old(self)@, id, device, product_string_name()).1 == Err::<
                    Seq<char>,
                    Error,
                >(e),
            },
    {
        let name = "product".to_owned();
        proof {
            reveal_strlit("product");
        }
        assert(name@ == product_string_name());
        self.lookup_string(id, device, &name)
    }

    /// All identifiers ever issued, connected or not, in issuance order.
    pub fn devices(&self) -> (r: Vec<Id>)
        requires
            self.wf(),
        ensures
            r@.len() == self@.len(),
            forall|i: int| 0 <= i < r@.len() ==> (#[trigger] r@[i]).index() == i,
    {
        let mut r: Vec<Id> = Vec::new();
        let mut i: usize = 0;
        while i < self.entries.len()
            invariant
                i <= self.entries@.len(),
                self.wf(),
                r@.len() == i,
                forall|k: int| 0 <= k < r@.len() ==> (#[trigger] r@[k]).index() == k,
            decreases self.entries@.len() - i,
        {
            r.push(Id(i as u32));
            i = i + 1;
        }
        r
    }

    /// The identifiers of the devices plugged in now, in issuance order.
    pub fn connected_devices(&self) -> (r: Vec<Id>)
        requires
            self.wf(),
        ensures
            forall|k: int| 0 <= k < r@.len() ==> connected(self@, (#[trigger] r@[k]).index() as int),
            forall|k: int, l: int| 0 <= k < l < r@.len() ==> r@[k].index() < r@[l].index(),
            forall|i: int|
                #![trigger connected(self@, i)]
                connected(self@, i) ==> exists|k: int| 0 <= k < r@.len() && r@[k].index() == i,
    {
        let mut r: Vec<Id> = Vec::new();
        let mut i: usize = 0;
        while i < self.entries.len()
            invariant
                i <= self.entries@.len(),
                self.wf(),
                forall|k: int| 0 <= k < r@.len() ==> connected(self@, (#[trigger] r@[k]).index() as int),
                forall|k: int, l: int| 0 <= k < l < r@.len() ==> r@[k].index() < r@[l].index(),
                forall|k: int| 0 <= k < r@.len() ==> (#[trigger] r@[k]).index() < i,
                forall|j: int|
                    #![trigger connected(self@, j)]
                    0 <= j < i && connected(self@, j) ==> exists|k: int|
                        0 <= k < r@.len() && r@[k].index() == j,
            decreases self.entries@.len() - i,
        {
            let id = Id(i as u32);
            if self.is_connected(id) {
                let ghost prev = r@;
                r.push(id);
                assert forall|j: int|
                    #![trigger connected(self@, j)]
                    0 <= j < i + 1 && connected(self@, j) implies exists|k: int|
                        0 <= k < r@.len() && r@[k].index() == j by {
                    if j < i {
                        let k = choose|k: int| 0 <= k < prev.len() && prev[k].index() == j;
                        assert(r@[k] == prev[k]);
                    } else {
                        assert(r@[r@.len() - 1].index() == j);
                    }
                }
            }
            i = i + 1;
        }
        r
    }
}

} // verus!
