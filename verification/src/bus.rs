//! The shared address bus: an ordered list of address-range-owning devices.
//!
//! Every CPU memory access is routed to the first registered device whose
//! inclusive range contains the address. Reads of addresses that no device
//! owns (or that fall beyond a device's backing store) return 0x00; such
//! writes are silently dropped. Both policies are fixed here so that no bus
//! access can fail.

use vstd::prelude::*;

verus! {

/// The mathematical view of a bus device: its inclusive address range, its
/// classification (memory or I/O) and the bytes of its backing store.
#[verifier::ext_equal]
pub ghost struct DevView {
    /// First address the device owns.
    pub start: u16,
    /// Last address the device owns.
    pub end: u16,
    /// True for a memory device, false for an I/O device.
    pub memory: bool,
    /// The backing bytes; index i backs address start + i.
    pub data: Seq<u8>,
}

/// True iff `address` lies in the inclusive range of device `d`.
pub open spec fn dev_contains(d: DevView, address: u16) -> bool {
    d.start <= address && address <= d.end
}

/// True iff `address` lies in the range of `d` and has a backing byte.
pub open spec fn dev_backed(d: DevView, address: u16) -> bool {
    dev_contains(d, address) && address - d.start < d.data.len()
}

/// The byte device `d` yields for `address`: the backing byte when there is
/// one, 0 otherwise.
pub open spec fn dev_read(d: DevView, address: u16) -> u8 {
    if dev_backed(d, address) {
        d.data[address - d.start]
    } else {
        0
    }
}

/// Device `d` after a write of `value` to `address`: the backing byte is
/// replaced when there is one, otherwise the write is dropped.
pub open spec fn dev_write(d: DevView, address: u16, value: u8) -> DevView {
    if dev_backed(d, address) {
        DevView { data: d.data.update(address - d.start, value), ..d }
    } else {
        d
    }
}

/// The index of the first device whose range contains `address`, or -1 when
/// no device does. Registration order decides which device owns an address
/// when ranges overlap.
pub open spec fn first_match(devs: Seq<DevView>, address: u16) -> int
    decreases devs.len(),
{
    if devs.len() == 0 {
        -1
    } else if dev_contains(devs[0], address) {
        0
    } else {
        let rest = first_match(devs.drop_first(), address);
        if rest == -1 {
            -1
        } else {
            rest + 1
        }
    }
}

/// True iff some registered device owns `address`.
pub open spec fn bus_mapped(devs: Seq<DevView>, address: u16) -> bool {
    first_match(devs, address) >= 0
}

/// True iff the device owning `address` has a backing byte for it, so that a
/// write to `address` sticks and is seen by later reads.
pub open spec fn bus_backed(devs: Seq<DevView>, address: u16) -> bool {
    bus_mapped(devs, address) && dev_backed(devs[first_match(devs, address)], address)
}

/// The byte the bus yields for `address`: the owning device's byte, or 0
/// when the address is unmapped.
pub open spec fn bus_read(devs: Seq<DevView>, address: u16) -> u8 {
    if bus_mapped(devs, address) {
        dev_read(devs[first_match(devs, address)], address)
    } else {
        0
    }
}

/// The 16-bit little-endian value read from `address` and `address + 1`
/// (the second address wrapping modulo 65536).
pub open spec fn bus_read16(devs: Seq<DevView>, address: u16) -> u16 {
    (bus_read(devs, address.wrapping_add(1)) as u16) << 8 | bus_read(devs, address) as u16
}

/// The device list after a write of `value` to `address`: the owning
/// device's backing byte is replaced; an unmapped write is dropped.
pub open spec fn bus_write(devs: Seq<DevView>, address: u16, value: u8) -> Seq<DevView> {
    if bus_mapped(devs, address) {
        let i = first_match(devs, address);
        devs.update(i, dev_write(devs[i], address, value))
    } else {
        devs
    }
}

/// True iff `address` is owned by a device classified as memory.
pub open spec fn bus_is_memory(devs: Seq<DevView>, address: u16) -> bool {
    bus_mapped(devs, address) && devs[first_match(devs, address)].memory
}

/// True iff `address` is owned by a device classified as I/O.
pub open spec fn bus_is_io(devs: Seq<DevView>, address: u16) -> bool {
    bus_mapped(devs, address) && !devs[first_match(devs, address)].memory
}

/// The index returned by `first_match` is either -1 with no device owning
/// the address, or the first owning index.
pub proof fn lemma_first_match(devs: Seq<DevView>, address: u16)
    ensures
        first_match(devs, address) == -1 ==> forall|j: int|
            0 <= j < devs.len() ==> !dev_contains(devs[j], address),
        first_match(devs, address) != -1 ==> {
            &&& 0 <= first_match(devs, address) < devs.len()
            &&& dev_contains(devs[first_match(devs, address)], address)
            &&& forall|j: int|
                0 <= j < first_match(devs, address) ==> !dev_contains(devs[j], address)
        },
    decreases devs.len(),
{
    if devs.len() > 0 && !dev_contains(devs[0], address) {
        lemma_first_match(devs.drop_first(), address);
        assert forall|j: int| 1 <= j < devs.len() implies devs.drop_first()[j - 1] == devs[j] by {}
    }
}

/// A write leaves every device's range and classification unchanged, and
/// therefore which device owns which address.
pub proof fn lemma_write_preserves_shape(devs: Seq<DevView>, address: u16, value: u8)
    ensures
        bus_write(devs, address, value).len() == devs.len(),
        forall|j: int|
            0 <= j < devs.len() ==> {
                &&& (#[trigger] bus_write(devs, address, value)[j]).start == devs[j].start
                &&& bus_write(devs, address, value)[j].end == devs[j].end
                &&& bus_write(devs, address, value)[j].memory == devs[j].memory
                &&& bus_write(devs, address, value)[j].data.len() == devs[j].data.len()
            },
{
    lemma_first_match(devs, address);
}

/// Two device lists in which the same devices own the same ranges have the
/// same first match everywhere.
pub proof fn lemma_first_match_same_ranges(devs1: Seq<DevView>, devs2: Seq<DevView>, address: u16)
    requires
        devs1.len() == devs2.len(),
        forall|j: int|
            0 <= j < devs1.len() ==> (#[trigger] devs2[j]).start == devs1[j].start && devs2[j].end
                == devs1[j].end,
    ensures
        first_match(devs1, address) == first_match(devs2, address),
    decreases devs1.len(),
{
    if devs1.len() > 0 && !dev_contains(devs1[0], address) {
        assert forall|j: int| 0 <= j < devs1.drop_first().len() implies (#[trigger] devs2
            .drop_first()[j]).start == devs1.drop_first()[j].start && devs2.drop_first()[j].end
            == devs1.drop_first()[j].end by {
            assert(devs1.drop_first()[j] == devs1[j + 1]);
            assert(devs2.drop_first()[j] == devs2[j + 1]);
        }
        lemma_first_match_same_ranges(devs1.drop_first(), devs2.drop_first(), address);
    }
}

/// Reading back an address whose write sticks yields the written value.
pub proof fn lemma_read_after_write(devs: Seq<DevView>, address: u16, value: u8)
    requires
        bus_backed(devs, address),
    ensures
        bus_read(bus_write(devs, address, value), address) == value,
{
    let devs2 = bus_write(devs, address, value);
    lemma_write_preserves_shape(devs, address, value);
    lemma_first_match_same_ranges(devs, devs2, address);
    lemma_first_match(devs, address);
}

/// A write to one address does not change what any other address reads.
pub proof fn lemma_read_frame(devs: Seq<DevView>, address: u16, value: u8, other: u16)
    requires
        other != address,
    ensures
        bus_read(bus_write(devs, address, value), other) == bus_read(devs, other),
{
    let devs2 = bus_write(devs, address, value);
    lemma_write_preserves_shape(devs, address, value);
    lemma_first_match_same_ranges(devs, devs2, other);
    lemma_first_match(devs, other);
    lemma_first_match(devs, address);
}

/// A write changes no address's backing status: which addresses stick is a
/// property of the devices' ranges and store sizes alone.
pub proof fn lemma_write_preserves_backed(devs: Seq<DevView>, address: u16, value: u8, other: u16)
    ensures
        bus_backed(bus_write(devs, address, value), other) == bus_backed(devs, other),
{
    let devs2 = bus_write(devs, address, value);
    lemma_write_preserves_shape(devs, address, value);
    lemma_first_match_same_ranges(devs, devs2, other);
    lemma_first_match(devs, other);
}

/// An address outside every registered range reads as 0.
pub proof fn lemma_unmapped_read_zero(devs: Seq<DevView>, address: u16)
    requires
        !bus_mapped(devs, address),
    ensures
        bus_read(devs, address) == 0,
{
}

/// A device connected to the bus: a contiguous inclusive address range, a
/// memory/I-O classification, and a backing store.
pub struct BusDevice {
    /// The first address of the device's range.
    pub start_address: u16,
    /// The last address of the device's range.
    pub end_address: u16,
    /// True when the device is memory, false when it is I/O.
    pub is_memory: bool,
    /// The backing bytes of the device.
    pub data: Vec<u8>,
}

impl View for BusDevice {
    type V = DevView;

    open spec fn view(&self) -> DevView {
        DevView {
            start: self.start_address,
            end: self.end_address,
            memory: self.is_memory,
            data: self.data@,
        }
    }
}

impl BusDevice {
    /// Creates a device owning the inclusive range `start_address` to
    /// `end_address` with the given classification and backing bytes.
    pub fn new(start_address: u16, end_address: u16, is_memory: bool, data: Vec<u8>) -> (r:
        BusDevice)
        ensures
            r@ == (DevView { start: start_address, end: end_address, memory: is_memory, data: data@ }),
    {
        BusDevice { start_address, end_address, is_memory, data }
    }

    /// Creates a memory device with the given backing bytes.
    pub fn new_memory(start_address: u16, end_address: u16, data: Vec<u8>) -> (r: BusDevice)
        ensures
            r@ == (DevView { start: start_address, end: end_address, memory: true, data: data@ }),
    {
        BusDevice::new(start_address, end_address, true, data)
    }

    /// Creates an I/O device with an empty backing store.
    pub fn new_io(start_address: u16, end_address: u16) -> (r: BusDevice)
        ensures
            r@ == (DevView {
                start: start_address,
                end: end_address,
                memory: false,
                data: Seq::empty(),
            }),
    {
        let data: Vec<u8> = Vec::new();
        assert(data@ =~= Seq::empty());
        BusDevice::new(start_address, end_address, false, data)
    }

    /// Returns the device's classification.
    pub fn is_memory(&self) -> (r: bool)
        ensures
            r == self@.memory,
    {
        self.is_memory
    }

    /// Returns the first address of the device's range.
    pub fn start_address(&self) -> (r: u16)
        ensures
            r == self@.start,
    {
        self.start_address
    }

    /// Returns the last address of the device's range.
    pub fn end_address(&self) -> (r: u16)
        ensures
            r == self@.end,
    {
        self.end_address
    }

    /// Returns how many addresses the device's range covers; a range whose
    /// start lies beyond its end covers none.
    pub fn size(&self) -> (r: usize)
        ensures
            r == if self@.start <= self@.end {
                self@.end - self@.start + 1
            } else {
                0int
            },
    {
        if self.start_address <= self.end_address {
            (self.end_address - self.start_address) as usize + 1
        } else {
            0
        }
    }

    /// Reads the byte backing `address`, or 0 when `address` is outside the
    /// device's range or beyond its backing store.
    pub fn read(&self, address: u16) -> (r: u8)
        ensures
            r == dev_read(self@, address),
    {
        if address >= self.start_address && address <= self.end_address {
            let offset = (address - self.start_address) as usize;
            if offset < self.data.len() {
                self.data[offset]
            } else {
                0
            }
        } else {
            0
        }
    }

    /// Writes `value` to the byte backing `address`; a write outside the
    /// device's range or beyond its backing store is dropped.
    pub fn write(&mut self, address: u16, value: u8)
        ensures
            final(self)@ == dev_write(old(self)@, address, value),
    {
        if address >= self.start_address && address <= self.end_address {
            let offset = (address - self.start_address) as usize;
            if offset < self.data.len() {
                self.data[offset] = value;
            }
        }
    }

    /// Clears the device's backing store.
    pub fn reset(&mut self)
        ensures
            final(self)@ == (DevView { data: Seq::empty(), ..old(self)@ }),
    {
        self.data = Vec::new();
        assert(self.data@ =~= Seq::<u8>::empty());
    }
}

/// The main bus: the ordered list of connected devices.
pub struct MainBus {
    /// The connected devices, in registration order.
    pub devices: Vec<BusDevice>,
}

impl View for MainBus {
    type V = Seq<DevView>;

    open spec fn view(&self) -> Seq<DevView> {
        Seq::new(self.devices@.len(), |i: int| self.devices@[i]@)
    }
}

impl MainBus {
    /// Creates a bus with no devices.
    pub fn new() -> (r: MainBus)
        ensures
            r@ =~= Seq::<DevView>::empty(),
    {
        MainBus { devices: Vec::new() }
    }

    /// Registers `device` after all devices registered so far.
    pub fn add_device(&mut self, device: BusDevice)
        ensures
            final(self)@ =~= old(self)@.push(device@),
    {
        self.devices.push(device);
    }

    /// Clears the backing store of every connected device.
    pub fn reset(&mut self)
        ensures
            final(self)@.len() == old(self)@.len(),
            forall|j: int|
                0 <= j < old(self)@.len() ==> final(self)@[j] == (DevView {
                    data: Seq::<u8>::empty(),
                    ..old(self)@[j]
                }),
    {
        let n = self.devices.len();
        let mut i: usize = 0;
        while i < n
            invariant
                n == self.devices@.len(),
                i <= n,
                self@.len() == old(self)@.len(),
                forall|j: int|
                    0 <= j < i ==> self@[j] == (DevView {
                        data: Seq::<u8>::empty(),
                        ..old(self)@[j]
                    }),
                forall|j: int| i <= j < n ==> self@[j] == old(self)@[j],
            decreases n - i,
        {
            let ghost prev = self@;
            self.devices[i].reset();
            proof {
                assert forall|j: int| 0 <= j < i + 1 implies self@[j] == (DevView {
                    data: Seq::<u8>::empty(),
                    ..old(self)@[j]
                }) by {
                    if j < i {
                        assert(self@[j] == prev[j]);
                    }
                }
                assert forall|j: int| i + 1 <= j < n implies self@[j] == old(self)@[j] by {
                    assert(self@[j] == prev[j]);
                }
            }
            i = i + 1;
        }
    }

    /// Reads the byte the bus yields for `address`: the first owning
    /// device's byte, or 0 when no device owns the address. Never fails.
    pub fn read(&self, address: u16) -> (r: u8)
        ensures
            r == bus_read(self@, address),
    {
        let ghost devs = self@;
        let n = self.devices.len();
        let mut i: usize = 0;
        while i < n
            invariant
                n == self.devices@.len(),
                devs == self@,
                i <= n,
                forall|j: int| 0 <= j < i ==> !dev_contains(devs[j], address),
            decreases n - i,
        {
            let d = &self.devices[i];
            if d.start_address <= address && address <= d.end_address {
                proof {
                    lemma_first_match(devs, address);
                    assert(dev_contains(devs[i as int], address));
                    assert(first_match(devs, address) == i);
                }
                return d.read(address);
            }
            i = i + 1;
        }
        proof {
            lemma_first_match(devs, address);
        }
        0
    }

    /// Writes `value` to `address` on the first owning device; a write to an
    /// unmapped address is dropped. Never fails.
    pub fn write(&mut self, address: u16, value: u8)
        ensures
            final(self)@ == bus_write(old(self)@, address, value),
    {
        let ghost devs = old(self)@;
        let n = self.devices.len();
        let mut i: usize = 0;
        while i < n
            invariant
                n == self.devices@.len(),
                devs == self@,
                devs == old(self)@,
                i <= n,
                forall|j: int| 0 <= j < i ==> !dev_contains(devs[j], address),
            decreases n - i,
        {
            let matches_here = self.devices[i].start_address <= address && address
                <= self.devices[i].end_address;
            if matches_here {
                proof {
                    lemma_first_match(devs, address);
                    assert(dev_contains(devs[i as int], address));
                    assert(first_match(devs, address) == i);
                }
                self.devices[i].write(address, value);
                assert(self@ =~= bus_write(devs, address, value));
                return ;
            }
            i = i + 1;
        }
        proof {
            lemma_first_match(devs, address);
        }
    }

    /// True iff `address` is owned by a device classified as memory.
    pub fn is_memory(&self, address: u16) -> (r: bool)
        ensures
            r == bus_is_memory(self@, address),
    {
        let ghost devs = self@;
        let n = self.devices.len();
        let mut i: usize = 0;
        while i < n
            invariant
                n == self.devices@.len(),
                devs == self@,
                i <= n,
                forall|j: int| 0 <= j < i ==> !dev_contains(devs[j], address),
            decreases n - i,
        {
            let d = &self.devices[i];
            if d.start_address <= address && address <= d.end_address {
                proof {
                    lemma_first_match(devs, address);
                    assert(dev_contains(devs[i as int], address));
                    assert(first_match(devs, address) == i);
                }
                return d.is_memory();
            }
            i = i + 1;
        }
        proof {
            lemma_first_match(devs, address);
        }
        false
    }

    /// True iff `address` is owned by a device classified as I/O.
    pub fn is_io(&self, address: u16) -> (r: bool)
        ensures
            r == bus_is_io(self@, address),
    {
        let ghost devs = self@;
        let n = self.devices.len();
        let mut i: usize = 0;
        while i < n
            invariant
                n == self.devices@.len(),
                devs == self@,
                i <= n,
                forall|j: int| 0 <= j < i ==> !dev_contains(devs[j], address),
            decreases n - i,
        {
            let d = &self.devices[i];
            if d.start_address <= address && address <= d.end_address {
                proof {
                    lemma_first_match(devs, address);
                    assert(dev_contains(devs[i as int], address));
                    assert(first_match(devs, address) == i);
                }
                return !d.is_memory();
            }
            i = i + 1;
        }
        proof {
            lemma_first_match(devs, address);
        }
        false
    }
}

} // verus!
