use vstd::prelude::*;
use crate::cartridge::{cartridge_factory, cartridge_result, CartView, Cartridge, SWITCHABLE_ROM_END};
use crate::error::EmuError;
use crate::memory::{Memory, Permission, RegionView};

verus! {

/// Start of the work memory that follows the cartridge's window.
pub const RAM_START: usize = 0x8000;
/// Size of the work memory: the rest of the address space.
pub const RAM_SIZE: usize = 0x8000;

/// Model of an addressable device.
pub enum DeviceView {
    Region(RegionView),
    Cart(CartView),
}

impl DeviceView {
    pub open spec fn wf(self) -> bool {
        match self {
            DeviceView::Region(_) => true,
            DeviceView::Cart(c) => c.wf(),
        }
    }

    /// The address window that the device claims on the bus.
    pub open spec fn claims(self, addr: int) -> bool {
        match self {
            DeviceView::Region(r) => r.contains(addr),
            DeviceView::Cart(_) => 0 <= addr <= SWITCHABLE_ROM_END,
        }
    }

    pub open spec fn load(self, addr: int) -> Result<u8, EmuError> {
        match self {
            DeviceView::Region(r) => r.load(addr),
            DeviceView::Cart(c) => c.load(addr),
        }
    }

    pub open spec fn store_result(self, addr: int, value: u8) -> Result<(), EmuError> {
        match self {
            DeviceView::Region(r) => r.store_result(addr),
            DeviceView::Cart(c) => c.store_result(addr, value),
        }
    }

    pub open spec fn store(self, addr: int, value: u8) -> DeviceView {
        match self {
            DeviceView::Region(r) => DeviceView::Region(r.store(addr, value)),
            DeviceView::Cart(c) => DeviceView::Cart(c.store(addr, value)),
        }
    }
}

/// The first device at index `i` or later that claims `addr`.
pub open spec fn route_from(devs: Seq<DeviceView>, addr: int, i: int) -> Option<int>
    decreases devs.len() - i,
{
    if i < 0 || i >= devs.len() {
        None
    } else if devs[i].claims(addr) {
        Some(i)
    } else {
        route_from(devs, addr, i + 1)
    }
}

/// The device that an access to `addr` goes to: the first that claims it.
pub open spec fn route(devs: Seq<DeviceView>, addr: int) -> Option<int> {
    route_from(devs, addr, 0)
}

pub open spec fn bus_wf(devs: Seq<DeviceView>) -> bool {
    forall|i: int| 0 <= i < devs.len() ==> #[trigger] devs[i].wf()
}

pub open spec fn bus_load(devs: Seq<DeviceView>, addr: int) -> Result<u8, EmuError> {
    match route(devs, addr) {
        Some(i) => devs[i].load(addr),
        None => Err(EmuError::UnmappedAddress),
    }
}

pub open spec fn bus_store_result(devs: Seq<DeviceView>, addr: int, value: u8) -> Result<(), EmuError> {
    match route(devs, addr) {
        Some(i) => devs[i].store_result(addr, value),
        None => Err(EmuError::UnmappedAddress),
    }
}

pub open spec fn bus_store(devs: Seq<DeviceView>, addr: int, value: u8) -> Seq<DeviceView> {
    match route(devs, addr) {
        Some(i) => devs.update(i, devs[i].store(addr, value)),
        None => devs,
    }
}

/// The address after `addr`, wrapping at the top of the address space.
pub open spec fn next_addr(addr: u16) -> u16 {
    ((addr as int + 1) % 0x10000) as u16
}

/// A 16-bit little-endian load: the low byte at `addr`, the high byte after it.
pub open spec fn bus_load16(devs: Seq<DeviceView>, addr: u16) -> Result<u16, EmuError> {
    match bus_load(devs, addr as int) {
        Err(e) => Err(e),
        Ok(lo) => match bus_load(devs, next_addr(addr) as int) {
            Err(e) => Err(e),
            Ok(hi) => Ok((hi as int * 256 + lo as int) as u16),
        },
    }
}

/// Whether a 16-bit store succeeds: both halves must.
pub open spec fn bus_store16_result(devs: Seq<DeviceView>, addr: u16, value: u16) -> Result<(), EmuError> {
    match bus_store_result(devs, addr as int, (value % 256) as u8) {
        Err(e) => Err(e),
        Ok(_) => bus_store_result(devs, next_addr(addr) as int, (value / 256) as u8),
    }
}

/// The devices after a 16-bit store; unchanged where it fails.
pub open spec fn bus_store16(devs: Seq<DeviceView>, addr: u16, value: u16) -> Seq<DeviceView> {
    if bus_store16_result(devs, addr, value) is Ok {
        bus_store(
            bus_store(devs, addr as int, (value % 256) as u8),
            next_addr(addr) as int,
            (value / 256) as u8,
        )
    } else {
        devs
    }
}

/// Anything addressable on the bus.
pub enum Device {
    Region(Memory),
    Cartridge(Cartridge),
}

impl View for Device {
    type V = DeviceView;

    open spec fn view(&self) -> DeviceView {
        match self {
            Device::Region(m) => DeviceView::Region(m@),
            Device::Cartridge(c) => DeviceView::Cart(c@),
        }
    }
}

impl Device {
    pub fn claims(&self, addr: u16) -> (r: bool)
        ensures
            r == self@.claims(addr as int),
    {
        match self {
            Device::Region(m) => {
                let a = addr as usize;
                a >= m.base() && a - m.base() < m.len()
            },
            Device::Cartridge(_) => addr <= SWITCHABLE_ROM_END,
        }
    }

    pub fn load(&self, addr: u16) -> (r: Result<u8, EmuError>)
        requires
            self@.wf(),
        ensures
            r == self@.load(addr as int),
    {
        match self {
            Device::Region(m) => m.load(addr),
            Device::Cartridge(c) => c.load(addr),
        }
    }

    /// Whether a store would succeed, without making it.
    pub fn store_check(&self, addr: u16, value: u8) -> (r: Result<(), EmuError>)
        requires
            self@.wf(),
        ensures
            r == self@.store_result(addr as int, value),
    {
        match self {
            Device::Region(m) => {
                let a = addr as usize;
                if a >= m.base() && a - m.base() < m.len() {
                    match m.permission() {
                        Permission::ReadOnly => Err(EmuError::PermissionDenied),
                        Permission::ReadWrite => Ok(()),
                    }
                } else {
                    Err(EmuError::UnmappedAddress)
                }
            },
            Device::Cartridge(c) => c.store_check(addr, value),
        }
    }

    pub fn store(&mut self, addr: u16, value: u8) -> (r: Result<(), EmuError>)
        requires
            old(self)@.wf(),
        ensures
            r == old(self)@.store_result(addr as int, value),
            final(self)@ == old(self)@.store(addr as int, value),
    {
        match self {
            Device::Region(m) => m.store(addr, value),
            Device::Cartridge(c) => c.store(addr, value),
        }
    }
}

/// Routes each access to the first device whose window holds the address.
pub struct Bus {
    devices: Vec<Device>,
}

impl View for Bus {
    type V = Seq<DeviceView>;

    closed spec fn view(&self) -> Seq<DeviceView> {
        self.devices@.map_values(|d: Device| d@)
    }
}

/// The devices of a bus made from an image: the cartridge, then work memory.
pub open spec fn bus_of(cart: CartView) -> Seq<DeviceView> {
    seq![
        DeviceView::Cart(cart),
        DeviceView::Region(
            RegionView {
                base: RAM_START as int,
                bytes: Seq::new(RAM_SIZE as nat, |i: int| 0u8),
                writable: true,
            },
        ),
    ]
}

impl Bus {
    /// A bus with the image's cartridge at address 0 and zeroed work memory
    /// over the rest of the address space.
    pub fn new(binary: Vec<u8>) -> (r: Result<Bus, EmuError>)
        ensures
            match r {
                Ok(b) => cartridge_result(0, binary@) matches Ok(c) && b@ == bus_of(c) && bus_wf(b@),
                Err(e) => cartridge_result(0, binary@) == Err::<CartView, EmuError>(e),
            },
    {
        let cart = match cartridge_factory(0, binary) {
            Ok(c) => c,
            Err(e) => return Err(e),
        };
        let ram = Memory::new(RAM_START, vec![0u8; RAM_SIZE], Permission::ReadWrite);
        assert(ram@.bytes =~= Seq::new(RAM_SIZE as nat, |i: int| 0u8));
        let mut devices: Vec<Device> = Vec::new();
        devices.push(Device::Cartridge(cart));
        devices.push(Device::Region(ram));
        let b = Bus { devices };
        assert(b@ =~= bus_of(cart@));
        Ok(b)
    }

    /// The index of the device that an access to `addr` goes to.
    fn find(&self, addr: u16) -> (r: Option<usize>)
        ensures
            match r {
                Some(i) => route(self@, addr as int) == Some(i as int) && i < self.devices@.len(),
                None => route(self@, addr as int) is None,
            },
    {
        let mut i: usize = 0;
        while i < self.devices.len()
            invariant
                i <= self.devices@.len(),
                route(self@, addr as int) == route_from(self@, addr as int, i as int),
            decreases self.devices@.len() - i,
        {
            if self.devices[i].claims(addr) {
                return Some(i);
            }
            i = i + 1;
        }
        None
    }

    pub fn load8(&self, addr: u16) -> (r: Result<u8, EmuError>)
        requires
            bus_wf(self@),
        ensures
            r == bus_load(self@, addr as int),
    {
        match self.find(addr) {
            Some(i) => {
                assert(self@[i as int] == self.devices@[i as int]@);
                self.devices[i].load(addr)
            },
            None => Err(EmuError::UnmappedAddress),
        }
    }

    fn store_check(&self, addr: u16, value: u8) -> (r: Result<(), EmuError>)
        requires
            bus_wf(self@),
        ensures
            r == bus_store_result(self@, addr as int, value),
    {
        match self.find(addr) {
            Some(i) => {
                assert(self@[i as int] == self.devices@[i as int]@);
                self.devices[i].store_check(addr, value)
            },
            None => Err(EmuError::UnmappedAddress),
        }
    }

    pub fn store8(&mut self, addr: u16, value: u8) -> (r: Result<(), EmuError>)
        requires
            bus_wf(old(self)@),
        ensures
            r == bus_store_result(old(self)@, addr as int, value),
            final(self)@ == bus_store(old(self)@, addr as int, value),
            r is Err ==> final(self)@ == old(self)@,
            bus_wf(final(self)@),
    {
        match self.find(addr) {
            Some(i) => {
                assert(self@[i as int] == self.devices@[i as int]@);
                let r = self.devices[i].store(addr, value);
                assert(self@ =~= bus_store(old(self)@, addr as int, value));
                if r.is_err() {
                    assert(self@ =~= old(self)@);
                }
                r
            },
            None => Err(EmuError::UnmappedAddress),
        }
    }

    pub fn load16(&self, addr: u16) -> (r: Result<u16, EmuError>)
        requires
            bus_wf(self@),
        ensures
            r == bus_load16(self@, addr),
    {
        let lo = match self.load8(addr) {
            Ok(v) => v,
            Err(e) => return Err(e),
        };
        let hi = match self.load8(addr.wrapping_add(1)) {
            Ok(v) => v,
            Err(e) => return Err(e),
        };
        Ok(hi as u16 * 256 + lo as u16)
    }

    /// A 16-bit little-endian store that changes nothing unless both halves
    /// can be stored.
    pub fn store16(&mut self, addr: u16, value: u16) -> (r: Result<(), EmuError>)
        requires
            bus_wf(old(self)@),
        ensures
            r == bus_store16_result(old(self)@, addr, value),
            final(self)@ == bus_store16(old(self)@, addr, value),
            bus_wf(final(self)@),
    {
        let lo = (value % 256) as u8;
        let hi = (value / 256) as u8;
        let next = addr.wrapping_add(1);
        match self.store_check(addr, lo) {
            Ok(_) => {},
            Err(e) => return Err(e),
        }
        match self.store_check(next, hi) {
            Ok(_) => {},
            Err(e) => return Err(e),
        }
        let _ = self.store8(addr, lo);
        let _ = self.store8(next, hi);
        Ok(())
    }
}

/// A store leaves every device's window as it was, so routing is unchanged.
pub proof fn lemma_store_keeps_route(devs: Seq<DeviceView>, a: int, v: u8, x: int, i: int)
    ensures
        route_from(bus_store(devs, a, v), x, i) == route_from(devs, x, i),
    decreases devs.len() - i,
{
    let d2 = bus_store(devs, a, v);
    lemma_route_in_range(devs, a, 0);
    if 0 <= i < devs.len() {
        if let Some(k) = route(devs, a) {
            if k == i {
                assert(d2[i].claims(x) == devs[i].claims(x));
            }
        }
        lemma_store_keeps_route(devs, a, v, x, i + 1);
    }
}

/// The index that `route_from` finds lies in range.
pub proof fn lemma_route_in_range(devs: Seq<DeviceView>, x: int, i: int)
    ensures
        route_from(devs, x, i) matches Some(k) ==> 0 <= i <= k < devs.len(),
    decreases devs.len() - i,
{
    if 0 <= i < devs.len() && !devs[i].claims(x) {
        lemma_route_in_range(devs, x, i + 1);
    }
}

/// Whether the device that an address is routed to is plain memory.
pub open spec fn in_region(devs: Seq<DeviceView>, addr: int) -> bool {
    route(devs, addr) matches Some(i) && devs[i] is Region
}

/// Read after write: once a store into memory succeeds, a load from that
/// address gives the stored byte, a load from any other address is
/// unchanged, and so is whether a later store succeeds.
pub proof fn lemma_store_then_load(devs: Seq<DeviceView>, a: int, v: u8, x: int, w: u8)
    requires
        bus_store_result(devs, a, v) is Ok,
        in_region(devs, a),
    ensures
        bus_load(bus_store(devs, a, v), x) == if x == a {
            Ok::<u8, EmuError>(v)
        } else {
            bus_load(devs, x)
        },
        in_region(bus_store(devs, a, v), x) == in_region(devs, x),
        bus_store_result(bus_store(devs, a, v), x, w) == bus_store_result(devs, x, w),
{
    lemma_store_keeps_route(devs, a, v, x, 0);
    lemma_route_in_range(devs, a, 0);
    lemma_route_in_range(devs, x, 0);
}

} // verus!
