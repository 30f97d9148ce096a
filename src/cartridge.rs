use vstd::prelude::*;
use vstd::slice::{slice_subrange, slice_to_vec};
use crate::error::EmuError;
use crate::memory::{Memory, Permission, RegionView};

verus! {

pub const ROM_START: u16 = 0x0000;
pub const ROM_END: u16 = 0x3fff;
pub const SWITCHABLE_ROM_START: u16 = 0x4000;
pub const SWITCHABLE_ROM_END: u16 = 0x7fff;
pub const BANK_SELECT_START: u16 = 0x2000;
pub const BANK_SELECT_END: u16 = 0x3fff;
pub const CARTRIDGE_TYPE_ADDR: usize = 0x147;
pub const ROM_SIZE_ADDR: usize = 0x148;
pub const RAM_SIZE_ADDR: usize = 0x149;
pub const KBYTE: usize = 1024;
pub const BANK_SIZE: usize = 0x4000;

/// Number of 16 KiB banks that a ROM-size code declares; 0 for a code that
/// this core does not know.
pub open spec fn rom_banks(code: u8) -> int {
    if code <= 6 {
        vstd::arithmetic::power2::pow2((code + 1) as nat) as int
    } else {
        0
    }
}

/// Bytes of cartridge RAM that a RAM-size code declares; 0 for an unknown code.
pub open spec fn ram_bytes(code: u8) -> int {
    if code == 1 {
        2048
    } else if code == 2 {
        8192
    } else if code == 3 {
        32768
    } else if code == 4 {
        131072
    } else {
        0
    }
}

/// The bank index that a value written to the control port selects: value 0
/// selects the same bank as value 1.
pub open spec fn bank_index(value: u8) -> int {
    if value == 0 {
        0
    } else {
        value - 1
    }
}

pub open spec fn rom_region(base: int, bytes: Seq<u8>) -> RegionView {
    RegionView { base, bytes, writable: false }
}

/// Bank `k` of an image.
pub open spec fn image_bank(img: Seq<u8>, k: int) -> Seq<u8> {
    img.subrange(k * BANK_SIZE, (k + 1) * BANK_SIZE)
}

/// Model of a banked cartridge: the fixed bank, the switchable banks (image
/// banks 1, 2, ...), and the index of the one mapped at 0x4000.
pub struct BankedView {
    pub rom: RegionView,
    pub banks: Seq<RegionView>,
    pub mapped: int,
}

impl BankedView {
    pub open spec fn wf(self) -> bool {
        0 <= self.mapped < self.banks.len()
    }

    pub open spec fn load(self, addr: int) -> Result<u8, EmuError> {
        if ROM_START <= addr <= ROM_END {
            self.rom.load(addr)
        } else if SWITCHABLE_ROM_START <= addr <= SWITCHABLE_ROM_END {
            self.banks[self.mapped].load(addr)
        } else {
            Err(EmuError::UnmappedAddress)
        }
    }

    /// Only the control port takes stores; elsewhere in the cartridge's
    /// window the content is read-only, and a selection past the last bank
    /// maps nothing.
    pub open spec fn store_result(self, addr: int, value: u8) -> Result<(), EmuError> {
        if BANK_SELECT_START <= addr <= BANK_SELECT_END {
            if bank_index(value) < self.banks.len() {
                Ok(())
            } else {
                Err(EmuError::UnmappedAddress)
            }
        } else if ROM_START <= addr <= SWITCHABLE_ROM_END {
            Err(EmuError::PermissionDenied)
        } else {
            Err(EmuError::UnmappedAddress)
        }
    }

    pub open spec fn store(self, addr: int, value: u8) -> BankedView {
        if self.store_result(addr, value) is Ok {
            BankedView { mapped: bank_index(value), ..self }
        } else {
            self
        }
    }
}

/// Model of a cartridge.
pub enum CartView {
    Fixed(RegionView),
    Banked(BankedView),
}

impl CartView {
    pub open spec fn wf(self) -> bool {
        match self {
            CartView::Fixed(_) => true,
            CartView::Banked(b) => b.wf(),
        }
    }

    pub open spec fn load(self, addr: int) -> Result<u8, EmuError> {
        match self {
            CartView::Fixed(r) => r.load(addr),
            CartView::Banked(b) => b.load(addr),
        }
    }

    pub open spec fn store_result(self, addr: int, value: u8) -> Result<(), EmuError> {
        match self {
            CartView::Fixed(r) => r.store_result(addr),
            CartView::Banked(b) => b.store_result(addr, value),
        }
    }

    pub open spec fn store(self, addr: int, value: u8) -> CartView {
        match self {
            CartView::Fixed(r) => CartView::Fixed(r.store(addr, value)),
            CartView::Banked(b) => CartView::Banked(b.store(addr, value)),
        }
    }
}

/// The banked cartridge that an image of `n` banks becomes.
pub open spec fn banked_of(base: int, img: Seq<u8>, n: int) -> BankedView {
    BankedView {
        rom: rom_region(base, image_bank(img, 0)),
        banks: Seq::new((n - 1) as nat, |k: int| rom_region(base + BANK_SIZE, image_bank(img, k + 1))),
        mapped: 0,
    }
}

/// What a banked cartridge is made of an image: the bank count that the
/// header declares must be at least two and match the image length.
pub open spec fn banked_result(base: int, img: Seq<u8>) -> Result<BankedView, EmuError> {
    let n = rom_banks(img[ROM_SIZE_ADDR as int]);
    if img.len() <= RAM_SIZE_ADDR || n < 2 || img.len() != n * BANK_SIZE {
        Err(EmuError::InvalidImage)
    } else {
        Ok(banked_of(base, img, n))
    }
}

/// What a cartridge is made of an image, by the type code of its header.
pub open spec fn cartridge_result(base: int, img: Seq<u8>) -> Result<CartView, EmuError> {
    if img.len() <= CARTRIDGE_TYPE_ADDR {
        Err(EmuError::InvalidImage)
    } else if img[CARTRIDGE_TYPE_ADDR as int] == 0 {
        Ok(CartView::Fixed(rom_region(base, img)))
    } else if img[CARTRIDGE_TYPE_ADDR as int] == 1 {
        match banked_result(base, img) {
            Ok(b) => Ok(CartView::Banked(b)),
            Err(e) => Err(e),
        }
    } else {
        Err(EmuError::UnsupportedCartridgeType)
    }
}

/// A cartridge with a single fixed ROM.
pub struct Type0 {
    rom: Memory,
}

impl View for Type0 {
    type V = RegionView;

    closed spec fn view(&self) -> RegionView {
        self.rom@
    }
}

impl Type0 {
    pub fn new(base: usize, binary: Vec<u8>) -> (c: Type0)
        ensures
            c@ == rom_region(base as int, binary@),
    {
        Type0 { rom: Memory::new(base, binary, Permission::ReadOnly) }
    }

    pub fn load(&self, addr: u16) -> (r: Result<u8, EmuError>)
        ensures
            r == self@.load(addr as int),
    {
        self.rom.load(addr)
    }

    fn store_check(&self, addr: u16) -> (r: Result<(), EmuError>)
        ensures
            r == self@.store_result(addr as int),
    {
        let a = addr as usize;
        if a >= self.rom.base() && a - self.rom.base() < self.rom.len() {
            match self.rom.permission() {
                Permission::ReadOnly => Err(EmuError::PermissionDenied),
                Permission::ReadWrite => Ok(()),
            }
        } else {
            Err(EmuError::UnmappedAddress)
        }
    }

    pub fn store(&mut self, addr: u16, value: u8) -> (r: Result<(), EmuError>)
        ensures
            r == old(self)@.store_result(addr as int),
            final(self)@ == old(self)@.store(addr as int, value),
    {
        self.rom.store(addr, value)
    }
}

/// A cartridge with a fixed bank, switchable banks and a bank-select
/// control port.
pub struct Type1 {
    rom: Memory,
    banks: Vec<Memory>,
    mapped: usize,
}

impl View for Type1 {
    type V = BankedView;

    closed spec fn view(&self) -> BankedView {
        BankedView {
            rom: self.rom@,
            banks: self.banks@.map_values(|m: Memory| m@),
            mapped: self.mapped as int,
        }
    }
}

/// The switchable banks of the first `bank_num` banks of an image: image
/// banks 1 and up, each mapped at `base` plus one bank.
fn new_rom_banks(base: usize, bank_num: usize, binary: &Vec<u8>) -> (banks: Vec<Memory>)
    requires
        1 <= bank_num,
        binary@.len() >= bank_num * BANK_SIZE,
        base + BANK_SIZE <= usize::MAX,
    ensures
        banks@.map_values(|m: Memory| m@) =~= Seq::new(
            (bank_num - 1) as nat,
            |k: int| rom_region(base + BANK_SIZE, image_bank(binary@, k + 1)),
        ),
{
    let mut banks: Vec<Memory> = Vec::new();
    let bank_base = base + BANK_SIZE;
    let total = binary.len();
    let mut i: usize = 1;
    while i < bank_num
        invariant
            1 <= i <= bank_num,
            total == binary@.len(),
            binary@.len() >= bank_num * BANK_SIZE,
            bank_base == base + BANK_SIZE,
            banks@.len() == i - 1,
            forall|k: int|
                0 <= k < i - 1 ==> #[trigger] banks@[k]@ == rom_region(
                    bank_base as int,
                    image_bank(binary@, k + 1),
                ),
        decreases bank_num - i,
    {
        proof {
            assert((i + 1) * BANK_SIZE <= bank_num * BANK_SIZE) by (nonlinear_arith)
                requires
                    i + 1 <= bank_num,
            ;
        }
        let start = i * BANK_SIZE;
        let end = start + BANK_SIZE;
        let bytes = slice_to_vec(slice_subrange(binary.as_slice(), start, end));
        banks.push(Memory::new(bank_base, bytes, Permission::ReadOnly));
        i = i + 1;
    }
    banks
}

impl Type1 {
    /// Builds the cartridge from an image whose header declares its bank
    /// count; the image must hold exactly that many banks.
    pub fn new(base: usize, binary: Vec<u8>) -> (r: Result<Type1, EmuError>)
        requires
            base + BANK_SIZE <= usize::MAX,
        ensures
            match r {
                Ok(c) => banked_result(base as int, binary@) == Ok::<BankedView, EmuError>(c@),
                Err(e) => banked_result(base as int, binary@) == Err::<BankedView, EmuError>(e),
            },
    {
        if binary.len() <= RAM_SIZE_ADDR {
            return Err(EmuError::InvalidImage);
        }
        let bank_num = identify_rom_size(binary[ROM_SIZE_ADDR]);
        if bank_num < 2 || binary.len() / BANK_SIZE != bank_num || binary.len() % BANK_SIZE != 0 {
            return Err(EmuError::InvalidImage);
        }
        let fixed = slice_to_vec(slice_subrange(binary.as_slice(), 0, BANK_SIZE));
        let rom = Memory::new(base, fixed, Permission::ReadOnly);
        let banks = new_rom_banks(base, bank_num, &binary);
        let c = Type1 { rom, banks, mapped: 0 };
        assert(c@ =~= banked_of(base as int, binary@, bank_num as int));
        Ok(c)
    }

    /// Maps bank `idx` (counted from 1) into the switchable window.
    fn switch(&mut self, idx: usize)
        requires
            1 <= idx <= old(self).banks@.len(),
        ensures
            final(self)@ == (BankedView { mapped: idx - 1, ..old(self)@ }),
    {
        self.mapped = idx - 1;
    }

    pub fn load(&self, addr: u16) -> (r: Result<u8, EmuError>)
        requires
            self@.wf(),
        ensures
            r == self@.load(addr as int),
    {
        if addr <= ROM_END {
            self.rom.load(addr)
        } else if SWITCHABLE_ROM_START <= addr && addr <= SWITCHABLE_ROM_END {
            self.banks[self.mapped].load(addr)
        } else {
            Err(EmuError::UnmappedAddress)
        }
    }

    fn store_check(&self, addr: u16, value: u8) -> (r: Result<(), EmuError>)
        requires
            self@.wf(),
        ensures
            r == self@.store_result(addr as int, value),
    {
        if BANK_SELECT_START <= addr && addr <= BANK_SELECT_END {
            let idx: usize = if value == 0 {
                1
            } else {
                value as usize
            };
            if idx <= self.banks.len() {
                Ok(())
            } else {
                Err(EmuError::UnmappedAddress)
            }
        } else if addr <= SWITCHABLE_ROM_END {
            Err(EmuError::PermissionDenied)
        } else {
            Err(EmuError::UnmappedAddress)
        }
    }

    pub fn store(&mut self, addr: u16, value: u8) -> (r: Result<(), EmuError>)
        requires
            old(self)@.wf(),
        ensures
            r == old(self)@.store_result(addr as int, value),
            final(self)@ == old(self)@.store(addr as int, value),
    {
        if BANK_SELECT_START <= addr && addr <= BANK_SELECT_END {
            let idx: usize = if value == 0 {
                1
            } else {
                value as usize
            };
            if idx <= self.banks.len() {
                self.switch(idx);
                Ok(())
            } else {
                Err(EmuError::UnmappedAddress)
            }
        } else if addr <= SWITCHABLE_ROM_END {
            Err(EmuError::PermissionDenied)
        } else {
            Err(EmuError::UnmappedAddress)
        }
    }
}

/// A cartridge of one of the two supported controller types.
pub enum Cartridge {
    Type0(Type0),
    Type1(Type1),
}

impl View for Cartridge {
    type V = CartView;

    open spec fn view(&self) -> CartView {
        match self {
            Cartridge::Type0(c) => CartView::Fixed(c@),
            Cartridge::Type1(c) => CartView::Banked(c@),
        }
    }
}

impl Cartridge {
    pub fn load(&self, addr: u16) -> (r: Result<u8, EmuError>)
        requires
            self@.wf(),
        ensures
            r == self@.load(addr as int),
    {
        match self {
            Cartridge::Type0(c) => c.load(addr),
            Cartridge::Type1(c) => c.load(addr),
        }
    }

    /// Whether a store would succeed, without making it.
    pub fn store_check(&self, addr: u16, value: u8) -> (r: Result<(), EmuError>)
        requires
            self@.wf(),
        ensures
            r == self@.store_result(addr as int, value),
    {
        match self {
            Cartridge::Type0(c) => c.store_check(addr),
            Cartridge::Type1(c) => c.store_check(addr, value),
        }
    }

    pub fn store(&mut self, addr: u16, value: u8) -> (r: Result<(), EmuError>)
        requires
            old(self)@.wf(),
        ensures
            r == old(self)@.store_result(addr as int, value),
            final(self)@ == old(self)@.store(addr as int, value),
    {
        match self {
            Cartridge::Type0(c) => c.store(addr, value),
            Cartridge::Type1(c) => c.store(addr, value),
        }
    }
}

/// Builds the cartridge that the image's type code names: 0 a fixed ROM,
/// 1 a banked ROM; any other code is refused.
pub fn cartridge_factory(base: usize, binary: Vec<u8>) -> (r: Result<Cartridge, EmuError>)
    requires
        base + BANK_SIZE <= usize::MAX,
    ensures
        match r {
            Ok(c) => cartridge_result(base as int, binary@) == Ok::<CartView, EmuError>(c@),
            Err(e) => cartridge_result(base as int, binary@) == Err::<CartView, EmuError>(e),
        },
{
    if binary.len() <= CARTRIDGE_TYPE_ADDR {
        return Err(EmuError::InvalidImage);
    }
    let code = binary[CARTRIDGE_TYPE_ADDR];
    if code == 0 {
        Ok(Cartridge::Type0(Type0::new(base, binary)))
    } else if code == 1 {
        match Type1::new(base, binary) {
            Ok(c) => Ok(Cartridge::Type1(c)),
            Err(e) => Err(e),
        }
    } else {
        Err(EmuError::UnsupportedCartridgeType)
    }
}

/// Number of 16 KiB banks that a ROM-size code declares; 0 for an unknown
/// code.
pub fn identify_rom_size(code: u8) -> (r: usize)
    ensures
        r == rom_banks(code),
{
    proof {
        vstd::arithmetic::power2::lemma2_to64();
    }
    match code {
        0 => 2,
        1 => 4,
        2 => 8,
        3 => 16,
        4 => 32,
        5 => 64,
        6 => 128,
        _ => 0,
    }
}

/// Bytes of cartridge RAM that a RAM-size code declares; informational only,
/// since no cartridge RAM is modelled.
pub fn identify_ram_size(code: u8) -> (r: usize)
    ensures
        r == ram_bytes(code),
{
    let kbytes: usize = match code {
        1 => 2,
        2 => 8,
        3 => 32,
        4 => 128,
        _ => 0,
    };
    kbytes * KBYTE
}

/// Bank switching on a cartridge made from `img`: at first image bank 1 is
/// mapped; after a write of `value` to the control port, image bank
/// `value` (bank 1 for value 0) is, when the image has it; the fixed bank
/// reads image bank 0 throughout.
pub proof fn lemma_bank_switch(img: Seq<u8>, addr: u16, value: u8, k: int)
    requires
        BANK_SELECT_START <= addr <= BANK_SELECT_END,
        0 <= k < BANK_SIZE,
        banked_result(0, img) is Ok,
    ensures
        match banked_result(0, img) {
            Ok(b) => {
                let b2 = b.store(addr as int, value);
                &&& b.load(SWITCHABLE_ROM_START + k) == Ok::<u8, EmuError>(img[BANK_SIZE + k])
                &&& bank_index(value) < b.banks.len() ==> b2.load(SWITCHABLE_ROM_START + k) == Ok::<
                    u8,
                    EmuError,
                >(img[(bank_index(value) + 1) * BANK_SIZE + k])
                &&& b2.load(k) == Ok::<u8, EmuError>(img[k])
            },
            Err(_) => false,
        },
{
    let n = rom_banks(img[ROM_SIZE_ADDR as int]);
    let b = banked_of(0, img, n);
    let j = bank_index(value);
    assert(b.banks[0].bytes[k] == img[BANK_SIZE + k]);
    if j < b.banks.len() {
        assert(b.banks[j].bytes[k] == img[(j + 1) * BANK_SIZE + k]);
    }
}

/// A type code other than 0 and 1 makes no cartridge.
pub proof fn lemma_unsupported_type(base: int, img: Seq<u8>)
    requires
        img.len() > CARTRIDGE_TYPE_ADDR,
        img[CARTRIDGE_TYPE_ADDR as int] > 1,
    ensures
        cartridge_result(base, img) == Err::<CartView, EmuError>(EmuError::UnsupportedCartridgeType),
{
}

/// A banked cartridge after a sequence of stores, applied in order.
pub open spec fn after_stores(b: BankedView, writes: Seq<(u16, u8)>) -> BankedView
    decreases writes.len(),
{
    if writes.len() == 0 {
        b
    } else {
        after_stores(b, writes.drop_last()).store(
            writes.last().0 as int,
            writes.last().1,
        )
    }
}

/// Stores, bank switches included, never touch the fixed bank: after any
/// sequence of them every load below 0x4000 gives what it gave before, and
/// the mapped bank stays valid.
pub proof fn lemma_fixed_bank_stable(b: BankedView, writes: Seq<(u16, u8)>, addr: int)
    requires
        b.wf(),
        ROM_START <= addr <= ROM_END,
    ensures
        after_stores(b, writes).load(addr) == b.load(addr),
        after_stores(b, writes).wf(),
    decreases writes.len(),
{
    if writes.len() > 0 {
        lemma_fixed_bank_stable(b, writes.drop_last(), addr);
    }
}

} // verus!
