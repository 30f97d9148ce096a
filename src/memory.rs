use vstd::prelude::*;
use crate::error::EmuError;

verus! {

/// Whether a region accepts stores.
#[derive(Debug, Clone, Copy, PartialEq, Eq, Structural)]
pub enum Permission {
    ReadOnly,
    ReadWrite,
}

/// Mathematical model of a memory region.
pub struct RegionView {
    pub base: int,
    pub bytes: Seq<u8>,
    pub writable: bool,
}

impl RegionView {
    pub open spec fn contains(self, addr: int) -> bool {
        self.base <= addr < self.base + self.bytes.len()
    }

    pub open spec fn load(self, addr: int) -> Result<u8, EmuError> {
        if self.contains(addr) {
            Ok(self.bytes[addr - self.base])
        } else {
            Err(EmuError::UnmappedAddress)
        }
    }

    /// The outcome of a store: the out-of-range check comes before the
    /// permission check.
    pub open spec fn store_result(self, addr: int) -> Result<(), EmuError> {
        if !self.contains(addr) {
            Err(EmuError::UnmappedAddress)
        } else if !self.writable {
            Err(EmuError::PermissionDenied)
        } else {
            Ok(())
        }
    }

    /// The region after a store; unchanged where the store fails.
    pub open spec fn store(self, addr: int, value: u8) -> RegionView {
        if self.store_result(addr) is Ok {
            RegionView { bytes: self.bytes.update(addr - self.base, value), ..self }
        } else {
            self
        }
    }
}

/// A contiguous, permission-tagged byte array that starts at `base`.
pub struct Memory {
    base: usize,
    bytes: Vec<u8>,
    permission: Permission,
}

impl View for Memory {
    type V = RegionView;

    closed spec fn view(&self) -> RegionView {
        RegionView {
            base: self.base as int,
            bytes: self.bytes@,
            writable: self.permission == Permission::ReadWrite,
        }
    }
}

impl Memory {
    pub fn new(base: usize, bytes: Vec<u8>, permission: Permission) -> (m: Memory)
        ensures
            m@.base == base,
            m@.bytes == bytes@,
            m@.writable == (permission == Permission::ReadWrite),
    {
        Memory { base, bytes, permission }
    }

    pub fn base(&self) -> (r: usize)
        ensures
            r == self@.base,
    {
        self.base
    }

    pub fn len(&self) -> (r: usize)
        ensures
            r == self@.bytes.len(),
    {
        self.bytes.len()
    }

    pub fn permission(&self) -> (r: Permission)
        ensures
            (r == Permission::ReadWrite) == self@.writable,
    {
        self.permission
    }

    /// The stored bytes.
    pub fn bytes(&self) -> (r: &Vec<u8>)
        ensures
            r@ == self@.bytes,
    {
        &self.bytes
    }

    pub fn load(&self, addr: u16) -> (r: Result<u8, EmuError>)
        ensures
            r == self@.load(addr as int),
    {
        let a = addr as usize;
        if a >= self.base && a - self.base < self.bytes.len() {
            Ok(self.bytes[a - self.base])
        } else {
            Err(EmuError::UnmappedAddress)
        }
    }

    pub fn store(&mut self, addr: u16, value: u8) -> (r: Result<(), EmuError>)
        ensures
            r == old(self)@.store_result(addr as int),
            final(self)@ == old(self)@.store(addr as int, value),
    {
        let a = addr as usize;
        if a >= self.base && a - self.base < self.bytes.len() {
            match self.permission {
                Permission::ReadOnly => Err(EmuError::PermissionDenied),
                Permission::ReadWrite => {
                    let i = a - self.base;
                    self.bytes.set(i, value);
                    Ok(())
                },
            }
        } else {
            Err(EmuError::UnmappedAddress)
        }
    }
}

/// A store never changes a read-only region, and inside the region it fails
/// with `PermissionDenied`; outside the region every load and store fails
/// with `UnmappedAddress` and changes nothing, whatever the permission.
pub proof fn lemma_region_guard(m: RegionView, addr: int, value: u8)
    ensures
        !m.writable ==> m.store(addr, value) == m,
        !m.writable && m.contains(addr) ==> m.store_result(addr) == Err::<(), EmuError>(
            EmuError::PermissionDenied,
        ),
        !m.contains(addr) ==> m.load(addr) == Err::<u8, EmuError>(EmuError::UnmappedAddress),
        !m.contains(addr) ==> m.store_result(addr) == Err::<(), EmuError>(
            EmuError::UnmappedAddress,
        ),
        !m.contains(addr) ==> m.store(addr, value) == m,
{
}

} // verus!
