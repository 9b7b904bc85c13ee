//! The address range of an arena and the slots it is cut into.
//!
//! A handle is an address. The range of an arena is fixed when the arena is
//! made, so whether an address belongs to an arena is a comparison of
//! integers, and an address is never dereferenced to find out.

use vstd::prelude::*;
use vstd::arithmetic::div_mod::*;
use vstd::arithmetic::mul::*;

verus! {

/// `slots` slots of `stride` addresses each, the first of them at `base`.
#[derive(Debug, Clone, Copy, PartialEq, Eq, Structural)]
pub struct AddressRange {
    pub base: usize,
    pub stride: usize,
    pub slots: usize,
}

impl AddressRange {
    /// A slot is not empty and the range ends within the address space.
    pub open spec fn wf(self) -> bool {
        self.stride > 0 && self.base + self.slots * self.stride <= usize::MAX
    }

    /// The first address behind the range.
    pub open spec fn end(self) -> int {
        self.base + self.slots * self.stride
    }

    /// `addr` lies in the range.
    pub open spec fn spec_contains(self, addr: usize) -> bool {
        self.base <= addr < self.end()
    }

    /// The address of slot `index`.
    pub open spec fn spec_address_of(self, index: int) -> int {
        self.base + index * self.stride
    }

    /// The slot that `addr` is the address of: an address inside the range
    /// that is no first address of a slot names none.
    pub open spec fn spec_index_of(self, addr: usize) -> Option<int> {
        if self.spec_contains(addr) && (addr - self.base) % (self.stride as int) == 0 {
            Some((addr - self.base) / (self.stride as int))
        } else {
            None
        }
    }

    /// No address lies in both ranges.
    pub open spec fn disjoint(self, other: AddressRange) -> bool {
        self.end() <= other.base || other.end() <= self.base
    }

    /// The range of `slots` slots of `stride` addresses from `base`, unless a
    /// slot would be empty or the range would leave the address space.
    pub fn new(base: usize, stride: usize, slots: usize) -> (r: Option<AddressRange>)
        ensures
            r is Some <==> stride > 0 && base + slots * stride <= usize::MAX,
            r is Some ==> r.unwrap() == (AddressRange { base, stride, slots }),
    {
        if stride == 0 {
            return None;
        }
        match slots.checked_mul(stride) {
            None => None,
            Some(len) => match base.checked_add(len) {
                None => None,
                Some(_) => Some(AddressRange { base, stride, slots }),
            },
        }
    }

    /// The first address behind the range.
    pub fn limit(&self) -> (e: usize)
        requires
            self.wf(),
        ensures
            e == self.end(),
    {
        self.base + self.slots * self.stride
    }

    /// Whether `addr` lies in the range.
    pub fn contains(&self, addr: usize) -> (b: bool)
        requires
            self.wf(),
        ensures
            b == self.spec_contains(addr),
    {
        self.base <= addr && addr < self.limit()
    }

    /// The address of slot `index`.
    pub fn address_of(&self, index: usize) -> (addr: usize)
        requires
            self.wf(),
            index < self.slots,
        ensures
            addr == self.spec_address_of(index as int),
            self.spec_index_of(addr) == Some(index as int),
    {
        proof {
            self.lemma_address_in_range(index as int);
        }
        self.base + index * self.stride
    }

    /// The slot that `addr` is the address of, if it is one of this range.
    pub fn index_of(&self, addr: usize) -> (r: Option<usize>)
        requires
            self.wf(),
        ensures
            r is Some <==> self.spec_index_of(addr) is Some,
            r is Some ==> r.unwrap() == self.spec_index_of(addr).unwrap() && r.unwrap()
                < self.slots && self.spec_address_of(r.unwrap() as int) == addr,
    {
        if !self.contains(addr) {
            return None;
        }
        let offset = addr - self.base;
        if offset % self.stride != 0 {
            return None;
        }
        proof {
            self.lemma_index_in_range(addr);
        }
        Some(offset / self.stride)
    }

    /// The address of a slot lies in the range, and names that slot.
    pub proof fn lemma_address_in_range(self, index: int)
        requires
            self.wf(),
            0 <= index < self.slots,
        ensures
            self.base <= self.spec_address_of(index) < self.end(),
            self.spec_address_of(index) + self.stride <= self.end(),
            self.spec_index_of(self.spec_address_of(index) as usize) == Some(index),
    {
        let stride = self.stride as int;
        lemma_mul_inequality(index + 1, self.slots as int, stride);
        lemma_mul_is_distributive_add_other_way(stride, index, 1);
        lemma_mul_nonnegative(index, stride);
        lemma_mod_multiples_basic(index, stride);
        lemma_div_by_multiple(index, stride);
    }

    /// An address that names a slot names one of the range, and is the
    /// address of that slot.
    pub proof fn lemma_index_in_range(self, addr: usize)
        requires
            self.wf(),
            self.spec_index_of(addr) is Some,
        ensures
            0 <= self.spec_index_of(addr).unwrap() < self.slots,
            self.spec_address_of(self.spec_index_of(addr).unwrap()) == addr,
    {
        let stride = self.stride as int;
        let offset = addr - self.base;
        let index = offset / stride;
        lemma_fundamental_div_mod(offset, stride);
        lemma_mul_is_commutative(stride, index);
        lemma_div_pos_is_pos(offset, stride);
        if index >= self.slots {
            lemma_mul_inequality(self.slots as int, index, stride);
        }
    }

    /// Two slots of one range have two addresses.
    pub proof fn lemma_addresses_differ(self, i: int, j: int)
        requires
            self.wf(),
            0 <= i < self.slots,
            0 <= j < self.slots,
            i != j,
        ensures
            self.spec_address_of(i) != self.spec_address_of(j),
    {
        self.lemma_address_in_range(i);
        self.lemma_address_in_range(j);
    }

    /// An address of one range names no slot of a range that is disjoint
    /// from it.
    pub proof fn lemma_disjoint_ranges_share_no_address(
        self,
        other: AddressRange,
        addr: usize,
    )
        requires
            self.disjoint(other),
            self.spec_contains(addr),
        ensures
            !other.spec_contains(addr),
            other.spec_index_of(addr) is None,
    {
    }
}

} // verus!
