//! The memory managers, and the page arithmetic that they share.

use vstd::arithmetic::power2::is_pow2;
use vstd::prelude::*;

pub mod bootstrap;
pub mod general_purpose_allocator;
pub mod physical_memory_manager;
pub mod region_collector;
pub mod region_laws;
pub mod region_list;
pub mod slab_allocator;
pub mod virtual_memory_manager;
pub mod zone_setup;
pub mod zones;

verus! {

/// Size of a page: 4 KiB.
pub const PAGE_SIZE: usize = 4096;

/// `PAGE_SIZE` as an address increment.
pub const PAGE_SIZE_U64: u64 = 4096;

/// The largest multiple of `align` that is not above `addr`.
pub open spec fn spec_align_down(addr: int, align: int) -> int {
    addr - addr % align
}

/// The smallest multiple of `align` that is not below `addr`.
pub open spec fn spec_align_up(addr: int, align: int) -> int {
    if addr % align == 0 {
        addr
    } else {
        addr - addr % align + align
    }
}

/// Whether `addr` is a multiple of the page size.
pub open spec fn spec_is_page_aligned(addr: int) -> bool {
    addr % 4096 == 0
}

/// `x86_64::align_down`: clears the bits of `addr` below `align`, a power of
/// two, which yields the largest multiple of `align` not above `addr`. The
/// outside function panics on any other `align`.
#[verifier::external_body]
pub(crate) fn align_down(addr: u64, align: u64) -> (aligned: u64)
    requires
        is_pow2(align as int),
    ensures
        aligned == spec_align_down(addr as int, align as int),
{
    x86_64::align_down(addr, align)
}

/// `x86_64::align_up`: the smallest multiple of `align`, a power of two, not
/// below `addr`. The outside function panics on any other `align` and when
/// that multiple does not fit in 64 bits.
#[verifier::external_body]
pub(crate) fn align_up(addr: u64, align: u64) -> (aligned: u64)
    requires
        is_pow2(align as int),
        spec_align_up(addr as int, align as int) <= u64::MAX,
    ensures
        aligned == spec_align_up(addr as int, align as int),
{
    x86_64::align_up(addr, align)
}

/// 4096 is a power of two.
pub proof fn lemma_page_size_is_pow2()
    ensures
        is_pow2(4096),
{
    reveal(is_pow2);
    assert(is_pow2(1));
    assert(is_pow2(2));
    assert(is_pow2(4));
    assert(is_pow2(8));
    assert(is_pow2(16));
    assert(is_pow2(32));
    assert(is_pow2(64));
    assert(is_pow2(128));
    assert(is_pow2(256));
    assert(is_pow2(512));
    assert(is_pow2(1024));
    assert(is_pow2(2048));
}

/// Rounds `addr` down to the start of its page.
pub fn page_align_down(addr: u64) -> (aligned: u64)
    ensures
        aligned == spec_align_down(addr as int, 4096),
        spec_is_page_aligned(aligned as int),
        aligned <= addr < aligned + 4096,
{
    proof {
        lemma_page_size_is_pow2();
    }
    align_down(addr, PAGE_SIZE_U64)
}

/// Rounds `addr` up to the next page start, or `None` when that start does
/// not fit in 64 bits.
pub fn page_align_up(addr: u64) -> (aligned: Option<u64>)
    ensures
        aligned is Some <==> spec_align_up(addr as int, 4096) <= u64::MAX,
        aligned matches Some(a) ==> a == spec_align_up(addr as int, 4096)
            && spec_is_page_aligned(a as int) && addr <= a < addr + 4096,
{
    proof {
        lemma_page_size_is_pow2();
    }
    if addr > 0xFFFF_FFFF_FFFF_F000 {
        None
    } else {
        Some(align_up(addr, PAGE_SIZE_U64))
    }
}

/// Whether `addr` lies on a page boundary.
pub fn is_page_aligned(addr: u64) -> (aligned: bool)
    ensures
        aligned == spec_is_page_aligned(addr as int),
{
    addr % PAGE_SIZE_U64 == 0
}

/// Whether `n` is a power of two.
pub fn is_power_of_two(n: usize) -> (yes: bool)
    ensures
        yes == is_pow2(n as int),
{
    if n == 0 {
        proof {
            reveal(is_pow2);
        }
        return false;
    }
    let mut m: usize = n;
    while m % 2 == 0
        invariant
            m > 0,
            is_pow2(m as int) == is_pow2(n as int),
        decreases m,
    {
        proof {
            reveal(is_pow2);
        }
        m = m / 2;
    }
    proof {
        reveal(is_pow2);
    }
    m == 1
}

} // verus!
