//! The guarded execution stack of the new process.
//!
//! A stack is a region of `pages + 2` pages. The first and the last page are
//! guards that must be made inaccessible; the pages between them are the
//! usable interior, and `top` is the address just above it. This module
//! computes the geometry. Mapping, protecting and unmapping are the driver's.

use vstd::prelude::*;
use vstd::arithmetic::div_mod::lemma_mod_multiples_vanish;
use crate::failure::Failure;
use crate::flags::{
    map_anonymous, map_anonymous_bits, map_growsdown, map_growsdown_bits, map_private,
    map_private_bits, map_stack, map_stack_bits, prot_none, prot_none_bits, prot_read,
    prot_read_bits, prot_write, prot_write_bits,
};
use crate::linux::{Request, RequestView};

verus! {

/// The mathematical layout of a guarded stack.
pub struct Layout {
    /// Address of the first byte of the region.
    pub base: nat,
    /// Number of usable pages.
    pub pages: nat,
    /// Size of a page in bytes.
    pub page_size: nat,
}

impl Layout {
    /// Length of the usable interior.
    pub open spec fn interior_len(self) -> nat {
        self.pages * self.page_size
    }

    /// Length of the whole region: the interior and one guard page on each side.
    pub open spec fn len(self) -> nat {
        self.pages * self.page_size + 2 * self.page_size
    }

    /// First address of the usable interior.
    pub open spec fn interior_start(self) -> nat {
        self.base + self.page_size
    }

    /// Address just above the usable interior, from which the stack grows down.
    pub open spec fn top(self) -> nat {
        self.base + self.page_size + self.pages * self.page_size
    }

    /// Address just above the region.
    pub open spec fn end(self) -> nat {
        self.base + self.len()
    }

    /// Whether a kernel mapping can have this layout: pages hold more than one
    /// byte, the region starts on a page boundary, its base is not the
    /// all-ones address by which a failed mapping is reported, and it ends
    /// within the address space.
    pub open spec fn valid(self) -> bool {
        &&& self.page_size > 1
        &&& self.base % self.page_size == 0
        &&& self.base != usize::MAX
        &&& self.end() <= usize::MAX
    }
}

/// A range of addresses: `len` bytes from `addr` on.
#[derive(Clone, Copy, Debug, PartialEq, Eq, Structural)]
pub struct Region {
    pub addr: usize,
    pub len: usize,
}

/// A mapped stack region with its guard pages.
#[derive(Debug)]
pub struct Stack {
    base: usize,
    len: usize,
    top: usize,
    page_size: usize,
    pages: usize,
}

impl View for Stack {
    type V = Layout;

    closed spec fn view(&self) -> Layout {
        Layout { base: self.base as nat, pages: self.pages as nat, page_size: self.page_size as nat }
    }
}

/// The length in bytes of the region for `pages` usable pages, where it is defined.
pub open spec fn mapping_len_of(pages: nat, page_size: nat) -> Option<nat> {
    if page_size > 1 && pages * page_size + 2 * page_size <= usize::MAX {
        Some(pages * page_size + 2 * page_size)
    } else {
        None
    }
}

/// Protection of the usable interior: readable and writable.
pub open spec fn interior_protection() -> i32 {
    prot_read_bits() | prot_write_bits()
}

/// Protection of a guard page: no access.
pub open spec fn guard_protection() -> i32 {
    prot_none_bits()
}

/// Kind of the mapping: private, anonymous, growing downward, for a stack.
pub open spec fn mapping_flags() -> i32 {
    map_private_bits() | map_anonymous_bits() | map_growsdown_bits() | map_stack_bits()
}

impl Stack {
    /// The fields agree with the layout, and the layout is valid.
    #[verifier::type_invariant]
    spec fn wf(&self) -> bool {
        &&& self@.valid()
        &&& self.len == self@.len()
        &&& self.top == self@.top()
    }

    /// Length of the region to map for a stack of `stack_size` pages.
    ///
    /// Fails with `AllocationFailure` when the page size is not more than one
    /// byte or the length does not fit the address space.
    pub fn mapping_len(stack_size: usize, page_size: usize) -> (r: Result<usize, Failure>)
        ensures
            match mapping_len_of(stack_size as nat, page_size as nat) {
                Some(len) => r == Ok::<usize, Failure>(len as usize),
                None => r == Err::<usize, Failure>(Failure::AllocationFailure),
            },
    {
        if page_size <= 1 {
            return Err(Failure::AllocationFailure);
        }
        let interior = match stack_size.checked_mul(page_size) {
            Some(n) => n,
            None => {
                return Err(Failure::AllocationFailure);
            },
        };
        let guards = match page_size.checked_mul(2) {
            Some(n) => n,
            None => {
                return Err(Failure::AllocationFailure);
            },
        };
        match interior.checked_add(guards) {
            Some(len) => Ok(len),
            None => Err(Failure::AllocationFailure),
        }
    }

    /// The request for a mapping of `len` bytes that can hold a stack:
    /// private, anonymous, with stack semantics, readable and writable.
    pub fn map_request(len: usize) -> (r: Request)
        ensures
            r@ == (RequestView::MapRegion {
                len,
                prot: interior_protection(),
                flags: mapping_flags(),
            }),
    {
        Request::MapRegion {
            len,
            prot: prot_read() | prot_write(),
            flags: map_private() | map_anonymous() | map_growsdown() | map_stack(),
        }
    }

    /// Describes the region of `stack_size` usable pages that the kernel
    /// mapped at `base`.
    ///
    /// Succeeds exactly when the layout is valid; every other input is an
    /// `AllocationFailure`.
    pub fn new(stack_size: usize, page_size: usize, base: usize) -> (r: Result<Stack, Failure>)
        ensures
            ({
                let layout = Layout {
                    base: base as nat,
                    pages: stack_size as nat,
                    page_size: page_size as nat,
                };
                match r {
                    Ok(stack) => layout.valid() && stack@ == layout,
                    Err(e) => !layout.valid() && e == Failure::AllocationFailure,
                }
            }),
            r matches Ok(stack) ==> {
                &&& stack@.len() == stack_size * page_size + 2 * page_size
                &&& stack@.top() == base + page_size + stack_size * page_size
                &&& stack@.top() % (page_size as nat) == 0
            },
    {
        let len = match Stack::mapping_len(stack_size, page_size) {
            Ok(len) => len,
            Err(e) => {
                return Err(e);
            },
        };
        if base == usize::MAX || base % page_size != 0 {
            return Err(Failure::AllocationFailure);
        }
        if len > usize::MAX - base {
            return Err(Failure::AllocationFailure);
        }
        let top = base + len - page_size;
        proof {
            lemma_layout_geometry(
                Layout { base: base as nat, pages: stack_size as nat, page_size: page_size as nat },
            );
        }
        Ok(Stack { base, len, top, page_size, pages: stack_size })
    }

    /// Address of the first byte of the region.
    pub fn base(&self) -> (r: usize)
        ensures
            r == self@.base,
    {
        self.base
    }

    /// Length of the whole region in bytes.
    pub fn len(&self) -> (r: usize)
        ensures
            r == self@.len(),
            self@.valid(),
    {
        proof {
            use_type_invariant(self);
        }
        self.len
    }

    /// Address just above the usable interior: a multiple of the page size.
    pub fn top(&self) -> (r: usize)
        ensures
            r == self@.top(),
            r % self@.page_size as usize == 0,
            self@.valid(),
    {
        proof {
            use_type_invariant(self);
            lemma_layout_geometry(self@);
        }
        self.top
    }

    /// Size of a page in bytes.
    pub fn page_size(&self) -> (r: usize)
        ensures
            r == self@.page_size,
    {
        self.page_size
    }

    /// Number of usable pages.
    pub fn pages(&self) -> (r: usize)
        ensures
            r == self@.pages,
    {
        self.pages
    }

    /// The guard page below the interior: the first page of the region.
    pub fn low_guard(&self) -> (r: Region)
        ensures
            r.addr == self@.base,
            r.len == self@.page_size,
    {
        Region { addr: self.base, len: self.page_size }
    }

    /// The guard page above the interior: the last page of the region.
    pub fn high_guard(&self) -> (r: Region)
        ensures
            r.addr == self@.top(),
            r.len == self@.page_size,
            r.addr + r.len == self@.end(),
    {
        proof {
            use_type_invariant(self);
        }
        Region { addr: self.top, len: self.page_size }
    }

    /// The usable interior, between the two guards.
    pub fn interior(&self) -> (r: Region)
        ensures
            r.addr == self@.interior_start(),
            r.len == self@.interior_len(),
            r.addr + r.len == self@.top(),
    {
        proof {
            use_type_invariant(self);
        }
        Region { addr: self.base + self.page_size, len: self.top - self.base - self.page_size }
    }

    /// The whole region, as it is handed back to the kernel in one call.
    pub fn whole(&self) -> (r: Region)
        ensures
            r.addr == self@.base,
            r.len == self@.len(),
    {
        proof {
            use_type_invariant(self);
        }
        Region { addr: self.base, len: self.len }
    }

    /// The request that makes the low guard inaccessible.
    pub fn protect_low_request(&self) -> (r: Request)
        ensures
            r@ == (RequestView::ProtectRegion {
                addr: self@.base as usize,
                len: self@.page_size as usize,
                prot: guard_protection(),
            }),
    {
        let guard = self.low_guard();
        Request::ProtectRegion { addr: guard.addr, len: guard.len, prot: prot_none() }
    }

    /// The request that makes the high guard inaccessible.
    pub fn protect_high_request(&self) -> (r: Request)
        ensures
            r@ == (RequestView::ProtectRegion {
                addr: self@.top() as usize,
                len: self@.page_size as usize,
                prot: guard_protection(),
            }),
    {
        let guard = self.high_guard();
        Request::ProtectRegion { addr: guard.addr, len: guard.len, prot: prot_none() }
    }

    /// The request that unmaps the whole region in one call.
    pub fn unmap_request(&self) -> (r: Request)
        ensures
            r@ == (RequestView::UnmapRegion {
                addr: self@.base as usize,
                len: self@.len() as usize,
            }),
    {
        let region = self.whole();
        Request::UnmapRegion { addr: region.addr, len: region.len }
    }
}

/// For every page count and page size, the region is `pages * page_size +
/// 2 * page_size` bytes long, its top lies one page and the interior above
/// its base, and the top of a page-aligned region is page-aligned.
pub proof fn lemma_layout_geometry(layout: Layout)
    requires
        layout.page_size > 0,
        layout.base % layout.page_size == 0,
    ensures
        layout.len() == layout.pages * layout.page_size + 2 * layout.page_size,
        layout.top() == layout.base + layout.page_size + layout.pages * layout.page_size,
        layout.top() % layout.page_size == 0,
        layout.interior_start() % layout.page_size == 0,
{
    let z = layout.page_size as int;
    let b = layout.base as int;
    let p = layout.pages as int;
    lemma_mod_multiples_vanish(1, b, z);
    assert(z * 1 + b == b + z);
    lemma_mod_multiples_vanish(1 + p, b, z);
    assert(z * (1 + p) + b == b + z + p * z) by (nonlinear_arith);
}

/// The two guards and the interior tile the region in this order, without
/// overlap: the low guard ends where the interior starts, the interior ends
/// at the top, where the high guard starts, and the high guard ends with the
/// region.
pub proof fn lemma_guards_enclose_interior(layout: Layout)
    ensures
        layout.base + layout.page_size == layout.interior_start(),
        layout.interior_start() + layout.interior_len() == layout.top(),
        layout.top() + layout.page_size == layout.end(),
        layout.page_size + layout.interior_len() + layout.page_size == layout.len(),
{
}

} // verus!
