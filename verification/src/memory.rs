use vstd::prelude::*;

use crate::error::Error;

verus! {

/// The fixed size of a linear-memory page in the guest ABI this bridge
/// targets: 64 KiB. It is a constant of the ABI, not a configuration option.
pub const PAGE_SIZE: u32 = 65536;

/// The largest page count a linear memory can reach in that ABI.
pub const MAX_PAGES: u32 = 65536;

/// A linear-memory region, growable in whole pages up to a fixed limit.
///
/// This is the bridge's accounting of a guest linear memory as plain bytes:
/// the byte contents, always a whole number of pages long, and the page
/// limit the region was set up with. Reading and growing are specified here;
/// the host boundary decides how the bytes become visible to the host (by
/// copy or by aliasing a host buffer, see `read_all` and `bind_allowed`).
/// It is the verified reference model of the growth rules: the live guest
/// memories reached through an instance state the same rules over their
/// page counts, as far as the engine shows them.
pub struct PageRegion {
    bytes: Vec<u8>,
    max_pages: u32,
}

impl PageRegion {
    /// The byte contents of the region.
    pub closed spec fn bytes_spec(&self) -> Seq<u8> {
        self.bytes@
    }

    /// The page limit of the region.
    pub closed spec fn max_pages_spec(&self) -> nat {
        self.max_pages as nat
    }

    /// The current page count of the region.
    pub open spec fn pages_spec(&self) -> nat {
        self.bytes_spec().len() / (PAGE_SIZE as nat)
    }

    /// The region always holds a whole number of pages, within its limit;
    /// the limit itself is within what the machine can address.
    pub open spec fn wf(&self) -> bool {
        &&& self.bytes_spec().len() == self.pages_spec() * (PAGE_SIZE as nat)
        &&& self.pages_spec() <= self.max_pages_spec()
        &&& self.max_pages_spec() <= MAX_PAGES as nat
        &&& self.max_pages_spec() * (PAGE_SIZE as nat) <= usize::MAX as nat
    }

    /// The limits under which a region can be set up: the initial page count
    /// within the requested limit, the limit within the ABI's largest page
    /// count, and the limit's byte extent addressable on this machine.
    pub open spec fn can_create(initial: u32, max: u32) -> bool {
        &&& initial <= max
        &&& max <= MAX_PAGES
        &&& (max as nat) * (PAGE_SIZE as nat) <= usize::MAX as nat
    }

    /// A fresh region of `initial` zeroed pages, growable up to `max` pages.
    /// Fails with `OutOfMemory` when `initial` already exceeds `max`, or
    /// `max` exceeds the ABI's largest page count or the machine's reach.
    pub fn new(initial: u32, max: u32) -> (r: Result<PageRegion, Error>)
        ensures
            Self::can_create(initial, max) ==> match r {
                Ok(region) => {
                    &&& region.wf()
                    &&& region.pages_spec() == initial as nat
                    &&& region.max_pages_spec() == max as nat
                    &&& region.bytes_spec() == Seq::new((initial * PAGE_SIZE) as nat, |i: int| 0u8)
                },
                Err(_) => false,
            },
            !Self::can_create(initial, max) ==> r matches Err(Error::OutOfMemory),
    {
        if initial > max || max > MAX_PAGES {
            return Err(Error::OutOfMemory);
        }
        if (max as u64) * (PAGE_SIZE as u64) > (usize::MAX as u64) {
            return Err(Error::OutOfMemory);
        }
        proof {
            vstd::arithmetic::mul::lemma_mul_inequality(
                initial as int,
                max as int,
                PAGE_SIZE as int,
            );
        }
        let len: usize = (initial as usize) * (PAGE_SIZE as usize);
        let mut bytes: Vec<u8> = Vec::new();
        while bytes.len() < len
            invariant
                bytes@ =~= Seq::new(bytes@.len(), |i: int| 0u8),
                bytes@.len() <= len,
            decreases len - bytes@.len(),
        {
            bytes.push(0u8);
        }
        let region = PageRegion { bytes, max_pages: max };
        proof {
            assert(region.bytes_spec().len() == initial * PAGE_SIZE);
            lemma_whole_pages(region.bytes_spec().len(), initial as nat);
            assert(region.bytes_spec() =~= Seq::new((initial * PAGE_SIZE) as nat, |i: int| 0u8));
        }
        Ok(region)
    }

    /// The current page count.
    pub fn pages(&self) -> (r: u32)
        requires
            self.wf(),
        ensures
            r == self.pages_spec(),
    {
        proof {
            lemma_page_count_bound(self.bytes_spec().len(), self.pages_spec());
        }
        (self.bytes.len() / (PAGE_SIZE as usize)) as u32
    }

    /// The current length of the region in bytes.
    pub fn byte_len(&self) -> (r: usize)
        ensures
            r == self.bytes_spec().len(),
    {
        self.bytes.len()
    }

    /// Grows the region by `delta` whole zeroed pages.
    ///
    /// When the region is at page count `p` and `p + delta` is within the
    /// region's page limit, the call returns `p` and leaves the page count at
    /// `p + delta`, the old bytes unchanged and the new pages zeroed. When
    /// `p + delta` exceeds the limit, it fails with `OutOfMemory` and leaves
    /// the region exactly as it was: no partial growth.
    pub fn grow(&mut self, delta: u32) -> (r: Result<u32, Error>)
        requires
            old(self).wf(),
        ensures
            final(self).wf(),
            final(self).max_pages_spec() == old(self).max_pages_spec(),
            old(self).pages_spec() + delta <= old(self).max_pages_spec() ==> {
                &&& r == Ok::<u32, Error>((old(self).pages_spec()) as u32)
                &&& final(self).pages_spec() == old(self).pages_spec() + delta
                &&& final(self).bytes_spec() == old(self).bytes_spec() + Seq::new(
                    (delta * PAGE_SIZE) as nat,
                    |i: int| 0u8,
                )
            },
            old(self).pages_spec() + delta > old(self).max_pages_spec() ==> {
                &&& r matches Err(Error::OutOfMemory)
                &&& final(self).bytes_spec() == old(self).bytes_spec()
                &&& final(self).pages_spec() == old(self).pages_spec()
            },
    {
        proof {
            lemma_page_count_bound(self.bytes_spec().len(), self.pages_spec());
        }
        let p: u32 = self.pages();
        if delta > self.max_pages - p {
            return Err(Error::OutOfMemory);
        }
        proof {
            vstd::arithmetic::mul::lemma_mul_is_distributive_add_other_way(
                PAGE_SIZE as int,
                p as int,
                delta as int,
            );
            vstd::arithmetic::mul::lemma_mul_inequality(
                (p + delta) as int,
                self.max_pages as int,
                PAGE_SIZE as int,
            );
            vstd::arithmetic::mul::lemma_mul_inequality(
                delta as int,
                self.max_pages as int,
                PAGE_SIZE as int,
            );
        }
        let grown: usize = (delta as usize) * (PAGE_SIZE as usize);
        let target: usize = self.bytes.len() + grown;
        while self.bytes.len() < target
            invariant
                old(self).bytes_spec().len() <= self.bytes@.len() <= target,
                self.bytes@ =~= old(self).bytes_spec() + Seq::new(
                    (self.bytes@.len() - old(self).bytes_spec().len()) as nat,
                    |i: int| 0u8,
                ),
                self.max_pages == old(self).max_pages,
                target == old(self).bytes_spec().len() + (delta * PAGE_SIZE) as nat,
            decreases target - self.bytes@.len(),
        {
            self.bytes.push(0u8);
        }
        proof {
            assert(final(self).bytes_spec() =~= old(self).bytes_spec() + Seq::new(
                (delta * PAGE_SIZE) as nat,
                |i: int| 0u8,
            ));
            lemma_grown_pages(
                old(self).bytes_spec().len(),
                old(self).pages_spec(),
                delta as nat,
                final(self).bytes_spec().len(),
            );
        }
        Ok(p)
    }

    /// A point-in-time snapshot of the whole current extent of the region,
    /// as a freshly allocated buffer of exactly the region's length.
    pub fn read_all(&self) -> (r: Vec<u8>)
        ensures
            r@ == self.bytes_spec(),
    {
        let mut out: Vec<u8> = Vec::new();
        out.extend_from_slice(self.bytes.as_slice());
        proof {
            assert(out@ =~= self.bytes_spec());
        }
        out
    }

    /// Whether a host buffer of the given capacity may be bound as an alias
    /// over the region: binding requires the buffer to hold the region's
    /// whole current extent. A binding made before a growth of the region is
    /// stale after it and must be made anew: growth may relocate the bytes.
    pub fn bind_allowed(&self, buffer_capacity: usize) -> (r: bool)
        ensures
            r == (buffer_capacity >= self.bytes_spec().len()),
    {
        buffer_capacity >= self.bytes.len()
    }
}

/// A byte length that is `pages * PAGE_SIZE` is a whole number of pages.
proof fn lemma_whole_pages(len: nat, pages: nat)
    requires
        len == pages * (PAGE_SIZE as nat),
    ensures
        len / (PAGE_SIZE as nat) == pages,
{
    vstd::arithmetic::div_mod::lemma_div_multiples_vanish(
        pages as int,
        PAGE_SIZE as int,
    );
}

/// A whole-page byte length bounds its page count: the count fits in `u32`
/// and dividing back is exact.
proof fn lemma_page_count_bound(len: nat, pages: nat)
    requires
        len == pages * (PAGE_SIZE as nat),
        pages <= MAX_PAGES as nat,
    ensures
        len / (PAGE_SIZE as nat) == pages,
        len <= (MAX_PAGES as nat) * (PAGE_SIZE as nat),
{
    lemma_whole_pages(len, pages);
    vstd::arithmetic::mul::lemma_mul_inequality(
        pages as int,
        MAX_PAGES as int,
        PAGE_SIZE as int,
    );
}

/// Extending a whole-page length by `delta` whole pages yields the page
/// count grown by `delta`.
proof fn lemma_grown_pages(old_len: nat, old_pages: nat, delta: nat, new_len: nat)
    requires
        old_len == old_pages * (PAGE_SIZE as nat),
        new_len == old_len + delta * (PAGE_SIZE as nat),
    ensures
        new_len == (old_pages + delta) * (PAGE_SIZE as nat),
        new_len / (PAGE_SIZE as nat) == old_pages + delta,
{
    vstd::arithmetic::mul::lemma_mul_is_distributive_add_other_way(
        PAGE_SIZE as int,
        old_pages as int,
        delta as int,
    );
    lemma_whole_pages(new_len, old_pages + delta);
}

} // verus!
