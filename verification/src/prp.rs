//! PRP construction and the bounce-page model. A `ScopedPages` value stands
//! for a scoped acquisition of DMA pages from the bounce pool: the physical
//! address of each page and the bytes the pages hold. `make_prp` turns a
//! starting offset and a list of page-aligned IOVAs into the two-entry DPTR
//! of a command, spilling entries two and up into an auxiliary PRP-list page
//! as little-endian 8-byte values when the transfer covers three pages or
//! more.

use vstd::prelude::*;
use vstd::arithmetic::div_mod::lemma_fundamental_div_mod_converse;
use crate::nvme::INVALID_PAGE_ADDR;

verus! {

/// Byte `k` (from the low end) of the little-endian encoding of `v`.
pub open spec fn le_byte(v: u64, k: int) -> u8 {
    ((v >> ((8 * k) as u64)) & 0xff) as u8
}

/// A scoped holding of whole DMA pages from the bounce pool: per-page
/// physical addresses and the bytes the pages hold.
pub struct ScopedPages {
    addrs: Vec<u64>,
    data: Vec<u8>,
}

impl ScopedPages {
    /// The physical address of each held page.
    pub closed spec fn addrs_spec(&self) -> Seq<u64> {
        self.addrs@
    }

    /// The bytes of the held pages, first page first.
    pub closed spec fn contents(&self) -> Seq<u8> {
        self.data@
    }

    /// Number of pages held.
    pub open spec fn page_count_spec(&self) -> int {
        self.addrs_spec().len() as int
    }

    /// The holding is consistent: one page of bytes per address, and every
    /// address page-aligned.
    pub open spec fn wf(&self) -> bool {
        &&& self.contents().len() == self.page_count_spec() * 4096
        &&& forall|i: int|
            0 <= i < self.page_count_spec() ==> (#[trigger] self.addrs_spec()[i]) % 4096 == 0
    }

    /// Builds a holding from page addresses and page bytes.
    pub fn new(addrs: Vec<u64>, data: Vec<u8>) -> (r: Self)
        requires
            data@.len() == addrs@.len() * 4096,
            forall|i: int| 0 <= i < addrs@.len() ==> (#[trigger] addrs@[i]) % 4096 == 0,
        ensures
            r.wf(),
            r.addrs_spec() == addrs@,
            r.contents() == data@,
    {
        ScopedPages { addrs, data }
    }

    /// Returns the number of pages held.
    pub fn page_count(&self) -> (n: usize)
        ensures
            n == self.page_count_spec(),
    {
        self.addrs.len()
    }

    /// Returns the physical address of page `i`.
    pub fn physical_address(&self, i: usize) -> (a: u64)
        requires
            i < self.page_count_spec(),
        ensures
            a == self.addrs_spec()[i as int],
    {
        self.addrs[i]
    }

    /// Returns the page addresses as a list, for PRP construction.
    pub fn addr_list(&self) -> (v: Vec<u64>)
        ensures
            v@ == self.addrs_spec(),
    {
        let mut v: Vec<u64> = Vec::new();
        let mut i: usize = 0;
        while i < self.addrs.len()
            invariant
                i <= self.addrs.len(),
                v@ == self.addrs@.subrange(0, i as int),
            decreases self.addrs.len() - i,
        {
            v.push(self.addrs[i]);
            i = i + 1;
        }
        proof {
            assert(v@ =~= self.addrs@);
        }
        v
    }

    /// Returns byte `i` of the held pages.
    pub fn byte_at(&self, i: usize) -> (b: u8)
        requires
            i < self.contents().len(),
        ensures
            b == self.contents()[i as int],
    {
        self.data[i]
    }

    /// A single-page data pointer: the page's address and an invalid second
    /// entry. Larger holdings build their DPTR through `make_prp` instead.
    pub fn prp(&self) -> (p: Prp)
        requires
            self.wf(),
            self.page_count_spec() == 1,
        ensures
            p.dptr0 == self.addrs_spec()[0],
            p.dptr1 == INVALID_PAGE_ADDR,
            p.pages is None,
    {
        Prp { dptr0: self.addrs[0], dptr1: INVALID_PAGE_ADDR, pages: None }
    }

    /// Copies `data` into the front of the held pages, leaving the rest of
    /// the bytes as they were.
    pub fn write(&mut self, data: &Vec<u8>)
        requires
            data@.len() <= old(self).contents().len(),
        ensures
            final(self).addrs_spec() == old(self).addrs_spec(),
            final(self).contents().len() == old(self).contents().len(),
            forall|j: int|
                0 <= j < data@.len() ==> final(self).contents()[j] == data@[j],
            forall|j: int|
                data@.len() <= j < old(self).contents().len() ==> final(self).contents()[j]
                    == old(self).contents()[j],
    {
        let mut i: usize = 0;
        while i < data.len()
            invariant
                i <= data@.len(),
                data@.len() <= self.contents().len(),
                self.addrs_spec() == old(self).addrs_spec(),
                self.contents().len() == old(self).contents().len(),
                forall|j: int| 0 <= j < i ==> self.contents()[j] == data@[j],
                forall|j: int|
                    i <= j < old(self).contents().len() ==> self.contents()[j]
                        == old(self).contents()[j],
            decreases data@.len() - i,
        {
            self.data.set(i, data[i]);
            i = i + 1;
        }
    }

    /// Copies the front of the held pages out into `data`, filling it whole.
    pub fn read(&self, data: &mut Vec<u8>)
        requires
            old(data)@.len() <= self.contents().len(),
        ensures
            final(data)@.len() == old(data)@.len(),
            forall|j: int|
                0 <= j < old(data)@.len() ==> final(data)@[j] == self.contents()[j],
    {
        let mut i: usize = 0;
        let n = data.len();
        while i < n
            invariant
                i <= n,
                n == data@.len(),
                n <= self.contents().len(),
                forall|j: int| 0 <= j < i ==> data@[j] == self.contents()[j],
            decreases n - i,
        {
            data.set(i, self.data[i]);
            i = i + 1;
        }
    }

    /// Writes the little-endian encoding of `v` at byte offset `off`,
    /// leaving every other byte as it was.
    pub fn write_u64_le(&mut self, off: usize, v: u64)
        requires
            off + 8 <= old(self).contents().len(),
        ensures
            final(self).addrs_spec() == old(self).addrs_spec(),
            final(self).contents().len() == old(self).contents().len(),
            forall|j: int|
                off <= j < off + 8 ==> final(self).contents()[j] == le_byte(v, j - off),
            forall|j: int|
                (0 <= j < off || off + 8 <= j < old(self).contents().len())
                    ==> final(self).contents()[j] == old(self).contents()[j],
    {
        let total = self.data.len();
        let mut k: usize = 0;
        while k < 8
            invariant
                k <= 8,
                total == self.contents().len(),
                off + 8 <= total,
                self.addrs_spec() == old(self).addrs_spec(),
                self.contents().len() == old(self).contents().len(),
                forall|j: int|
                    off <= j < off + k ==> self.contents()[j] == le_byte(v, j - off),
                forall|j: int|
                    (0 <= j < off || off + k <= j < old(self).contents().len())
                        ==> self.contents()[j] == old(self).contents()[j],
            decreases 8 - k,
        {
            let shift: u64 = (8 * k) as u64;
            let piece: u64 = (v >> shift) & 0xff;
            proof {
                assert((v >> shift) & 0xff < 256) by (bit_vector);
            }
            self.data.set(off + k, piece as u8);
            k = k + 1;
        }
    }
}

/// A data pointer for one command: the two DPTR entries and, when the
/// transfer spilled into an auxiliary PRP-list page, the holding that keeps
/// that page alive for the command's duration.
pub struct Prp {
    pub dptr0: u64,
    pub dptr1: u64,
    pub pages: Option<ScopedPages>,
}

/// What `make_prp` guarantees of its result, given the starting offset, the
/// IOVA list, and the auxiliary page handed in (present exactly when three
/// or more IOVAs need a PRP list).
pub open spec fn prp_post(offset: u64, iovas: Seq<u64>, base: Option<ScopedPages>, p: Prp) -> bool {
    let n = iovas.len() as int;
    &&& (p.pages is Some <==> n >= 3)
    &&& (n == 0 ==> p.dptr0 == INVALID_PAGE_ADDR && p.dptr1 == INVALID_PAGE_ADDR)
    &&& (n == 1 ==> p.dptr0 == iovas[0] + offset && p.dptr1 == INVALID_PAGE_ADDR)
    &&& (n == 2 ==> p.dptr0 == iovas[0] + offset && p.dptr1 == iovas[1])
    &&& (n >= 3 ==> {
        let lp = p.pages.unwrap();
        let bp = base.unwrap();
        &&& base is Some
        &&& p.dptr0 == iovas[0] + offset
        &&& p.dptr1 == bp.addrs_spec()[0]
        &&& lp.addrs_spec() == bp.addrs_spec()
        &&& lp.contents().len() == 4096
        &&& forall|j: int|
            0 <= j < (n - 1) * 8 ==> lp.contents()[j] == le_byte(iovas[1 + j / 8], j % 8)
        &&& forall|j: int|
            (n - 1) * 8 <= j < 4096 ==> lp.contents()[j] == bp.contents()[j]
    })
}

/// A page-aligned 64-bit address leaves room for any in-page offset.
proof fn lemma_aligned_addr_bound(a: u64)
    by (bit_vector)
    requires
        a % 4096 == 0,
    ensures
        a <= 0xffff_ffff_ffff_f000,
{
}

/// Builds the two-entry DPTR for a transfer starting `offset` bytes into the
/// first page of `iovas`. With no pages both entries are invalid; one or two
/// pages fit the DPTR itself; three or more spill entries two and up into
/// `list_page`, handed in from the bounce pool, as little-endian 8-byte
/// values, and the second DPTR entry points at that page.
pub fn make_prp(offset: u64, iovas: &Vec<u64>, list_page: Option<ScopedPages>) -> (p: Prp)
    requires
        offset < 4096,
        iovas@.len() <= 512,
        forall|i: int| 0 <= i < iovas@.len() ==> (#[trigger] iovas@[i]) % 4096 == 0,
        iovas@.len() >= 3 ==> (list_page matches Some(lp) && lp.wf() && lp.page_count_spec()
            == 1),
        iovas@.len() < 3 ==> list_page is None,
    ensures
        prp_post(offset, iovas@, list_page, p),
{
    let n = iovas.len();
    if n == 0 {
        Prp { dptr0: INVALID_PAGE_ADDR, dptr1: INVALID_PAGE_ADDR, pages: None }
    } else if n == 1 {
        proof {
            lemma_aligned_addr_bound(iovas@[0]);
        }
        Prp { dptr0: iovas[0] + offset, dptr1: INVALID_PAGE_ADDR, pages: None }
    } else if n == 2 {
        proof {
            lemma_aligned_addr_bound(iovas@[0]);
        }
        Prp { dptr0: iovas[0] + offset, dptr1: iovas[1], pages: None }
    } else {
        proof {
            lemma_aligned_addr_bound(iovas@[0]);
        }
        let mut lp = match list_page {
            Some(lp) => lp,
            None => vstd::pervasive::unreached(),
        };
        let prp_addr = lp.physical_address(0);
        let ghost base_contents = lp.contents();
        let mut e: usize = 1;
        while e < n
            invariant
                1 <= e <= n,
                n == iovas@.len(),
                3 <= n <= 512,
                lp.contents().len() == 4096,
                lp.addrs_spec() == list_page.unwrap().addrs_spec(),
                base_contents == list_page.unwrap().contents(),
                base_contents.len() == 4096,
                forall|j: int|
                    0 <= j < (e - 1) * 8 ==> lp.contents()[j] == le_byte(
                        iovas@[1 + j / 8],
                        j % 8,
                    ),
                forall|j: int|
                    (e - 1) * 8 <= j < 4096 ==> lp.contents()[j] == base_contents[j],
            decreases n - e,
        {
            let off = (e - 1) * 8;
            lp.write_u64_le(off, iovas[e]);
            proof {
                assert forall|j: int| 0 <= j < e * 8 implies lp.contents()[j] == le_byte(
                    iovas@[1 + j / 8],
                    j % 8,
                ) by {
                    if j >= (e - 1) * 8 {
                        lemma_fundamental_div_mod_converse(j, 8, e - 1, j - (e - 1) * 8);
                    }
                }
            }
            e = e + 1;
        }
        Prp { dptr0: iovas[0] + offset, dptr1: prp_addr, pages: Some(lp) }
    }
}

/// Law: `make_prp` is a function of its inputs. Two results that both meet
/// its guarantee for the same offset, the same IOVAs, and auxiliary pages
/// with the same addresses and bytes agree on both DPTR entries and, when a
/// PRP-list page is held, on every byte of it.
pub proof fn lemma_make_prp_deterministic(
    offset: u64,
    iovas: Seq<u64>,
    base1: Option<ScopedPages>,
    base2: Option<ScopedPages>,
    p1: Prp,
    p2: Prp,
)
    requires
        prp_post(offset, iovas, base1, p1),
        prp_post(offset, iovas, base2, p2),
        base1 is Some <==> base2 is Some,
        base1 is Some ==> base1.unwrap().addrs_spec() == base2.unwrap().addrs_spec()
            && base1.unwrap().contents() == base2.unwrap().contents(),
    ensures
        p1.dptr0 == p2.dptr0,
        p1.dptr1 == p2.dptr1,
        p1.pages is Some <==> p2.pages is Some,
        p1.pages is Some ==> p1.pages.unwrap().contents() =~= p2.pages.unwrap().contents(),
{
    let n = iovas.len() as int;
    if n >= 3 {
        let c1 = p1.pages.unwrap().contents();
        let c2 = p2.pages.unwrap().contents();
        assert forall|j: int| 0 <= j < 4096 implies c1[j] == c2[j] by {
            if j < (n - 1) * 8 {
                assert(c1[j] == le_byte(iovas[1 + j / 8], j % 8));
                assert(c2[j] == le_byte(iovas[1 + j / 8], j % 8));
            }
        }
    }
}

} // verus!
