use vstd::prelude::*;

pub mod quasi_uart;

use crate::cycle::status_registers::TrapReason;

verus! {

/// A memory-mapped device: it claims a half-open physical address range,
/// fixed for its whole life, and answers reads and writes inside it.
/// What a device does with an access is its own business.
pub trait MMIOSource: Sized {
    /// The claimed range, as (start, end).
    spec fn spec_address_range(&self) -> (u64, u64);

    fn address_range(&self) -> (r: (u64, u64))
        ensures
            r == self.spec_address_range(),
    ;

    fn read(&mut self, address: u64, trap: &mut TrapReason) -> (r: u32)
        requires
            old(self).spec_address_range().0 <= address < old(self).spec_address_range().1,
        ensures
            final(self).spec_address_range() == old(self).spec_address_range(),
    ;

    fn write(&mut self, address: u64, value: u32, trap: &mut TrapReason)
        requires
            old(self).spec_address_range().0 <= address < old(self).spec_address_range().1,
        ensures
            final(self).spec_address_range() == old(self).spec_address_range(),
    ;
}

/// Whether the device at `source` claims address `a`.
pub open spec fn spec_in_range<S: MMIOSource>(source: S, a: u64) -> bool {
    source.spec_address_range().0 <= a < source.spec_address_range().1
}

/// Whether some device in the list claims address `a`.
pub open spec fn spec_covers<S: MMIOSource>(sources: Seq<S>, a: u64) -> bool {
    exists|i: int| 0 <= i < sources.len() && #[trigger] spec_in_range(sources[i], a)
}

/// Whether two claimed ranges share no address.
pub open spec fn spec_ranges_disjoint(r1: (u64, u64), r2: (u64, u64)) -> bool {
    r1.1 <= r2.0 || r2.1 <= r1.0 || r1.0 >= r1.1 || r2.0 >= r2.1
}

/// Whether all devices in the list claim pairwise disjoint ranges.
pub open spec fn spec_pairwise_disjoint<S: MMIOSource>(sources: Seq<S>) -> bool {
    forall|i: int, j: int|
        0 <= i < j < sources.len() ==> spec_ranges_disjoint(
            #[trigger] sources[i].spec_address_range(),
            #[trigger] sources[j].spec_address_range(),
        )
}

/// A bank of memory-mapped devices with pairwise disjoint ranges; an
/// access is routed to the device that claims its address.
pub struct MMIOImplementation<S: MMIOSource> {
    pub sources: Vec<S>,
}

impl<S: MMIOSource> MMIOImplementation<S> {
    /// Assemble a bank; refuses device lists with intersecting ranges,
    /// which are a bug in the host wiring.
    pub fn construct(sources: Vec<S>) -> (r: Option<Self>)
        ensures
            r is Some <==> spec_pairwise_disjoint(sources@),
            (match r {
                Some(bank) => bank.sources == sources,
                None => true,
            }),
    {
        let n = sources.len();
        let mut i: usize = 0;
        while i < n
            invariant
                i <= n,
                n == sources@.len(),
                forall|p: int, q: int|
                    0 <= p < q < n && p < i ==> spec_ranges_disjoint(
                        #[trigger] sources@[p].spec_address_range(),
                        #[trigger] sources@[q].spec_address_range(),
                    ),
            decreases n - i,
        {
            let ri = sources[i].address_range();
            let mut j: usize = i + 1;
            while j < n
                invariant
                    i < j <= n,
                    n == sources@.len(),
                    ri == sources@[i as int].spec_address_range(),
                    forall|q: int|
                        i < q < j ==> spec_ranges_disjoint(
                            sources@[i as int].spec_address_range(),
                            #[trigger] sources@[q].spec_address_range(),
                        ),
                decreases n - j,
            {
                let rj = sources[j].address_range();
                let disjoint = ri.1 <= rj.0 || rj.1 <= ri.0 || ri.0 >= ri.1 || rj.0 >= rj.1;
                if !disjoint {
                    return None;
                }
                j = j + 1;
            }
            i = i + 1;
        }
        Some(Self { sources })
    }

    /// Route a read: `Ok` exactly when some device claims the address.
    pub fn read(&mut self, phys_address: u64, trap: &mut TrapReason) -> (r: Result<u32, ()>)
        ensures
            (r is Ok) <==> spec_covers(old(self).sources@, phys_address),
            final(self).sources@.len() == old(self).sources@.len(),
    {
        let n = self.sources.len();
        let mut i: usize = 0;
        while i < n
            invariant
                i <= n,
                n == self.sources@.len(),
                self.sources@ == old(self).sources@,
                forall|q: int|
                    0 <= q < i ==> !(#[trigger] spec_in_range(self.sources@[q], phys_address)),
            decreases n - i,
        {
            let range = self.sources[i].address_range();
            if range.0 <= phys_address && phys_address < range.1 {
                proof {
                    assert(spec_in_range(self.sources@[i as int], phys_address));
                }
                let mut source = self.sources.remove(i);
                let value = source.read(phys_address, trap);
                self.sources.insert(i, source);
                return Ok(value);
            }
            i = i + 1;
        }
        proof {
            assert(forall|q: int|
                0 <= q < old(self).sources@.len() ==> !(#[trigger] spec_in_range(
                    old(self).sources@[q],
                    phys_address,
                )));
        }
        Err(())
    }

    /// Route a write: `Ok` exactly when some device claims the address.
    pub fn write(&mut self, phys_address: u64, value: u32, trap: &mut TrapReason) -> (r: Result<
        (),
        (),
    >)
        ensures
            (r is Ok) <==> spec_covers(old(self).sources@, phys_address),
            final(self).sources@.len() == old(self).sources@.len(),
    {
        let n = self.sources.len();
        let mut i: usize = 0;
        while i < n
            invariant
                i <= n,
                n == self.sources@.len(),
                self.sources@ == old(self).sources@,
                forall|q: int|
                    0 <= q < i ==> !(#[trigger] spec_in_range(self.sources@[q], phys_address)),
            decreases n - i,
        {
            let range = self.sources[i].address_range();
            if range.0 <= phys_address && phys_address < range.1 {
                proof {
                    assert(spec_in_range(self.sources@[i as int], phys_address));
                }
                let mut source = self.sources.remove(i);
                source.write(phys_address, value, trap);
                self.sources.insert(i, source);
                return Ok(());
            }
            i = i + 1;
        }
        proof {
            assert(forall|q: int|
                0 <= q < old(self).sources@.len() ==> !(#[trigger] spec_in_range(
                    old(self).sources@[q],
                    phys_address,
                )));
        }
        Err(())
    }
}

} // verus!
