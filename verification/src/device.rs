//! The output surface: a region of fixed size, established once at open
//! time, into which each frame is delivered as one bounded copy at offset
//! zero. Frames larger than the region are truncated to fit — never resized,
//! never rejected — and bytes past the copy keep whatever an earlier frame
//! left there.

use vstd::prelude::*;

use crate::error::PipelineError;

verus! {

/// The region after one bounded copy of `data` at offset zero: the region
/// keeps its size, the prefix carries `data` (truncated to fit), and the
/// rest is untouched.
pub open spec fn surface_after_write(region: Seq<u8>, data: Seq<u8>) -> Seq<u8> {
    Seq::new(region.len(), |k: int| if k < data.len() { data[k] } else { region[k] })
}

/// Decides how opening and mapping the output device concluded: the path
/// must open and the region must map, in that order, for a surface to
/// exist; each failure is reported as its own fatal startup error.
pub fn open_outcome(opened: bool, mapped: bool) -> (r: Result<(), PipelineError>)
    ensures
        r is Ok <==> opened && mapped,
        !opened ==> r == Err::<(), PipelineError>(PipelineError::DeviceUnavailable),
        opened && !mapped ==> r == Err::<(), PipelineError>(PipelineError::MapFailed),
{
    if !opened {
        Err(PipelineError::DeviceUnavailable)
    } else if !mapped {
        Err(PipelineError::MapFailed)
    } else {
        Ok(())
    }
}

/// A mapped output region of size fixed at open time. Writes are bounded
/// copies at offset zero; there is no double buffering, and synchronization
/// with a concurrent reader of the same region is outside this type.
pub struct OutputSurface {
    region: Vec<u8>,
}

impl OutputSurface {
    /// Size of the region, fixed at open time.
    pub closed spec fn mapped_size(&self) -> int {
        self.region@.len() as int
    }

    /// The bytes currently in the region.
    pub closed spec fn contents(&self) -> Seq<u8> {
        self.region@
    }

    /// A fresh zeroed region of `mapped_size` bytes.
    pub fn new(mapped_size: usize) -> (s: OutputSurface)
        ensures
            s.mapped_size() == mapped_size,
            forall|k: int| 0 <= k < mapped_size ==> s.contents()[k] == 0,
    {
        OutputSurface { region: vec![0u8; mapped_size] }
    }

    /// Delivers one frame: copies `min(data.len(), mapped_size)` bytes to
    /// offset zero in one pass. An oversize frame is silently truncated to
    /// the region; bytes past the copy keep their previous values.
    pub fn write_frame(&mut self, data: &[u8])
        ensures
            final(self).mapped_size() == old(self).mapped_size(),
            final(self).contents() == surface_after_write(old(self).contents(), data@),
    {
        let size = self.region.len();
        let n = if data.len() < size {
            data.len()
        } else {
            size
        };
        let mut k: usize = 0;
        while k < n
            invariant
                n <= data@.len(),
                n <= self.region@.len(),
                k <= n,
                self.region@.len() == old(self).contents().len(),
                forall|j: int| 0 <= j < k ==> self.region@[j] == data@[j],
                forall|j: int| k <= j < self.region@.len() ==> self.region@[j] == old(
                    self,
                ).contents()[j],
                n == if data@.len() < old(self).contents().len() {
                    data@.len() as int
                } else {
                    old(self).contents().len() as int
                },
            decreases n - k,
        {
            self.region[k] = data[k];
            k = k + 1;
        }
        proof {
            assert(self.region@ =~= surface_after_write(old(self).contents(), data@));
        }
    }

    /// Current bytes of the region, for a consumer draining it.
    pub fn bytes(&self) -> (r: &Vec<u8>)
        ensures
            r@ == self.contents(),
    {
        &self.region
    }

    /// Unmaps the region: consumes the surface, so it can happen only once
    /// and nothing can write afterwards.
    pub fn close(self) {
    }
}

/// Law: frame writes are atomic at frame granularity. Two frames delivered
/// in sequence — as every pair of submits is, the session being held for the
/// whole of each — leave the region exactly as if the later frame alone had
/// been written, provided it is no smaller than the earlier one (as with two
/// frames of one resolution): the full, untorn output of the last writer.
pub proof fn lemma_last_writer_wins(region: Seq<u8>, first: Seq<u8>, second: Seq<u8>)
    requires
        first.len() <= second.len(),
    ensures
        surface_after_write(surface_after_write(region, first), second) == surface_after_write(
            region,
            second,
        ),
{
    assert(surface_after_write(surface_after_write(region, first), second)
        =~= surface_after_write(region, second));
}

} // verus!
