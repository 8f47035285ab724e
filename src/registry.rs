//! The set of outstanding fetches and the start time of the current batch.
use vstd::prelude::*;

verus! {

/// Time passed from `start` to `now`, zero where the clock reads earlier.
pub open spec fn elapsed_between(start: u64, now: u64) -> u64 {
    if now >= start {
        (now - start) as u64
    } else {
        0
    }
}

/// Handles taken out of a registry, with the length of the batch they closed.
pub struct Drained<H> {
    pub handles: Vec<H>,
    /// Time from the first handle of the batch to the drain.
    pub elapsed: Option<u64>,
}

/// Outstanding fetch handles and the time at which the first of them came.
pub struct DownloadRegistry<H> {
    handles: Vec<H>,
    batch_started_at: Option<u64>,
}

impl<H> DownloadRegistry<H> {
    /// The handles not yet drained, in the order they were added.
    pub closed spec fn pending(&self) -> Seq<H> {
        self.handles@
    }

    /// When the current batch began.
    pub closed spec fn started_at(&self) -> Option<u64> {
        self.batch_started_at
    }

    /// A batch is open exactly while handles are outstanding.
    pub open spec fn wf(&self) -> bool {
        self.started_at() is Some <==> self.pending().len() > 0
    }

    /// An empty registry.
    pub fn new() -> (r: Self)
        ensures
            r.wf(),
            r.pending() == Seq::<H>::empty(),
            r.started_at() is None,
    {
        DownloadRegistry { handles: Vec::new(), batch_started_at: None }
    }

    /// Tracks one more handle; the first of a batch records `now` as its start.
    pub fn add(&mut self, handle: H, now: u64)
        requires
            old(self).wf(),
        ensures
            final(self).wf(),
            final(self).pending() == old(self).pending().push(handle),
            final(self).started_at() == if old(self).pending().len() == 0 {
                Some(now)
            } else {
                old(self).started_at()
            },
    {
        if self.handles.len() == 0 {
            self.batch_started_at = Some(now);
        }
        self.handles.push(handle);
    }

    /// The number of handles tracked.
    pub fn size(&self) -> (r: usize)
        ensures
            r == self.pending().len(),
    {
        self.handles.len()
    }

    /// When the current batch began, if one is open.
    pub fn batch_started_at(&self) -> (r: Option<u64>)
        ensures
            r == self.started_at(),
    {
        self.batch_started_at
    }

    /// Takes out every tracked handle and closes the batch, giving the time
    /// that passed from its start to `now`.
    pub fn drain(&mut self, now: u64) -> (r: Drained<H>)
        requires
            old(self).wf(),
        ensures
            final(self).wf(),
            r.handles@ == old(self).pending(),
            final(self).pending() == Seq::<H>::empty(),
            final(self).started_at() is None,
            r.elapsed == match old(self).started_at() {
                Some(start) => Some(elapsed_between(start, now)),
                None => None,
            },
    {
        let mut handles: Vec<H> = Vec::new();
        std::mem::swap(&mut handles, &mut self.handles);
        let elapsed = match self.batch_started_at {
            Some(start) => Some(
                if now >= start {
                    now - start
                } else {
                    0
                },
            ),
            None => None,
        };
        self.batch_started_at = None;
        Drained { handles, elapsed }
    }
}

} // verus!
