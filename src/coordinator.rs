//! The three operations that the host calls: how many downloads are
//! pending, queue one more, and advance the download subsystem.
use vstd::prelude::*;

use crate::path::{normalize_path, normalized, path_accepted, trim_base_url, trimmed_base};
use crate::registry::{elapsed_between, DownloadRegistry, Drained};
use crate::worker::{DownloadRequest, TransportFlags};

verus! {

/// One call that the host made into the coordinator, as it made it.
pub enum HostCall {
    Enqueue { url: Seq<char>, path: Seq<char>, flags: TransportFlags },
    Poll,
}

/// A request that the host's own transport keeps: no base URL, or no HTTP.
pub open spec fn bypasses(url: Seq<char>, flags: TransportFlags) -> bool {
    trimmed_base(url).len() == 0 || !flags.dispatch_via_http
}

/// A request that becomes a fetch of its own.
pub open spec fn dispatches(url: Seq<char>, path: Seq<char>, flags: TransportFlags) -> bool {
    !bypasses(url, flags) && path_accepted(path)
}

/// The fetches dispatched since the last poll, after the calls `calls`.
pub open spec fn undrained(calls: Seq<HostCall>) -> nat
    decreases calls.len(),
{
    if calls.len() == 0 {
        0
    } else {
        let before = undrained(calls.drop_last());
        match calls.last() {
            HostCall::Enqueue { url, path, flags } => if dispatches(url, path, flags) {
                before + 1
            } else {
                before
            },
            HostCall::Poll => 0,
        }
    }
}

/// Every call in `calls` is an enqueue that dispatches a fetch.
pub open spec fn all_dispatch(calls: Seq<HostCall>) -> bool {
    forall|i: int|
        0 <= i < calls.len() ==> (#[trigger] calls[i] matches HostCall::Enqueue { url, path, flags }
            && dispatches(url, path, flags))
}

/// Dispatching enqueues that follow a history with nothing outstanding are
/// exactly what is outstanding afterwards, and a poll after them leaves
/// nothing outstanding.
pub proof fn lemma_batch_counts(before: Seq<HostCall>, enqueues: Seq<HostCall>)
    requires
        undrained(before) == 0,
        all_dispatch(enqueues),
    ensures
        undrained(before + enqueues) == enqueues.len(),
        undrained(before + enqueues + seq![HostCall::Poll]) == 0,
    decreases enqueues.len(),
{
    if enqueues.len() > 0 {
        let rest = enqueues.drop_last();
        assert forall|i: int| 0 <= i < rest.len() implies (#[trigger] rest[i] matches HostCall::Enqueue {
            url,
            path,
            flags,
        } && dispatches(url, path, flags)) by {
            assert(rest[i] == enqueues[i]);
        }
        lemma_batch_counts(before, rest);
        assert((before + enqueues).drop_last() =~= before + rest);
        assert((before + enqueues).last() == enqueues[enqueues.len() - 1]);
    } else {
        assert(before + enqueues =~= before);
    }
    assert((before + enqueues + seq![HostCall::Poll]).last() == HostCall::Poll);
}

/// After N dispatching enqueues that follow a poll (or a fresh start), the
/// coordinator holds exactly N outstanding fetches, so the next poll takes
/// out exactly N handles and leaves the registry empty with no batch open.
pub proof fn lemma_poll_after_enqueues<H>(c: &Coordinator<H>, before: Seq<HostCall>, enqueues: Seq<HostCall>)
    requires
        c.wf(),
        c.history() == before + enqueues,
        undrained(before) == 0,
        all_dispatch(enqueues),
    ensures
        c.pending().len() == enqueues.len(),
{
    lemma_batch_counts(before, enqueues);
}

/// What became of one enqueue call.
#[derive(Debug)]
pub enum EnqueueAction {
    /// The host's own enqueue must be called with the arguments unchanged.
    CallOriginal,
    /// The request was dropped; holds its normalized path.
    Rejected(String),
    /// A fetch was started and registered; holds its relative path.
    Dispatched(String),
}

/// Serves the host's download calls from a registry of running fetches,
/// each tracked by a handle of type `H`.
pub struct Coordinator<H> {
    registry: DownloadRegistry<H>,
    calls: Ghost<Seq<HostCall>>,
}

impl<H> Coordinator<H> {
    /// The handles of fetches not yet drained, oldest first.
    pub closed spec fn pending(&self) -> Seq<H> {
        self.registry.pending()
    }

    /// When the current batch began.
    pub closed spec fn batch_started(&self) -> Option<u64> {
        self.registry.started_at()
    }

    /// Every call the host has made so far.
    pub closed spec fn history(&self) -> Seq<HostCall> {
        self.calls@
    }

    /// A batch is open exactly while fetches are outstanding, and those are
    /// the ones dispatched since the last poll.
    pub open spec fn wf(&self) -> bool {
        &&& (self.batch_started() is Some <==> self.pending().len() > 0)
        &&& self.pending().len() == undrained(self.history())
    }

    /// A coordinator that has served no call yet.
    pub fn new() -> (r: Self)
        ensures
            r.wf(),
            r.history() == Seq::<HostCall>::empty(),
            r.pending() == Seq::<H>::empty(),
            r.batch_started() is None,
    {
        Coordinator { registry: DownloadRegistry::new(), calls: Ghost(Seq::empty()) }
    }

    /// The number of fetches not yet drained.
    pub fn pending_count(&self) -> (r: usize)
        ensures
            r == self.pending().len(),
    {
        self.registry.size()
    }

    /// When the current batch began, if one is open.
    pub fn batch_started_at(&self) -> (r: Option<u64>)
        ensures
            r == self.batch_started(),
    {
        self.registry.batch_started_at()
    }

    /// The host's pending count: what its own transport still has
    /// (`original_pending`) plus the fetches not yet drained.
    pub fn queue_size(&self, original_pending: i64) -> (r: i64)
        requires
            self.wf(),
            original_pending + self.pending().len() <= i64::MAX,
        ensures
            r == original_pending + undrained(self.history()),
            r == original_pending + self.pending().len(),
    {
        let total: i128 = original_pending as i128 + self.registry.size() as i128;
        total as i64
    }

    /// Serves one enqueue call. Requests without a base URL or without HTTP
    /// are left to the host; requests whose path climbs out of the download
    /// directory are dropped; any other starts a fetch through `spawn` at
    /// time `now` and tracks its handle.
    pub fn enqueue<F>(
        &mut self,
        url: &str,
        path: &str,
        flags: TransportFlags,
        now: u64,
        spawn: F,
    ) -> (r: EnqueueAction) where F: FnOnce(DownloadRequest) -> H
        requires
            old(self).wf(),
            forall|req: DownloadRequest| spawn.requires((req,)),
        ensures
            final(self).wf(),
            final(self).history() == old(self).history().push(
                HostCall::Enqueue { url: url@, path: path@, flags },
            ),
            bypasses(url@, flags) ==> r is CallOriginal,
            !bypasses(url@, flags) && !path_accepted(path@) ==> (r matches EnqueueAction::Rejected(
                p,
            ) && p@ == normalized(path@)),
            !dispatches(url@, path@, flags) ==> final(self).pending() == old(self).pending()
                && final(self).batch_started() == old(self).batch_started(),
            dispatches(url@, path@, flags) ==> (r matches EnqueueAction::Dispatched(p) && p@
                == normalized(path@)),
            dispatches(url@, path@, flags) ==> exists|req: DownloadRequest, h: H|
                {
                    &&& req.remote_base_url@ == trimmed_base(url@)
                    &&& req.relative_path@ == normalized(path@)
                    &&& req.transport_flags == flags
                    &&& spawn.ensures((req,), h)
                    &&& final(self).pending() == old(self).pending().push(h)
                },
            dispatches(url@, path@, flags) ==> final(self).batch_started() == if old(
                self,
            ).pending().len() == 0 {
                Some(now)
            } else {
                old(self).batch_started()
            },
    {
        let ghost call = HostCall::Enqueue { url: url@, path: path@, flags };
        self.calls = Ghost(self.calls@.push(call));
        assert(self.calls@.drop_last() =~= old(self).calls@);
        let base = trim_base_url(url);
        if base.as_str().is_empty() || !flags.dispatch_via_http {
            return EnqueueAction::CallOriginal;
        }
        match DownloadRequest::from_raw(url, path, flags) {
            None => EnqueueAction::Rejected(normalize_path(path)),
            Some(req) => {
                let shown = String::from_str(req.relative_path.as_str());
                let ghost witness = req;
                let handle = spawn(req);
                self.registry.add(handle, now);
                assert(spawn.ensures((witness,), handle));
                EnqueueAction::Dispatched(shown)
            },
        }
    }

    /// Serves one poll call: takes out every fetch dispatched since the last
    /// poll, closes the batch, and gives the time from its start to `now`.
    /// The caller joins the handles and then asks the host's own poll.
    pub fn poll(&mut self, now: u64) -> (r: Drained<H>)
        requires
            old(self).wf(),
        ensures
            final(self).wf(),
            final(self).history() == old(self).history().push(HostCall::Poll),
            r.handles@ == old(self).pending(),
            r.handles@.len() == undrained(old(self).history()),
            final(self).pending() == Seq::<H>::empty(),
            final(self).batch_started() is None,
            r.elapsed == match old(self).batch_started() {
                Some(start) => Some(elapsed_between(start, now)),
                None => None,
            },
    {
        self.calls = Ghost(self.calls@.push(HostCall::Poll));
        assert(self.calls@.drop_last() =~= old(self).calls@);
        self.registry.drain(now)
    }
}

} // verus!
