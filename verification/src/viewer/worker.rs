use vstd::prelude::*;

use crate::viewer::model::{CatalogSnapshot, DetailRequest, DiscoveryRequest, OverviewRequest};

verus! {

/// Monotonically increasing identity of one read request.
#[derive(Clone, Copy, Debug, PartialEq, Eq, Structural, PartialOrd, Ord, Hash)]
pub struct Generation(pub u64);

/// The independent result streams the viewer keeps.
#[derive(Clone, Copy, Debug, PartialEq, Eq, Structural, Hash)]
pub enum ReadKind {
    Catalog,
    Overview,
    Detail,
}

/// Storage work accepted by the read worker.
#[derive(Debug, PartialEq)]
pub enum ReadRequest {
    Discover(DiscoveryRequest),
    Overview(OverviewRequest),
    Detail(DetailRequest),
}

/// The stream a request belongs to.
pub open spec fn request_kind(request: ReadRequest) -> ReadKind {
    match request {
        ReadRequest::Discover(_) => ReadKind::Catalog,
        ReadRequest::Overview(_) => ReadKind::Overview,
        ReadRequest::Detail(_) => ReadKind::Detail,
    }
}

impl ReadRequest {
    pub fn kind(&self) -> (kind: ReadKind)
        ensures
            kind == request_kind(*self),
    {
        match self {
            ReadRequest::Discover(_) => ReadKind::Catalog,
            ReadRequest::Overview(_) => ReadKind::Overview,
            ReadRequest::Detail(_) => ReadKind::Detail,
        }
    }
}

/// An immutable result payload; `C` is the curve snapshot type.
pub enum ReadSnapshot<C> {
    Catalog(CatalogSnapshot),
    Overview(C),
    Detail(C),
}

/// The stream a snapshot belongs to.
pub open spec fn snapshot_kind<C>(snapshot: ReadSnapshot<C>) -> ReadKind {
    match snapshot {
        ReadSnapshot::Catalog(_) => ReadKind::Catalog,
        ReadSnapshot::Overview(_) => ReadKind::Overview,
        ReadSnapshot::Detail(_) => ReadKind::Detail,
    }
}

impl<C> ReadSnapshot<C> {
    pub fn kind(&self) -> (kind: ReadKind)
        ensures
            kind == snapshot_kind(*self),
    {
        match self {
            ReadSnapshot::Catalog(_) => ReadKind::Catalog,
            ReadSnapshot::Overview(_) => ReadKind::Overview,
            ReadSnapshot::Detail(_) => ReadKind::Detail,
        }
    }
}

/// One generation-tagged result, or the rendered message of its failure.
pub struct ReadEvent<C> {
    pub generation: Generation,
    pub kind: ReadKind,
    pub result: Result<ReadSnapshot<C>, String>,
}

/// Returned when the read worker no longer accepts requests.
#[derive(Clone, Copy, Debug, PartialEq, Eq, Structural)]
pub struct WorkerClosed;

/// One request with the generation it was submitted under.
#[derive(Debug, PartialEq)]
pub struct TaggedRequest {
    pub generation: Generation,
    pub request: ReadRequest,
}

/// Requests waiting for the worker: at most one per stream, the newest.
pub struct PendingRequests {
    pub discover: Option<TaggedRequest>,
    pub overview: Option<TaggedRequest>,
    pub detail: Option<TaggedRequest>,
}

impl PendingRequests {
    /// The waiting request of one stream.
    pub open spec fn slot(self, kind: ReadKind) -> Option<TaggedRequest> {
        match kind {
            ReadKind::Catalog => self.discover,
            ReadKind::Overview => self.overview,
            ReadKind::Detail => self.detail,
        }
    }

    /// Every waiting request sits in the slot of its own stream.
    pub open spec fn well_formed(self) -> bool {
        &&& (self.discover matches Some(t) ==> request_kind(t.request) == ReadKind::Catalog)
        &&& (self.overview matches Some(t) ==> request_kind(t.request) == ReadKind::Overview)
        &&& (self.detail matches Some(t) ==> request_kind(t.request) == ReadKind::Detail)
    }

    pub fn new() -> (pending: PendingRequests)
        ensures
            pending.discover is None,
            pending.overview is None,
            pending.detail is None,
    {
        PendingRequests { discover: None, overview: None, detail: None }
    }

    /// Queues a request, replacing the waiting one of its stream unless that
    /// one has a newer generation.
    pub fn push(&mut self, tagged: TaggedRequest)
        ensures
            old(self).well_formed() ==> final(self).well_formed(),
            forall|kind: ReadKind|
                kind != request_kind(tagged.request) ==> #[trigger] final(self).slot(kind) == old(
                    self,
                ).slot(kind),
            ({
                let kind = request_kind(tagged.request);
                match old(self).slot(kind) {
                    Some(waiting) if tagged.generation.0 < waiting.generation.0 => final(self).slot(
                        kind,
                    ) == Some(waiting),
                    _ => final(self).slot(kind) == Some(tagged),
                }
            }),
            final(self).slot(request_kind(tagged.request)) matches Some(kept) && kept.generation.0
                >= tagged.generation.0 && (old(self).slot(request_kind(tagged.request)) matches Some(
                waiting) ==> kept.generation.0 >= waiting.generation.0),
    {
        let slot = match tagged.request {
            ReadRequest::Discover(_) => &mut self.discover,
            ReadRequest::Overview(_) => &mut self.overview,
            ReadRequest::Detail(_) => &mut self.detail,
        };
        let replace = match slot {
            Some(waiting) => tagged.generation.0 >= waiting.generation.0,
            None => true,
        };
        if replace {
            *slot = Some(tagged);
        }
    }

    /// Takes the next request: catalog reads first, then overview, then detail.
    pub fn take_next(&mut self) -> (next: Option<TaggedRequest>)
        ensures
            old(self).well_formed() ==> final(self).well_formed(),
            match old(self).discover {
                Some(t) => next == Some(t) && final(self).discover is None && final(self).overview
                    == old(self).overview && final(self).detail == old(self).detail,
                None => match old(self).overview {
                    Some(t) => next == Some(t) && final(self).discover is None
                        && final(self).overview is None && final(self).detail == old(self).detail,
                    None => next == old(self).detail && final(self).discover is None
                        && final(self).overview is None && final(self).detail is None,
                },
            },
    {
        if self.discover.is_some() {
            return self.discover.take();
        }
        if self.overview.is_some() {
            return self.overview.take();
        }
        self.detail.take()
    }
}

impl Default for PendingRequests {
    fn default() -> (pending: PendingRequests)
        ensures
            pending.discover is None,
            pending.overview is None,
            pending.detail is None,
    {
        PendingRequests::new()
    }
}

} // verus!
