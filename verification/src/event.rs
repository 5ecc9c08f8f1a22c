//! Catalog-refresh events and their opaque payloads.
//!
//! The coordinator never inspects a payload: it only clones it and forwards
//! each copy verbatim, so the payload is modelled as an opaque byte buffer.

use vstd::prelude::*;

verus! {

/// An opaque catalog payload. The coordinator treats its contents as data to
/// be cloned and forwarded verbatim; it neither inspects nor validates them.
pub struct Payload {
    pub bytes: Vec<u8>,
}

impl View for Payload {
    type V = Seq<u8>;

    open spec fn view(&self) -> Seq<u8> {
        self.bytes@
    }
}

impl Payload {
    /// Wrap a byte buffer as an opaque payload.
    pub fn from_bytes(bytes: Vec<u8>) -> (p: Payload)
        ensures
            p@ == bytes@,
    {
        Payload { bytes }
    }

    /// Borrow the payload's bytes.
    pub fn bytes(&self) -> (b: &Vec<u8>)
        ensures
            b@ == self@,
    {
        &self.bytes
    }

    /// Unwrap the payload into its byte buffer.
    pub fn into_bytes(self) -> (b: Vec<u8>)
        ensures
            b@ == self@,
    {
        self.bytes
    }
}

impl Clone for Payload {
    /// An independent, unaliased copy holding the same bytes.
    fn clone(&self) -> (p: Payload)
        ensures
            p@ == self@,
    {
        let mut out: Vec<u8> = Vec::new();
        let mut i: usize = 0;
        while i < self.bytes.len()
            invariant
                i <= self.bytes.len(),
                out@ == self.bytes@.take(i as int),
            decreases self.bytes.len() - i,
        {
            out.push(self.bytes[i]);
            i = i + 1;
        }
        assert(out@ =~= self.bytes@);
        Payload { bytes: out }
    }
}

/// A catalog-refresh notification: either the table-source catalog or the
/// function-source catalog has changed, and the attached payload is the new
/// snapshot of that catalog.
pub enum RefreshEvent {
    TableSourcesRefresh { table_sources: Payload },
    FunctionSourcesRefresh { function_sources: Payload },
}

/// The mathematical value of a `RefreshEvent`: which catalog is refreshed,
/// and the payload's bytes.
pub enum RefreshEventView {
    TableSourcesRefresh { table_sources: Seq<u8> },
    FunctionSourcesRefresh { function_sources: Seq<u8> },
}

impl RefreshEventView {
    /// The payload bytes carried by the event, whichever variant it is.
    pub open spec fn payload(self) -> Seq<u8> {
        match self {
            RefreshEventView::TableSourcesRefresh { table_sources } => table_sources,
            RefreshEventView::FunctionSourcesRefresh { function_sources } => function_sources,
        }
    }

    /// Whether the event refreshes the table-source catalog.
    pub open spec fn is_table_sources(self) -> bool {
        self is TableSourcesRefresh
    }
}

impl View for RefreshEvent {
    type V = RefreshEventView;

    open spec fn view(&self) -> RefreshEventView {
        match self {
            RefreshEvent::TableSourcesRefresh { table_sources } => (
                RefreshEventView::TableSourcesRefresh { table_sources: table_sources@ }
            ),
            RefreshEvent::FunctionSourcesRefresh { function_sources } => (
                RefreshEventView::FunctionSourcesRefresh { function_sources: function_sources@ }
            ),
        }
    }
}

impl RefreshEvent {
    /// Whether the event refreshes the table-source catalog (otherwise it
    /// refreshes the function-source catalog).
    pub fn is_table_sources(&self) -> (r: bool)
        ensures
            r == self@.is_table_sources(),
    {
        match self {
            RefreshEvent::TableSourcesRefresh { .. } => true,
            RefreshEvent::FunctionSourcesRefresh { .. } => false,
        }
    }

    /// Borrow the event's payload, whichever variant it is.
    pub fn payload(&self) -> (p: &Payload)
        ensures
            p@ == self@.payload(),
    {
        match self {
            RefreshEvent::TableSourcesRefresh { table_sources } => table_sources,
            RefreshEvent::FunctionSourcesRefresh { function_sources } => function_sources,
        }
    }

    /// Unwrap the event into its payload, whichever variant it is.
    pub fn into_payload(self) -> (p: Payload)
        ensures
            p@ == self@.payload(),
    {
        match self {
            RefreshEvent::TableSourcesRefresh { table_sources } => table_sources,
            RefreshEvent::FunctionSourcesRefresh { function_sources } => function_sources,
        }
    }
}

impl Clone for RefreshEvent {
    /// The same variant carrying an independent copy of the payload.
    fn clone(&self) -> (e: RefreshEvent)
        ensures
            e@ == self@,
    {
        match self {
            RefreshEvent::TableSourcesRefresh { table_sources } => (
                RefreshEvent::TableSourcesRefresh { table_sources: table_sources.clone() }
            ),
            RefreshEvent::FunctionSourcesRefresh { function_sources } => (
                RefreshEvent::FunctionSourcesRefresh { function_sources: function_sources.clone() }
            ),
        }
    }
}

} // verus!
