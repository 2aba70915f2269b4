//! The cross-thread side of the scope pipeline: the producer publishes
//! sample snapshots through a wait-free triple buffer, and cloneable
//! consumer handles poll for the newest one.
//!
//! The carrier itself is the `triple_buffer` crate; this module is the
//! crate's trusted boundary around it.  What the handoff discipline
//! guarantees is stated and proved on the single-threaded model in
//! [`crate::channel`]; here each wrapper claims only what holds of
//! every outcome of the cross-thread calls.

use vstd::prelude::*;

verus! {

/// Declaration of the producer half of the `triple_buffer` crate.
#[verifier::external_type_specification]
#[verifier::external_body]
#[verifier::reject_recursive_types(T)]
pub struct ExInput<T: Send>(triple_buffer::Input<T>);

/// Declaration of the consumer half of the `triple_buffer` crate.
#[verifier::external_type_specification]
#[verifier::external_body]
#[verifier::reject_recursive_types(T)]
pub struct ExOutput<T: Send>(triple_buffer::Output<T>);

/// Relies on triple_buffer::Input::input_buffer_mut and
/// triple_buffer::Input::publish: the producer's slot is filled with
/// the samples and swapped into the published role, replacing whatever
/// snapshot was published before, never blocking.
#[verifier::external_body]
pub(crate) fn publish_samples(input: &mut triple_buffer::Input<Vec<i64>>, samples: &Vec<i64>) {
    let slot = input.input_buffer_mut();
    slot.clear();
    slot.extend_from_slice(samples);
    input.publish();
}

/// The consumer half of the carrier, shared behind a lock so that
/// clones of one source poll the same stream.  Verus sees this cell as
/// opaque: the lock and the carrier half live outside what it models.
#[verifier::external_body]
pub struct SourceCell {
    cell: std::sync::Arc<std::sync::Mutex<triple_buffer::Output<Vec<i64>>>>,
}

impl Clone for SourceCell {
    /// Relies on std Arc::clone: the clone polls the very same stream.
    #[verifier::external_body]
    fn clone(&self) -> (r: SourceCell) {
        SourceCell { cell: std::sync::Arc::clone(&self.cell) }
    }
}

impl SourceCell {
    /// Relies on std Arc::new and Mutex::new: wraps the consumer half
    /// for shared polling.
    #[verifier::external_body]
    fn new(output: triple_buffer::Output<Vec<i64>>) -> SourceCell {
        SourceCell { cell: std::sync::Arc::new(std::sync::Mutex::new(output)) }
    }

    /// Relies on std Mutex::lock and on triple_buffer::Output::update
    /// and output_buffer: when the producer has published since the
    /// last poll, the newest snapshot is fetched and returned; with no
    /// new publish, or with the lock poisoned, nothing is.
    #[verifier::external_body]
    fn poll_latest(&self) -> Option<Vec<i64>> {
        match self.cell.lock() {
            Ok(mut out) => {
                if out.update() {
                    Some(out.output_buffer().clone())
                } else {
                    None
                }
            }
            Err(_) => None,
        }
    }
}

/// The authority that issues stream identifiers: an explicit counter
/// its owner threads through construction, so no hidden global state
/// is involved.  Identifiers are handed out strictly increasing, so
/// every stream gets its own.
pub struct SourceIdAllocator {
    /// The next identifier to hand out.
    pub next: u64,
}

impl SourceIdAllocator {
    /// A fresh authority; the first identifier issued is 1.
    pub fn new() -> (a: SourceIdAllocator)
        ensures
            a.next == 1,
    {
        SourceIdAllocator { next: 1 }
    }

    /// Issue the next identifier; each is larger than every one issued
    /// before.
    pub fn fresh(&mut self) -> (id: u64)
        requires
            old(self).next < u64::MAX,
        ensures
            id == old(self).next,
            final(self).next == old(self).next + 1,
    {
        let id: u64 = self.next;
        self.next = self.next + 1;
        id
    }
}

/// A snapshot of samples on its way to the scope display.
#[derive(Clone, Debug)]
pub struct ScopeBuffer {
    /// The samples, in fixed-point amplitude.
    pub samples: Vec<i64>,
}

impl ScopeBuffer {
    /// Wrap a buffer of samples.
    pub fn new(samples: Vec<i64>) -> (b: ScopeBuffer)
        ensures
            b.samples == samples,
    {
        ScopeBuffer { samples }
    }
}

/// What the consumer hands on for a snapshot the carrier delivered:
/// the snapshot, wrapped, whatever it holds.  Nothing is filtered or
/// dropped, so a poll returns exactly what the producer published.
pub fn snapshot_from_polled(samples: Vec<i64>) -> (r: Option<ScopeBuffer>)
    ensures
        r matches Some(b) && b.samples == samples,
{
    Some(ScopeBuffer { samples })
}

/// A cloneable consumer handle on one published stream, tagged with an
/// identifier so downstream logic can tell a replacement stream from
/// the same one.
#[derive(Clone)]
pub struct ScopeSource {
    cell: SourceCell,
    id: u64,
}

impl ScopeSource {
    /// The identifier the source was built with.
    pub closed spec fn spec_id(self) -> u64 {
        self.id
    }

    /// Wrap the consumer half of a carrier under the given identifier.
    ///
    /// The identifier tells consumers whether two handles watch the
    /// same underlying stream, so whoever builds the carrier should
    /// issue a fresh identifier for each new one.
    pub fn new(output: triple_buffer::Output<Vec<i64>>, id: u64) -> (s: ScopeSource)
        ensures
            s.spec_id() == id,
    {
        ScopeSource { cell: SourceCell::new(output), id }
    }

    /// The identifier of the underlying stream.
    pub fn id(&self) -> (r: u64)
        ensures
            r == self.spec_id(),
    {
        self.id
    }

    /// Poll for new data: the latest unread snapshot when the
    /// producer has published since the last poll on this stream,
    /// else nothing.  Whether a snapshot arrived depends on the
    /// producer thread, so nothing of it can be promised here; what is
    /// returned for each polled buffer is fixed by
    /// [`snapshot_from_polled`], which wraps it unconditionally — an
    /// empty published snapshot arrives like any other.
    pub fn poll(&self) -> (r: Option<ScopeBuffer>)
    {
        match self.cell.poll_latest() {
            Some(samples) => snapshot_from_polled(samples),
            None => None,
        }
    }
}

} // verus!
