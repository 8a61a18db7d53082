//! Request and response envelope types shared with the archive server.

use vstd::prelude::*;

verus! {

/// Per-kind sets of column names the client wants returned.
///
/// Each list is read with set semantics: the order of names does not
/// matter, and an empty list means "omit this kind entirely".
#[derive(Debug, Clone)]
pub struct FieldSelection {
    pub block: Vec<String>,
    pub transaction: Vec<String>,
    pub log: Vec<String>,
}

/// The set of names a selection list holds, as mathematical values.
pub open spec fn names_of(v: Seq<String>) -> Set<Seq<char>> {
    v.map_values(|s: String| s@).to_set()
}

impl FieldSelection {
    /// A selection that omits every kind.
    pub fn empty() -> (r: FieldSelection)
        ensures
            r.block@ =~= Seq::<String>::empty(),
            r.transaction@ =~= Seq::<String>::empty(),
            r.log@ =~= Seq::<String>::empty(),
    {
        FieldSelection { block: Vec::new(), transaction: Vec::new(), log: Vec::new() }
    }
}

/// A request descriptor: a block range plus the columns wanted.
///
/// `from_block` is inclusive; `to_block` is exclusive and, when absent,
/// the query is open-ended and is clamped to the archive height sampled
/// at stream start.  Per-kind filters are opaque to the streaming core and
/// stay with the transport layer.
#[derive(Debug, Clone)]
pub struct Query {
    pub from_block: u64,
    pub to_block: Option<u64>,
    pub field_selection: FieldSelection,
}

impl Query {
    /// The range invariant: a bounded query never ends before it starts.
    pub open spec fn wf(&self) -> bool {
        match self.to_block {
            Some(t) => self.from_block <= t,
            None => true,
        }
    }

    /// A query over `[from_block, to_block)` selecting nothing.
    pub fn new(from_block: u64, to_block: Option<u64>) -> (r: Query)
        requires
            to_block matches Some(t) ==> from_block <= t,
        ensures
            r.wf(),
            r.from_block == from_block,
            r.to_block == to_block,
            names_of(r.field_selection.block@) =~= Set::<Seq<char>>::empty(),
            names_of(r.field_selection.transaction@) =~= Set::<Seq<char>>::empty(),
            names_of(r.field_selection.log@) =~= Set::<Seq<char>>::empty(),
    {
        Query { from_block, to_block, field_selection: FieldSelection::empty() }
    }
}

/// The archive's reported tip: `{ height }`, where an absent height is
/// read as zero.
#[derive(Debug, Clone)]
pub struct ArchiveHeight {
    pub height: Option<u64>,
}

impl ArchiveHeight {
    /// The height the client works with: the reported one, or zero when
    /// the server reported none.
    pub fn height_or_zero(&self) -> (r: u64)
        ensures
            r == self.spec_height(),
    {
        match self.height {
            Some(h) => h,
            None => 0,
        }
    }

    /// An absent height is treated as zero.
    pub open spec fn spec_height(&self) -> u64 {
        match self.height {
            Some(h) => h,
            None => 0u64,
        }
    }
}

/// Server marker for a chain reorganisation touching delivered blocks.
///
/// Its unwinding semantics are left open by the server contract; the core
/// only carries it through to the consumer.
#[derive(Debug, Clone)]
pub struct RollbackGuard {
    pub block_number: u64,
}

} // verus!
