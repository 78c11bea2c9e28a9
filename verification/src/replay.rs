//! Replay: an operation log folded over a starting text, and the check
//! that the outcome is the expected text.

use vstd::prelude::*;
use crate::document::applied;
use crate::document::in_bounds;
use crate::document::Buffer;
use crate::document::Document;
use crate::operation::Edit;
use crate::operation::Operation;
use crate::wire::decodes_all;
use crate::wire::log_records;
use crate::wire::parse_operations;
use crate::wire::WireError;

verus! {

/// What each operation of a log means, in order.
pub open spec fn edits(operations: Seq<Operation>) -> Seq<Edit> {
    operations.map_values(|operation: Operation| operation@)
}

/// The buffer after the edits were applied to it one by one, first to last.
pub open spec fn replayed(start: Buffer, log: Seq<Edit>) -> Buffer
    decreases log.len(),
{
    if log.len() == 0 {
        start
    } else {
        applied(replayed(start, log.drop_last()), log.last())
    }
}

/// Replaying one more edit is replaying the others and then applying it.
pub proof fn replay_step(start: Buffer, log: Seq<Edit>, n: int)
    requires
        0 <= n < log.len(),
    ensures
        replayed(start, log.take(n + 1)) == applied(replayed(start, log.take(n)), log[n]),
{
    assert(log.take(n + 1).drop_last() =~= log.take(n));
}

/// Replaying two logs one after the other is replaying them joined.
pub proof fn replay_of_joined_logs(start: Buffer, first: Seq<Edit>, second: Seq<Edit>)
    ensures
        replayed(start, first + second) == replayed(replayed(start, first), second),
    decreases second.len(),
{
    if second.len() == 0 {
        assert(first + second =~= first);
    } else {
        replay_of_joined_logs(start, first, second.drop_last());
        assert((first + second).drop_last() =~= first + second.drop_last());
    }
}

/// Replay never moves the cursor out of the text.
pub proof fn replay_keeps_cursor_in_bounds(start: Buffer, log: Seq<Edit>)
    requires
        in_bounds(start),
    ensures
        in_bounds(replayed(start, log)),
    decreases log.len(),
{
    if log.len() > 0 {
        replay_keeps_cursor_in_bounds(start, log.drop_last());
    }
}

/// A replay of the empty log changes nothing.
pub proof fn replay_of_nothing(start: Buffer)
    ensures
        replayed(start, Seq::<Edit>::empty()) == start,
{
}

/// One verification run: a starting document, the expected document and
/// the log that should lead from the one to the other.
#[derive(Debug)]
pub struct Verify {
    stale: Document,
    latest: Document,
    operations: Vec<Operation>,
}

impl Default for Verify {
    fn default() -> (r: Self)
        ensures
            r.stale() == (Buffer { content: Seq::<char>::empty(), pos: 0 }),
            r.latest() == Seq::<char>::empty(),
            r.operations().len() == 0,
    {
        Verify { stale: Document::new(), latest: Document::new(), operations: Vec::new() }
    }
}

impl Verify {
    #[verifier::type_invariant]
    spec fn starts_in_bounds(&self) -> bool {
        self.stale.well_formed()
    }

    /// The starting state.
    pub closed spec fn stale(&self) -> Buffer {
        self.stale@
    }

    /// The expected text.
    pub closed spec fn latest(&self) -> Seq<char> {
        self.latest.content@
    }

    /// The log.
    pub closed spec fn operations(&self) -> Seq<Operation> {
        self.operations@
    }

    /// A run over a log that is already at hand.
    pub fn from_operations(stale: &str, latest: &str, operations: Vec<Operation>) -> (r: Self)
        ensures
            r.stale() == (Buffer { content: stale@, pos: 0 }),
            r.latest() == latest@,
            r.operations() == operations@,
    {
        Verify { stale: Document::from(stale), latest: Document::from(latest), operations }
    }

    /// A run over a log in its JSON form, which must be a well-formed list.
    pub fn new(stale: &str, latest: &str, operations_json: &str) -> (r: Self)
        requires
            log_records(operations_json@) is Ok,
        ensures
            r.stale() == (Buffer { content: stale@, pos: 0 }),
            r.latest() == latest@,
            log_records(operations_json@) matches Ok(records) && decodes_all(
                records,
                r.operations(),
            ),
    {
        let operations = match parse_operations(operations_json) {
            Ok(operations) => operations,
            // Ruled out by the precondition.
            Err(_) => Vec::new(),
        };
        Verify::from_operations(stale, latest, operations)
    }

    /// A run over a log in its JSON form, or the reason why the text is no
    /// log.
    pub fn try_new(stale: &str, latest: &str, operations_json: &str) -> (r: Result<Self, WireError>)
        ensures
            match r {
                Ok(run) => {
                    &&& run.stale() == (Buffer { content: stale@, pos: 0 })
                    &&& run.latest() == latest@
                    &&& log_records(operations_json@) matches Ok(records) && decodes_all(
                        records,
                        run.operations(),
                    )
                },
                Err(e) => log_records(operations_json@) == Err::<Seq<serde_json::Value>, WireError>(
                    e,
                ),
            },
    {
        match parse_operations(operations_json) {
            Ok(_) => Ok(Verify::new(stale, latest, operations_json)),
            Err(e) => Err(e),
        }
    }

    /// Replays the log on a copy of the starting document and says whether
    /// the text that comes out is the expected one. The cursor is not
    /// compared.
    pub fn execute(&self) -> (r: bool)
        ensures
            r == (replayed(self.stale(), edits(self.operations())).content == self.latest()),
    {
        proof {
            use_type_invariant(self);
        }
        let mut document = Document { pos: self.stale.pos, content: self.stale.content.clone() };
        let mut i: usize = 0;
        assert(self.operations@.take(0) =~= Seq::<Operation>::empty());
        while i < self.operations.len()
            invariant
                i <= self.operations.len(),
                document.well_formed(),
                document@ == replayed(self.stale@, edits(self.operations@).take(i as int)),
            decreases self.operations.len() - i,
        {
            proof {
                replay_step(self.stale@, edits(self.operations@), i as int);
            }
            document.transform(&self.operations[i]);
            i = i + 1;
        }
        assert(edits(self.operations@).take(i as int) =~= edits(self.operations@));
        document == self.latest
    }
}

} // verus!
