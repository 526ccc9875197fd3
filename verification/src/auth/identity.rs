//! The identity table as the resolver sees it: one row for each external
//! subject ever seen, found by the subject claim, which no two rows share.
//!
//! This is the model of the durable storage that the resolver's guarantees
//! are stated against. Rows are inserted and never updated or deleted.

use vstd::prelude::*;

use crate::auth::error::StorageError;
use crate::auth::resolver::ResolverView;
use crate::auth::resolver::StepView;
use crate::auth::resolver::StorageAnswerView;
use crate::auth::resolver::StorageRequestView;

verus! {

/// One row: an internal identifier and the external subject claim it
/// belongs to.
pub struct Identity {
    pub id: Seq<char>,
    pub claim: Seq<char>,
}

/// Whether the claim has a row.
pub open spec fn holds(table: Seq<Identity>, claim: Seq<char>) -> bool {
    exists|i: int| 0 <= i < table.len() && (#[trigger] table[i]).claim == claim
}

/// The identifier in a row of the claim.
pub open spec fn id_of(table: Seq<Identity>, claim: Seq<char>) -> Seq<char> {
    table[choose|i: int| 0 <= i < table.len() && (#[trigger] table[i]).claim == claim].id
}

/// The uniqueness constraint: no two rows share a subject claim.
pub open spec fn unique_claims(table: Seq<Identity>) -> bool {
    forall|i: int, j: int|
        0 <= i < j < table.len() ==> (#[trigger] table[i]).claim != (#[trigger] table[j]).claim
}

/// No two rows share an internal identifier.
pub open spec fn unique_ids(table: Seq<Identity>) -> bool {
    forall|i: int, j: int|
        0 <= i < j < table.len() ==> (#[trigger] table[i]).id != (#[trigger] table[j]).id
}

/// No row has the identifier.
pub open spec fn unused(table: Seq<Identity>, id: Seq<char>) -> bool {
    forall|i: int| 0 <= i < table.len() ==> (#[trigger] table[i]).id != id
}

/// Every row has an identifier of at least one character.
pub open spec fn named(table: Seq<Identity>) -> bool {
    forall|i: int| 0 <= i < table.len() ==> (#[trigger] table[i]).id.len() > 0
}

/// The claim has exactly one row.
pub open spec fn one_row(table: Seq<Identity>, claim: Seq<char>) -> bool {
    exists|i: int|
        {
            &&& 0 <= i < table.len()
            &&& (#[trigger] table[i]).claim == claim
            &&& forall|j: int|
                0 <= j < table.len() && j != i ==> (#[trigger] table[j]).claim != claim
        }
}

/// What a storage that holds `table` and keeps the uniqueness constraint
/// does with a request when it does not fail: the table afterwards, and the
/// answer. An insert is all or nothing.
pub open spec fn serve(table: Seq<Identity>, request: StorageRequestView) -> (
    Seq<Identity>,
    StorageAnswerView,
) {
    match request {
        StorageRequestView::Lookup { claim } => if holds(table, claim) {
            (table, StorageAnswerView::Found { id: id_of(table, claim) })
        } else {
            (table, StorageAnswerView::NotFound)
        },
        StorageRequestView::Insert { id, claim } => if holds(table, claim) {
            (table, StorageAnswerView::Conflict)
        } else {
            (table.push(Identity { id, claim }), StorageAnswerView::Inserted)
        },
    }
}

/// Where a resolution stands after the storage has served its pending
/// request.
pub open spec fn served(table: Seq<Identity>, state: ResolverView, candidate: Seq<char>) -> (
    Seq<Identity>,
    StepView,
) {
    let (after, answer) = serve(table, state.pending());
    (after, state.step(answer, candidate))
}

/// One resolution, run to its end against a storage that serves it
/// without failing: the table afterwards, and the result. `candidate` is
/// the new identifier that is offered where the claim has no row.
pub open spec fn resolve(table: Seq<Identity>, claim: Seq<char>, candidate: Seq<char>) -> (
    Seq<Identity>,
    Result<Seq<char>, StorageError>,
) {
    let (first, looked) = served(table, ResolverView::Looking { claim }, candidate);
    match looked {
        StepView::Done(result) => (first, result),
        StepView::Next(inserting) => {
            let (second, inserted) = served(first, inserting, candidate);
            match inserted {
                StepView::Done(result) => (second, result),
                StepView::Next(rereading) => {
                    let (third, reread) = served(second, rereading, candidate);
                    match reread {
                        StepView::Done(result) => (third, result),
                        StepView::Next(_) => (third, Err(StorageError::UnexpectedAnswer)),
                    }
                },
            }
        },
    }
}

/// In a table that keeps the uniqueness constraint, the identifier of a
/// claim is that of its one row.
pub proof fn lemma_id_of_row(table: Seq<Identity>, i: int)
    requires
        unique_claims(table),
        0 <= i < table.len(),
    ensures
        holds(table, table[i].claim),
        id_of(table, table[i].claim) == table[i].id,
        one_row(table, table[i].claim),
{
    let claim = table[i].claim;
    let k = choose|k: int| 0 <= k < table.len() && (#[trigger] table[k]).claim == claim;
    assert(k == i) by {
        if k < i {
            assert(table[k].claim != table[i].claim);
        } else if i < k {
            assert(table[i].claim != table[k].claim);
        }
    }
    assert forall|j: int| 0 <= j < table.len() && j != i implies (#[trigger] table[j]).claim
        != claim by {
        if j < i {
            assert(table[j].claim != table[i].claim);
        } else {
            assert(table[i].claim != table[j].claim);
        }
    }
}

/// Serving a request keeps the uniqueness constraint, keeps every row,
/// and adds at most the row of an insert.
pub proof fn lemma_serve(table: Seq<Identity>, request: StorageRequestView)
    requires
        unique_claims(table),
    ensures
        unique_claims(serve(table, request).0),
        serve(table, request).0 == table || (request matches StorageRequestView::Insert {
            id,
            claim,
        } && !holds(table, claim) && serve(table, request).0 == table.push(
            Identity { id, claim },
        )),
        forall|claim: Seq<char>|
            holds(table, claim) ==> holds(serve(table, request).0, claim) && id_of(
                serve(table, request).0,
                claim,
            ) == id_of(table, claim),
{
    let after = serve(table, request).0;
    if after != table {
        let row = after[table.len() as int];
        assert forall|i: int, j: int| 0 <= i < j < after.len() implies (#[trigger] after[i]).claim
            != (#[trigger] after[j]).claim by {
            if j == table.len() {
                assert(after[i] == table[i]);
            } else {
                assert(after[i] == table[i] && after[j] == table[j]);
            }
        }
        assert forall|claim: Seq<char>| holds(table, claim) implies holds(after, claim) && id_of(
            after,
            claim,
        ) == id_of(table, claim) by {
            let i = choose|i: int| 0 <= i < table.len() && (#[trigger] table[i]).claim == claim;
            assert(after[i] == table[i]);
            lemma_id_of_row(table, i);
            lemma_id_of_row(after, i);
        }
    }
}

} // verus!
