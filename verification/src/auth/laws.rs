//! What holds of every authentication: the guarantees of the entrance and of
//! the resolver, stated over the model of the identity table and proved.

use vstd::prelude::*;

use crate::auth::claims::claims_in;
use crate::auth::claims::expired;
use crate::auth::claims::premature;
use crate::auth::error::StorageError;
use crate::auth::entrance::admission;
use crate::auth::entrance::bearer;
use crate::auth::entrance::settled;
use crate::auth::entrance::EntranceView;
use crate::auth::entrance::UNAUTHORIZED;
use crate::auth::identity::holds;
use crate::auth::identity::id_of;
use crate::auth::identity::lemma_id_of_row;
use crate::auth::identity::lemma_serve;
use crate::auth::identity::named;
use crate::auth::identity::one_row;
use crate::auth::identity::resolve;
use crate::auth::identity::served;
use crate::auth::identity::unique_claims;
use crate::auth::identity::unique_ids;
use crate::auth::identity::unused;
use crate::auth::identity::Identity;
use crate::auth::keys::first_with_id;
use crate::auth::keys::SigningKeyView;
use crate::auth::resolver::ResolverView;
use crate::auth::resolver::StepView;
use crate::auth::token::decoded_header;
use crate::auth::token::opened_claims;
use crate::auth::token::validation;
use crate::auth::token::verifiable;

verus! {

/// One whole authentication against a storage that serves it without
/// failing: the table afterwards, and where the request stands at the end.
pub open spec fn authentication(
    authorization: Option<Seq<char>>,
    keys: Seq<SigningKeyView>,
    audience: Seq<char>,
    now: u64,
    table: Seq<Identity>,
    candidate: Seq<char>,
) -> (Seq<Identity>, EntranceView) {
    match admission(authorization, keys, audience, now) {
        EntranceView::Resolving(resolver) => {
            let (after, result) = resolve(table, resolver.claim(), candidate);
            (after, settled(StepView::Done(result)))
        },
        refused => (table, refused),
    }
}

/// A resolution against a table that keeps the uniqueness constraint
/// succeeds, with the identifier of the claim's one row. Where the claim
/// had a row the table is unchanged; where it had none, the table has
/// gained the row of the claim with the offered identifier.
pub proof fn lemma_resolve(table: Seq<Identity>, claim: Seq<char>, candidate: Seq<char>)
    requires
        unique_claims(table),
    ensures
        unique_claims(resolve(table, claim, candidate).0),
        one_row(resolve(table, claim, candidate).0, claim),
        resolve(table, claim, candidate).1 == Ok::<Seq<char>, StorageError>(
            id_of(resolve(table, claim, candidate).0, claim),
        ),
        holds(table, claim) ==> resolve(table, claim, candidate).0 == table,
        !holds(table, claim) ==> resolve(table, claim, candidate).0 == table.push(
            Identity { id: candidate, claim },
        ),
{
    let after = resolve(table, claim, candidate).0;
    if holds(table, claim) {
        let i = choose|i: int| 0 <= i < table.len() && (#[trigger] table[i]).claim == claim;
        lemma_id_of_row(table, i);
    } else {
        let row = Identity { id: candidate, claim };
        lemma_serve(table, ResolverView::Inserting { claim, id: candidate }.pending());
        assert(after == table.push(row));
        assert(after[table.len() as int] == row);
        lemma_id_of_row(after, table.len() as int);
    }
}

/// What makes a token invalid: a header that cannot be read, or names no
/// key, or names a key that the key set does not have; a signature that
/// does not verify under the named key; claims that cannot be read, or do
/// not list the required audience, or do not admit the present.
pub open spec fn flawed(
    token: Seq<char>,
    keys: Seq<SigningKeyView>,
    audience: Seq<char>,
    now: u64,
) -> bool {
    match decoded_header(token) {
        None => true,
        Some(header) => match header.kid {
            None => true,
            Some(kid) => match first_with_id(keys, kid) {
                None => true,
                Some(i) => !verifiable(keys[i].document, header.alg) || match opened_claims(
                    token,
                    keys[i].document,
                    header.alg,
                ) {
                    None => true,
                    Some(document) => match claims_in(document) {
                        None => true,
                        Some(claims) => !claims.aud.contains(audience) || expired(claims, now)
                            || premature(claims, now),
                    },
                },
            },
        },
    }
}

/// The validation fails on the invalid tokens and on no others.
pub proof fn law_validation_fails_on_flawed_tokens(
    token: Seq<char>,
    keys: Seq<SigningKeyView>,
    audience: Seq<char>,
    now: u64,
)
    ensures
        validation(token, keys, audience, now) is Err <==> flawed(token, keys, audience, now),
{
}

/// A valid token is admitted: where the authorization header carries a
/// token that is not invalid, the authentication ends with an identity,
/// and its identifier is not empty. The identifiers in the table, and the
/// one that is offered, are taken not to be empty.
pub proof fn law_valid_token_is_admitted(
    authorization: Option<Seq<char>>,
    keys: Seq<SigningKeyView>,
    audience: Seq<char>,
    now: u64,
    table: Seq<Identity>,
    candidate: Seq<char>,
)
    requires
        bearer(authorization) matches Some(token) && !flawed(token, keys, audience, now),
        unique_claims(table),
        named(table),
        candidate.len() > 0,
    ensures
        authentication(authorization, keys, audience, now, table, candidate).1 matches EntranceView::Admitted {
            id,
        } && id.len() > 0,
{
    let token = bearer(authorization)->0;
    let sub = validation(token, keys, audience, now)->Ok_0;
    lemma_resolve(table, sub, candidate);
    let after = resolve(table, sub, candidate).0;
    let i = choose|i: int| 0 <= i < after.len() && (#[trigger] after[i]).claim == sub;
    if holds(table, sub) {
        assert(after[i].id.len() > 0);
    } else {
        lemma_id_of_row(after, table.len() as int);
        assert(after[table.len() as int].id == candidate);
    }
}

/// An invalid token is turned away as unauthenticated, and nothing is
/// written: where the authorization header carries no bearer credential or
/// an invalid token, the authentication ends with a rejection whose status
/// is `UNAUTHORIZED`, and the table is as it was.
pub proof fn law_invalid_token_writes_nothing(
    authorization: Option<Seq<char>>,
    keys: Seq<SigningKeyView>,
    audience: Seq<char>,
    now: u64,
    table: Seq<Identity>,
    candidate: Seq<char>,
)
    requires
        bearer(authorization) matches Some(token) ==> flawed(token, keys, audience, now),
    ensures
        authentication(authorization, keys, audience, now, table, candidate).0 == table,
        authentication(authorization, keys, audience, now, table, candidate).1 matches EntranceView::Rejected(
            rejection,
        ) && rejection.spec_status() == UNAUTHORIZED,
{
}

/// Idempotence: resolving the same subject claim twice, one after the
/// other, returns the same identifier both times, and the second
/// resolution leaves the table as the first left it, with one row of the
/// claim.
pub proof fn law_resolution_is_idempotent(
    table: Seq<Identity>,
    claim: Seq<char>,
    first_candidate: Seq<char>,
    second_candidate: Seq<char>,
)
    requires
        unique_claims(table),
    ensures
        ({
            let (once, first) = resolve(table, claim, first_candidate);
            let (twice, second) = resolve(once, claim, second_candidate);
            &&& first is Ok
            &&& second == first
            &&& twice == once
            &&& one_row(twice, claim)
        }),
{
    lemma_resolve(table, claim, first_candidate);
    let once = resolve(table, claim, first_candidate).0;
    lemma_resolve(once, claim, second_candidate);
}

/// Uniqueness: two distinct subject claims never resolve to the same
/// identifier, as long as no two rows share an identifier and each new
/// identifier that is offered is one that no row has.
pub proof fn law_distinct_claims_distinct_identifiers(
    table: Seq<Identity>,
    one: Seq<char>,
    other: Seq<char>,
    one_candidate: Seq<char>,
    other_candidate: Seq<char>,
)
    requires
        unique_claims(table),
        unique_ids(table),
        one != other,
        unused(table, one_candidate),
        unused(resolve(table, one, one_candidate).0, other_candidate),
    ensures
        ({
            let (once, first) = resolve(table, one, one_candidate);
            let (twice, second) = resolve(once, other, other_candidate);
            &&& first is Ok
            &&& second is Ok
            &&& first != second
            &&& unique_ids(twice)
        }),
{
    lemma_resolve(table, one, one_candidate);
    let once = resolve(table, one, one_candidate).0;
    lemma_unique_ids(table, one, one_candidate);
    lemma_resolve(once, other, other_candidate);
    let twice = resolve(once, other, other_candidate).0;
    lemma_unique_ids(once, other, other_candidate);
    let i = choose|i: int| 0 <= i < once.len() && (#[trigger] once[i]).claim == one;
    lemma_id_of_row(once, i);
    let j = choose|j: int| 0 <= j < twice.len() && (#[trigger] twice[j]).claim == other;
    lemma_id_of_row(twice, j);
    assert(twice[i] == once[i]);
    assert(i != j);
    if i < j {
        assert(twice[i].id != twice[j].id);
    } else {
        assert(twice[j].id != twice[i].id);
    }
}

/// A resolution that offers an identifier that no row has keeps the
/// identifiers of the rows distinct.
pub proof fn lemma_unique_ids(table: Seq<Identity>, claim: Seq<char>, candidate: Seq<char>)
    requires
        unique_claims(table),
        unique_ids(table),
        unused(table, candidate),
    ensures
        unique_ids(resolve(table, claim, candidate).0),
{
    lemma_resolve(table, claim, candidate);
    let after = resolve(table, claim, candidate).0;
    if !holds(table, claim) {
        assert forall|i: int, j: int| 0 <= i < j < after.len() implies (#[trigger] after[i]).id
            != (#[trigger] after[j]).id by {
            if j == table.len() {
                assert(after[i] == table[i]);
            } else {
                assert(after[i] == table[i] && after[j] == table[j]);
            }
        }
    }
}

/// One of several resolutions that share a storage.
pub enum Task {
    /// The resolution has a request pending.
    Running(ResolverView),
    /// The resolution is over, with this result.
    Finished(Result<Seq<char>, StorageError>),
}

/// One turn of a schedule: the task whose pending request the storage
/// serves next, and the new identifier that the task offers should its
/// lookup find no row.
pub struct Turn {
    pub task: int,
    pub candidate: Seq<char>,
}

/// The table and the tasks after one turn. A turn of a task that is over,
/// or that is none of the tasks, changes nothing.
pub open spec fn take_turn(table: Seq<Identity>, tasks: Seq<Task>, turn: Turn) -> (
    Seq<Identity>,
    Seq<Task>,
) {
    if 0 <= turn.task < tasks.len() && tasks[turn.task] is Running {
        let (after, step) = served(table, tasks[turn.task]->Running_0, turn.candidate);
        let task = match step {
            StepView::Next(resolver) => Task::Running(resolver),
            StepView::Done(result) => Task::Finished(result),
        };
        (after, tasks.update(turn.task, task))
    } else {
        (table, tasks)
    }
}

/// The table and the tasks after the turns of a schedule, in their order.
pub open spec fn interleave(table: Seq<Identity>, tasks: Seq<Task>, schedule: Seq<Turn>) -> (
    Seq<Identity>,
    Seq<Task>,
)
    decreases schedule.len(),
{
    if schedule.len() == 0 {
        (table, tasks)
    } else {
        let (after, moved) = take_turn(table, tasks, schedule[0]);
        interleave(after, moved, schedule.drop_first())
    }
}

/// Tasks that resolve one claim agree with the table: a task that is over
/// has the identifier of the claim's row, and a task that reads a row back
/// has a row to read.
pub open spec fn agreeing(table: Seq<Identity>, tasks: Seq<Task>, claim: Seq<char>) -> bool {
    &&& unique_claims(table)
    &&& forall|k: int|
        0 <= k < tasks.len() ==> match #[trigger] tasks[k] {
            Task::Running(ResolverView::Rereading { claim: c }) => c == claim && holds(
                table,
                claim,
            ),
            Task::Running(resolver) => resolver.claim() == claim,
            Task::Finished(result) => holds(table, claim) && result == Ok::<
                Seq<char>,
                StorageError,
            >(id_of(table, claim)),
        }
}

/// A turn keeps the tasks in agreement with the table.
pub proof fn lemma_turn_keeps_agreement(
    table: Seq<Identity>,
    tasks: Seq<Task>,
    claim: Seq<char>,
    turn: Turn,
)
    requires
        agreeing(table, tasks, claim),
    ensures
        agreeing(take_turn(table, tasks, turn).0, take_turn(table, tasks, turn).1, claim),
        take_turn(table, tasks, turn).1.len() == tasks.len(),
{
    let (after, moved) = take_turn(table, tasks, turn);
    if 0 <= turn.task < tasks.len() && tasks[turn.task] is Running {
        let resolver = tasks[turn.task]->Running_0;
        lemma_serve(table, resolver.pending());
        if after != table {
            assert(after == table.push(Identity { id: resolver->Inserting_id, claim }));
            assert(after[table.len() as int].claim == claim);
            lemma_id_of_row(after, table.len() as int);
        }
        assert forall|k: int| 0 <= k < moved.len() implies match #[trigger] moved[k] {
            Task::Running(ResolverView::Rereading { claim: c }) => c == claim && holds(
                after,
                claim,
            ),
            Task::Running(resolver) => resolver.claim() == claim,
            Task::Finished(result) => holds(after, claim) && result == Ok::<
                Seq<char>,
                StorageError,
            >(id_of(after, claim)),
        } by {
            if k != turn.task {
                assert(moved[k] == tasks[k]);
            }
        }
    }
}

/// A schedule keeps the tasks in agreement with the table.
pub proof fn lemma_schedule_keeps_agreement(
    table: Seq<Identity>,
    tasks: Seq<Task>,
    claim: Seq<char>,
    schedule: Seq<Turn>,
)
    requires
        agreeing(table, tasks, claim),
    ensures
        agreeing(interleave(table, tasks, schedule).0, interleave(table, tasks, schedule).1, claim),
        interleave(table, tasks, schedule).1.len() == tasks.len(),
    decreases schedule.len(),
{
    if schedule.len() > 0 {
        lemma_turn_keeps_agreement(table, tasks, claim, schedule[0]);
        let (after, moved) = take_turn(table, tasks, schedule[0]);
        lemma_schedule_keeps_agreement(after, moved, claim, schedule.drop_first());
    }
}

/// Concurrency: any number of first resolutions of one subject claim that
/// no row has yet, with their requests served in any order, all return
/// the same identifier, none of them an error, and the claim has exactly
/// one row once one of them is over.
pub proof fn law_concurrent_first_use(
    table: Seq<Identity>,
    claim: Seq<char>,
    resolutions: nat,
    schedule: Seq<Turn>,
)
    requires
        unique_claims(table),
        !holds(table, claim),
    ensures
        ({
            let started = Seq::new(
                resolutions,
                |k: int| Task::Running(ResolverView::Looking { claim }),
            );
            let (after, tasks) = interleave(table, started, schedule);
            &&& tasks.len() == resolutions
            &&& unique_claims(after)
            &&& forall|k: int|
                0 <= k < tasks.len() && (#[trigger] tasks[k]) is Finished ==> {
                    &&& one_row(after, claim)
                    &&& tasks[k] == Task::Finished(Ok(id_of(after, claim)))
                }
        }),
{
    let started = Seq::new(resolutions, |k: int| Task::Running(ResolverView::Looking { claim }));
    assert(agreeing(table, started, claim));
    lemma_schedule_keeps_agreement(table, started, claim, schedule);
    let (after, tasks) = interleave(table, started, schedule);
    assert forall|k: int| 0 <= k < tasks.len() && (#[trigger] tasks[k]) is Finished implies {
        &&& one_row(after, claim)
        &&& tasks[k] == Task::Finished(Ok(id_of(after, claim)))
    } by {
        let i = choose|i: int| 0 <= i < after.len() && (#[trigger] after[i]).claim == claim;
        lemma_id_of_row(after, i);
    }
}

} // verus!
