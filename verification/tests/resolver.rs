use backend::auth::error::StorageError;
use backend::auth::resolver::Resolver;
use backend::auth::resolver::Step;
use backend::auth::resolver::StorageAnswer;
use backend::auth::resolver::StorageRequest;
use backend::identifier::IDENTIFIER_LENGTH;

/// A table of identities that keeps the uniqueness constraint.
struct Table {
    rows: Vec<(String, String)>,
}

impl Table {
    fn new() -> Table {
        Table { rows: Vec::new() }
    }

    fn serve(&mut self, request: StorageRequest) -> StorageAnswer {
        match request {
            StorageRequest::Lookup { claim } => {
                match self.rows.iter().find(|row| row.1 == claim) {
                    Some(row) => StorageAnswer::Found { id: row.0.clone() },
                    None => StorageAnswer::NotFound,
                }
            }
            StorageRequest::Insert { id, claim } => {
                if self.rows.iter().any(|row| row.1 == claim) {
                    StorageAnswer::Conflict
                } else {
                    self.rows.push((id, claim));
                    StorageAnswer::Inserted
                }
            }
        }
    }

    fn rows_of(&self, claim: &str) -> usize {
        self.rows.iter().filter(|row| row.1 == claim).count()
    }
}

fn resolve(table: &mut Table, claim: &str) -> Result<String, StorageError> {
    let mut resolver = Resolver::start(claim.to_string());
    loop {
        let answer = table.serve(resolver.request());
        match resolver.answer(answer) {
            Step::Next(next) => resolver = next,
            Step::Done(result) => return result,
        }
    }
}

fn turn(table: &mut Table, resolver: Resolver) -> Step {
    let answer = table.serve(resolver.request());
    resolver.answer(answer)
}

#[test]
fn first_resolution_provisions_an_identifier() {
    let mut table = Table::new();
    let id = resolve(&mut table, "ext-123").unwrap();
    assert_eq!(id.len(), IDENTIFIER_LENGTH);
    assert_eq!(table.rows, vec![(id, "ext-123".to_string())]);
}

#[test]
fn resolution_is_idempotent() {
    let mut table = Table::new();
    let first = resolve(&mut table, "ext-123").unwrap();
    let second = resolve(&mut table, "ext-123").unwrap();
    assert_eq!(first, second);
    assert_eq!(table.rows_of("ext-123"), 1);
    assert_eq!(table.rows.len(), 1);
}

#[test]
fn distinct_claims_get_distinct_identifiers() {
    let mut table = Table::new();
    let one = resolve(&mut table, "ext-1").unwrap();
    let other = resolve(&mut table, "ext-2").unwrap();
    assert_ne!(one, other);
    assert_eq!(resolve(&mut table, "ext-1").unwrap(), one);
    assert_eq!(table.rows.len(), 2);
}

#[test]
fn existing_row_is_returned_without_an_insert() {
    let mut table = Table::new();
    table.rows.push(("u-1".to_string(), "ext-123".to_string()));
    let resolver = Resolver::start("ext-123".to_string());
    assert!(matches!(resolver.request(), StorageRequest::Lookup { claim } if claim == "ext-123"));
    match turn(&mut table, resolver) {
        Step::Done(Ok(id)) => assert_eq!(id, "u-1"),
        _ => panic!("the lookup ends the resolution"),
    }
    assert_eq!(table.rows.len(), 1);
}

#[test]
fn lost_race_is_reconciled_by_reading_the_winner() {
    let mut table = Table::new();
    let first = Resolver::start("ext-123".to_string());
    let second = Resolver::start("ext-123".to_string());
    let first = match turn(&mut table, first) {
        Step::Next(next) => next,
        _ => panic!("the first lookup finds nothing"),
    };
    let second = match turn(&mut table, second) {
        Step::Next(next) => next,
        _ => panic!("the second lookup finds nothing"),
    };
    let winner = match turn(&mut table, second) {
        Step::Done(Ok(id)) => id,
        _ => panic!("the first insert wins"),
    };
    let first = match turn(&mut table, first) {
        Step::Next(next) => next,
        _ => panic!("the second insert is refused and the row is read back"),
    };
    assert!(matches!(first.request(), StorageRequest::Lookup { claim } if claim == "ext-123"));
    let loser = match turn(&mut table, first) {
        Step::Done(Ok(id)) => id,
        _ => panic!("the winner's row is found"),
    };
    assert_eq!(winner, loser);
    assert_eq!(table.rows_of("ext-123"), 1);
}

#[test]
fn concurrent_first_uses_agree_under_every_schedule_tried() {
    for seed in 0..40u64 {
        let mut table = Table::new();
        let mut running: Vec<Option<Resolver>> =
            (0..5).map(|_| Some(Resolver::start("ext-123".to_string()))).collect();
        let mut results: Vec<Option<String>> = vec![None; 5];
        let mut state = seed * 2654435761 + 1;
        while running.iter().any(|r| r.is_some()) {
            state = state.wrapping_mul(6364136223846793005).wrapping_add(1442695040888963407);
            let pick = (state >> 33) as usize % 5;
            if let Some(resolver) = running[pick].take() {
                match turn(&mut table, resolver) {
                    Step::Next(next) => running[pick] = Some(next),
                    Step::Done(result) => results[pick] = Some(result.unwrap()),
                }
            }
        }
        let first = results[0].clone().unwrap();
        assert!(results.iter().all(|r| r.as_ref() == Some(&first)));
        assert_eq!(table.rows_of("ext-123"), 1);
        assert_eq!(table.rows.len(), 1);
    }
}

#[test]
fn storage_failure_ends_the_resolution() {
    let resolver = Resolver::start("ext-123".to_string());
    assert!(matches!(
        resolver.answer(StorageAnswer::Failed),
        Step::Done(Err(StorageError::Unavailable))
    ));
    let resolver = Resolver::start("ext-123".to_string());
    let inserting = match resolver.answer(StorageAnswer::NotFound) {
        Step::Next(next) => next,
        _ => panic!("an insert is pending"),
    };
    assert!(matches!(
        inserting.answer(StorageAnswer::Failed),
        Step::Done(Err(StorageError::Unavailable))
    ));
}

#[test]
fn row_lost_after_a_conflict_is_an_error() {
    let resolver = Resolver::start("ext-123".to_string());
    let inserting = match resolver.answer(StorageAnswer::NotFound) {
        Step::Next(next) => next,
        _ => panic!("an insert is pending"),
    };
    let rereading = match inserting.answer(StorageAnswer::Conflict) {
        Step::Next(next) => next,
        _ => panic!("a lookup is pending"),
    };
    assert!(matches!(
        rereading.answer(StorageAnswer::NotFound),
        Step::Done(Err(StorageError::LostRow))
    ));
}

#[test]
fn answer_that_fits_no_pending_request_is_an_error() {
    let resolver = Resolver::start("ext-123".to_string());
    assert!(matches!(
        resolver.answer(StorageAnswer::Inserted),
        Step::Done(Err(StorageError::UnexpectedAnswer))
    ));
    let resolver = Resolver::start("ext-123".to_string());
    assert!(matches!(
        resolver.answer(StorageAnswer::Conflict),
        Step::Done(Err(StorageError::UnexpectedAnswer))
    ));
    let resolver = Resolver::start("ext-123".to_string());
    let inserting = match resolver.answer(StorageAnswer::NotFound) {
        Step::Next(next) => next,
        _ => panic!("an insert is pending"),
    };
    assert!(matches!(
        inserting.answer(StorageAnswer::Found { id: "u".to_string() }),
        Step::Done(Err(StorageError::UnexpectedAnswer))
    ));
}

#[test]
fn offered_identifier_is_the_one_inserted() {
    let resolver = Resolver::start("ext-123".to_string());
    assert!(resolver.provisions(&StorageAnswer::NotFound));
    assert!(!resolver.provisions(&StorageAnswer::Failed));
    let inserting = match resolver.advance(StorageAnswer::NotFound, "u-7".to_string()) {
        Step::Next(next) => next,
        _ => panic!("an insert is pending"),
    };
    assert!(!inserting.provisions(&StorageAnswer::NotFound));
    match inserting.request() {
        StorageRequest::Insert { id, claim } => {
            assert_eq!(id, "u-7");
            assert_eq!(claim, "ext-123");
        }
        _ => panic!("an insert is pending"),
    }
    match inserting.advance(StorageAnswer::Inserted, "unused".to_string()) {
        Step::Done(Ok(id)) => assert_eq!(id, "u-7"),
        _ => panic!("the insert ends the resolution"),
    }
}

#[test]
fn new_identifiers_differ() {
    let mut table = Table::new();
    let mut seen: Vec<String> = Vec::new();
    for i in 0..50 {
        let id = resolve(&mut table, &format!("ext-{}", i)).unwrap();
        assert!(!seen.contains(&id));
        assert!(id.chars().all(|c| c == '-' || c.is_ascii_hexdigit()));
        seen.push(id);
    }
}
