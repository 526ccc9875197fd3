//! Schema migrations: which files are migrations, and in what order they
//! are applied.
//!
//! A migration is a file named `V<version>__<name>.sql`. The migrations
//! are applied in the order of their versions, each one once.

use vstd::prelude::*;
use vstd::string::*;

use crate::clock::now_text;
use crate::text::chars_of;
use crate::text::comes_before;
use crate::text::end_without_suffixes;
use crate::text::ends_with;
use crate::text::find_from;
use crate::text::first_occurrence;
use crate::text::occurs;
use crate::text::occurs_at;
use crate::text::precedes;
use crate::text::start_without_leading;
use crate::text::without_leading;
use crate::text::without_suffixes;

verus! {

/// One migration: its version, its name and the statements to execute.
pub struct Migration {
    version: String,
    name: String,
    sql: String,
}

pub struct MigrationView {
    pub version: Seq<char>,
    pub name: Seq<char>,
    pub sql: Seq<char>,
}

impl View for Migration {
    type V = MigrationView;

    closed spec fn view(&self) -> MigrationView {
        MigrationView { version: self.version@, name: self.name@, sql: self.sql@ }
    }
}

/// The views of the migrations of a list.
pub open spec fn migration_views(migrations: Seq<Migration>) -> Seq<MigrationView> {
    migrations.map_values(|migration: Migration| migration@)
}

/// The version and the name that a file name gives a migration, or none
/// where the file is no migration. The name must begin with `V` and end
/// with `.sql`. Without every `.sql` at its end it must hold `__` exactly
/// once, counted from the left: the version is what stands before, without
/// every `V` at its start, and the name is what stands behind.
pub open spec fn named(file_name: Seq<char>) -> Option<(Seq<char>, Seq<char>)> {
    if file_name.len() == 0 || file_name[0] != 'V' || !".sql"@.is_suffix_of(file_name) {
        None
    } else {
        let stem = without_suffixes(file_name, ".sql"@);
        if exists|at: int| first_occurrence(stem, "__"@, at) {
            let at = choose|at: int| first_occurrence(stem, "__"@, at);
            let rest = stem.skip(at + "__"@.len());
            if occurs(rest, "__"@) {
                None
            } else {
                Some((without_leading(stem.take(at), 'V'), rest))
            }
        } else {
            None
        }
    }
}

/// A version and a name that were or were not read, by their characters.
pub open spec fn optional_name(name: Option<(String, String)>) -> Option<(Seq<char>, Seq<char>)> {
    match name {
        Some((version, name)) => Some((version@, name@)),
        None => None,
    }
}

/// The version and the name that a file name gives a migration, or none
/// where the file is no migration.
pub fn parse_file_name(file_name: &str) -> (parsed: Option<(String, String)>)
    ensures
        optional_name(parsed) == named(file_name@),
{
    let text = chars_of(file_name);
    if text.len() == 0 || text[0] != 'V' {
        return None;
    }
    if !ends_with(file_name, ".sql") {
        return None;
    }
    let suffix = chars_of(".sql");
    let separator = chars_of("__");
    proof {
        reveal_strlit(".sql");
        reveal_strlit("__");
    }
    let end = end_without_suffixes(&text, &suffix);
    let stem_text = file_name.substring_char(0, end);
    let stem = chars_of(stem_text);
    assert(stem@ == without_suffixes(file_name@, ".sql"@));
    let at = match find_from(&stem, &separator, 0) {
        Some(at) => at,
        None => {
            return None;
        },
    };
    proof {
        assert(first_occurrence(stem@, "__"@, at as int));
        let chosen = choose|k: int| first_occurrence(stem@, "__"@, k);
        assert(chosen == at);
    }
    let behind = at + separator.len();
    let ghost rest = stem@.skip(behind as int);
    let again = find_from(&stem, &separator, behind);
    proof {
        assert forall|k: int| 0 <= k implies occurs_at(rest, "__"@, k) == occurs_at(
            stem@,
            "__"@,
            behind + k,
        ) by {
            if k + 2 <= rest.len() {
                assert(rest.subrange(k, k + 2) =~= stem@.subrange(behind + k, behind + k + 2));
            }
        }
    }
    match again {
        Some(second) => {
            assert(occurs_at(rest, "__"@, second - behind));
            None
        },
        None => {
            let start = start_without_leading(&stem, 'V', at);
            let version = stem_text.substring_char(start, at);
            let name = stem_text.substring_char(behind, stem.len());
            proof {
                assert(name@ =~= rest);
                assert(!occurs(rest, "__"@));
            }
            Some((version.to_owned(), name.to_owned()))
        },
    }
}

impl Migration {
    /// A migration of a version and a name, with its statements.
    pub fn new(version: String, name: String, sql: String) -> (migration: Migration)
        ensures
            migration@ == (MigrationView { version: version@, name: name@, sql: sql@ }),
    {
        Migration { version, name, sql }
    }

    /// The migration that a file is: none where its name is not that of a
    /// migration.
    pub fn from_file(file_name: &str, sql: String) -> (migration: Option<Migration>)
        ensures
            match migration {
                Some(migration) => named(file_name@) matches Some((version, name)) && migration@
                    == (MigrationView { version, name, sql: sql@ }),
                None => named(file_name@) is None,
            },
    {
        match parse_file_name(file_name) {
            Some((version, name)) => Some(Migration { version, name, sql }),
            None => None,
        }
    }

    pub fn version(&self) -> (version: &str)
        ensures
            version@ == self@.version,
    {
        self.version.as_str()
    }

    pub fn name(&self) -> (name: &str)
        ensures
            name@ == self@.name,
    {
        self.name.as_str()
    }

    pub fn sql(&self) -> (sql: &str)
        ensures
            sql@ == self@.sql,
    {
        self.sql.as_str()
    }

    /// What the changelog records of the migration once it is applied: its
    /// version, its name and the present time. It unwinds where the clock
    /// stands before the epoch.
    pub fn record(&self) -> (entry: (String, String, String))
        ensures
            entry.0@ == self@.version,
            entry.1@ == self@.name,
    {
        (self.version.clone(), self.name.clone(), now_text())
    }
}

/// A list of migrations in the order of their versions with one more put
/// in: behind every migration whose version does not come after its own.
pub open spec fn placed(sorted: Seq<MigrationView>, migration: MigrationView) -> Seq<
    MigrationView,
>
    decreases sorted.len(),
{
    if sorted.len() > 0 && precedes(migration.version, sorted.last().version) {
        placed(sorted.drop_last(), migration).push(sorted.last())
    } else {
        sorted.push(migration)
    }
}

/// The migrations in the order of their versions. Migrations of one
/// version keep the order they came in.
pub open spec fn ordered(migrations: Seq<MigrationView>) -> Seq<MigrationView>
    decreases migrations.len(),
{
    if migrations.len() == 0 {
        Seq::empty()
    } else {
        placed(ordered(migrations.drop_last()), migrations.last())
    }
}

/// Whether no migration of a list stands before one whose version comes
/// before its own.
pub open spec fn in_order(migrations: Seq<MigrationView>) -> bool {
    forall|i: int, j: int|
        0 <= i < j < migrations.len() ==> !precedes(
            (#[trigger] migrations[j]).version,
            (#[trigger] migrations[i]).version,
        )
}

/// Of three texts the first does not come after the third where it does
/// not come after the second and the second not after the third.
pub proof fn lemma_precedes_transitive(a: Seq<char>, b: Seq<char>, c: Seq<char>)
    requires
        !precedes(b, a),
        !precedes(c, b),
    ensures
        !precedes(c, a),
    decreases a.len(),
{
    if a.len() > 0 {
        assert(b.len() > 0 && c.len() > 0);
        if a[0] == b[0] && b[0] == c[0] {
            lemma_precedes_transitive(a.drop_first(), b.drop_first(), c.drop_first());
        } else {
            vstd::utf8::char_u32_cast(a[0], a[0] as u32);
            vstd::utf8::char_u32_cast(b[0], b[0] as u32);
            vstd::utf8::char_u32_cast(c[0], c[0] as u32);
        }
    }
}

/// Of two texts at most one comes before the other.
pub proof fn lemma_precedes_asymmetric(a: Seq<char>, b: Seq<char>)
    ensures
        precedes(a, b) ==> !precedes(b, a),
    decreases a.len(),
{
    if a.len() > 0 && b.len() > 0 && a[0] == b[0] {
        lemma_precedes_asymmetric(a.drop_first(), b.drop_first());
    }
}

/// Putting a migration into a list that is in order keeps the order, adds
/// one migration and loses none.
pub proof fn lemma_placed(sorted: Seq<MigrationView>, migration: MigrationView)
    requires
        in_order(sorted),
    ensures
        in_order(placed(sorted, migration)),
        placed(sorted, migration).to_multiset() == sorted.to_multiset().insert(migration),
        placed(sorted, migration).len() == sorted.len() + 1,
    decreases sorted.len(),
{
    broadcast use vstd::seq_lib::group_to_multiset_ensures;

    let out = placed(sorted, migration);
    if sorted.len() > 0 && precedes(migration.version, sorted.last().version) {
        let head = sorted.drop_last();
        let last = sorted.last();
        assert forall|i: int, j: int| 0 <= i < j < head.len() implies !precedes(
            (#[trigger] head[j]).version,
            (#[trigger] head[i]).version,
        ) by {
            assert(head[i] == sorted[i] && head[j] == sorted[j]);
        }
        lemma_placed(head, migration);
        let inner = placed(head, migration);
        assert(sorted == head.push(last));
        assert forall|i: int, j: int| 0 <= i < j < out.len() implies !precedes(
            (#[trigger] out[j]).version,
            (#[trigger] out[i]).version,
        ) by {
            if j < inner.len() {
                assert(out[i] == inner[i] && out[j] == inner[j]);
            } else {
                assert(out[i] == inner[i]);
                assert(inner.to_multiset().count(inner[i]) > 0);
                if inner[i] == migration {
                    lemma_precedes_asymmetric(migration.version, last.version);
                } else {
                    assert(head.to_multiset().count(inner[i]) > 0);
                    let k = choose|k: int| 0 <= k < head.len() && head[k] == inner[i];
                    assert(sorted[k] == inner[i]);
                }
            }
        }
        assert(out.to_multiset() =~= sorted.to_multiset().insert(migration));
    } else {
        assert forall|i: int, j: int| 0 <= i < j < out.len() implies !precedes(
            (#[trigger] out[j]).version,
            (#[trigger] out[i]).version,
        ) by {
            if j < sorted.len() {
                assert(out[i] == sorted[i] && out[j] == sorted[j]);
            } else {
                assert(out[i] == sorted[i]);
                if i < sorted.len() - 1 {
                    lemma_precedes_transitive(
                        sorted[i].version,
                        sorted.last().version,
                        migration.version,
                    );
                }
            }
        }
    }
}

/// The ordered migrations are in order, and they are the migrations that
/// were given, each as often as it was given.
pub proof fn lemma_ordered(migrations: Seq<MigrationView>)
    ensures
        in_order(ordered(migrations)),
        ordered(migrations).to_multiset() == migrations.to_multiset(),
        ordered(migrations).len() == migrations.len(),
    decreases migrations.len(),
{
    broadcast use vstd::seq_lib::group_to_multiset_ensures;

    if migrations.len() > 0 {
        lemma_ordered(migrations.drop_last());
        lemma_placed(ordered(migrations.drop_last()), migrations.last());
        assert(migrations == migrations.drop_last().push(migrations.last()));
    }
}

/// Puts the migrations in the order of their versions, in which they are
/// applied. Migrations of one version keep the order they came in.
pub fn order(migrations: Vec<Migration>) -> (sorted: Vec<Migration>)
    ensures
        migration_views(sorted@) == ordered(migration_views(migrations@)),
        in_order(migration_views(sorted@)),
        migration_views(sorted@).to_multiset() == migration_views(migrations@).to_multiset(),
        sorted.len() == migrations.len(),
{
    let mut sorted: Vec<Migration> = Vec::new();
    let ghost given = migration_views(migrations@);
    for migration in it: migrations
        invariant
            given == migration_views(it.seq()),
            migration_views(sorted@) == ordered(given.take(it.index() as int)),
    {
        let ghost before = migration_views(sorted@);
        proof {
            assert(given.take(it.index() + 1).drop_last() == given.take(it.index() as int));
            assert(given.take(it.index() + 1).last() == migration@);
            assert(before.take(before.len() as int) == before);
            assert(before.skip(before.len() as int) == Seq::<MigrationView>::empty());
        }
        let mut at: usize = sorted.len();
        while at > 0 && comes_before(migration.version(), sorted[at - 1].version())
            invariant
                at <= sorted.len(),
                before == migration_views(sorted@),
                placed(before, migration@) == placed(before.take(at as int), migration@)
                    + before.skip(at as int),
            decreases at,
        {
            proof {
                let head = before.take(at as int);
                assert(head.last() == sorted[at - 1]@);
                assert(head.drop_last() == before.take(at - 1));
                assert(placed(head.drop_last(), migration@).push(head.last()) + before.skip(
                    at as int,
                ) =~= placed(head.drop_last(), migration@) + before.skip(at - 1));
            }
            at -= 1;
        }
        proof {
            let head = before.take(at as int);
            if at > 0 {
                assert(head.last() == sorted[at - 1]@);
            }
            assert(placed(head, migration@) == head.push(migration@));
        }
        sorted.insert(at, migration);
        proof {
            assert(migration_views(sorted@) =~= before.take(at as int).push(migration@)
                + before.skip(at as int));
        }
    }
    proof {
        assert(given.take(given.len() as int) == given);
        lemma_ordered(given);
    }
    sorted
}

} // verus!
