//! The schema of the store: the statements that read and create it, the
//! tables and columns that it must have, and the check of a live schema
//! against them.

use vstd::prelude::*;
use vstd::string::*;

verus! {

/// Lists every column of every table of the store as a row
/// `(table, column)`, ordered by table and then by column.
pub const READ_SQL: &'static str =
    "SELECT m.name as table_name, p.name as column_name FROM sqlite_master AS m JOIN pragma_table_info(m.name) AS p ORDER BY m.name, p.name;";

/// Creates the two tables and the unique index on the API keys where they
/// do not exist yet, in one transaction. The transaction is committed by
/// the last statement: where an earlier one fails, it stays open until it
/// is rolled back.
pub const INIT_SQL: &'static str =
    "BEGIN;
CREATE TABLE IF NOT EXISTS Users(
  rowid     INTEGER NOT NULL,
  api_key    TEXT UNIQUE NOT NULL,
  rate_limit INTEGER DEFAULT 0,
  is_admin     SMALLINT DEFAULT 0,
  PRIMARY KEY(rowid)
);
CREATE UNIQUE INDEX IF NOT EXISTS idx_api_key ON Users(api_key);
CREATE TABLE IF NOT EXISTS URLs(
  url         TEXT NOT NULL,
  visits      INTEGER DEFAULT 0,
  title       TEXT,
  description TEXT,
  created_at   DATETIME,
  user_id      INTEGER NOT NULL,
  FOREIGN KEY(user_id) REFERENCES Users(rowid)
);
COMMIT;";

/// The rows of a schema as the contracts see them: each a pair of the
/// table's and the column's name.
pub open spec fn rows_view(rows: Seq<(String, String)>) -> Seq<(Seq<char>, Seq<char>)> {
    rows.map_values(|row: (String, String)| (row.0@, row.1@))
}

/// The rows that `READ_SQL` gives on a store that `INIT_SQL` has created.
pub open spec fn expected_rows() -> Seq<(Seq<char>, Seq<char>)> {
    seq![
        ("URLs"@, "created_at"@),
        ("URLs"@, "description"@),
        ("URLs"@, "title"@),
        ("URLs"@, "url"@),
        ("URLs"@, "user_id"@),
        ("URLs"@, "visits"@),
        ("Users"@, "api_key"@),
        ("Users"@, "is_admin"@),
        ("Users"@, "rate_limit"@),
        ("Users"@, "rowid"@),
    ]
}

/// One row as text: the table, a bar, the column.
pub open spec fn schema_line(row: (Seq<char>, Seq<char>)) -> Seq<char> {
    row.0 + seq!['|'] + row.1
}

/// A schema as text: its rows as lines with a line feed between them.
pub open spec fn schema_text(rows: Seq<(Seq<char>, Seq<char>)>) -> Seq<char>
    decreases rows.len(),
{
    if rows.len() == 0 {
        Seq::empty()
    } else if rows.len() == 1 {
        schema_line(rows[0])
    } else {
        schema_text(rows.drop_last()) + seq!['\n'] + schema_line(rows.last())
    }
}

/// The schema that the store must have, row by row.
pub fn expected() -> (rows: Vec<(String, String)>)
    ensures
        rows_view(rows@) == expected_rows(),
{
    let mut rows: Vec<(String, String)> = Vec::new();
    rows.push(("URLs".to_owned(), "created_at".to_owned()));
    rows.push(("URLs".to_owned(), "description".to_owned()));
    rows.push(("URLs".to_owned(), "title".to_owned()));
    rows.push(("URLs".to_owned(), "url".to_owned()));
    rows.push(("URLs".to_owned(), "user_id".to_owned()));
    rows.push(("URLs".to_owned(), "visits".to_owned()));
    rows.push(("Users".to_owned(), "api_key".to_owned()));
    rows.push(("Users".to_owned(), "is_admin".to_owned()));
    rows.push(("Users".to_owned(), "rate_limit".to_owned()));
    rows.push(("Users".to_owned(), "rowid".to_owned()));
    assert(rows_view(rows@) =~= expected_rows());
    rows
}

/// Writes the rows of a schema as text, one line `table|column` per row.
pub fn get_database_schema(rows: &Vec<(String, String)>) -> (schema: String)
    ensures
        schema@ == schema_text(rows_view(rows@)),
{
    let mut schema = String::new();
    let mut i: usize = 0;
    proof {
        reveal_strlit("\n");
        reveal_strlit("|");
    }
    while i < rows.len()
        invariant
            0 <= i <= rows.len(),
            "\n"@ == seq!['\n'],
            "|"@ == seq!['|'],
            schema@ == schema_text(rows_view(rows@).take(i as int)),
        decreases rows.len() - i,
    {
        let ghost before = rows_view(rows@).take(i as int);
        let ghost after = rows_view(rows@).take(i + 1);
        assert(after.drop_last() =~= before);
        if i > 0 {
            schema.append("\n");
        }
        schema.append(rows[i].0.as_str());
        schema.append("|");
        schema.append(rows[i].1.as_str());
        assert(schema@ =~= schema_text(after));
        i += 1;
    }
    assert(rows_view(rows@).take(rows.len() as int) =~= rows_view(rows@));
    schema
}

/// The schema that the store must have, as text.
pub fn expected_schema() -> (schema: String)
    ensures
        schema@ == schema_text(expected_rows()),
{
    get_database_schema(&expected())
}

/// The live schema is not the expected one.
#[derive(Debug, Clone, Copy, PartialEq, Eq)]
pub struct InvalidSchema;

/// Checks the rows of a live schema against the expected ones. They must
/// be the same rows in the same order: a missing, additional or
/// misplaced table or column fails.
///
/// The names are compared pair by pair, so that a name which holds a bar
/// or a line feed cannot pass for two.
pub fn validate(rows: &Vec<(String, String)>) -> (r: Result<(), InvalidSchema>)
    ensures
        r is Ok <==> rows_view(rows@) == expected_rows(),
{
    let want = expected();
    if rows.len() != want.len() {
        assert(rows_view(rows@).len() != rows_view(want@).len());
        return Err(InvalidSchema);
    }
    let mut i: usize = 0;
    while i < rows.len()
        invariant
            rows.len() == want.len(),
            rows_view(want@) == expected_rows(),
            0 <= i <= rows.len(),
            forall|j: int| 0 <= j < i ==> #[trigger] rows_view(rows@)[j] == rows_view(want@)[j],
        decreases rows.len() - i,
    {
        if !(rows[i].0 == want[i].0 && rows[i].1 == want[i].1) {
            assert(rows_view(rows@)[i as int] != rows_view(want@)[i as int]);
            return Err(InvalidSchema);
        }
        i += 1;
    }
    assert(rows_view(rows@) =~= rows_view(want@));
    Ok(())
}

/// What to do with a store when the service starts.
#[derive(Debug, Clone, Copy, PartialEq, Eq, Structural)]
pub enum Startup {
    /// The schema is the expected one: serve.
    Serve,
    /// The store holds no table yet: create the schema, then check again.
    Initialize,
    /// The store holds another schema. It is left as it is.
    Refuse,
}

/// A store is served where its schema is the expected one, initialized
/// where it is empty, and refused in any other case: a schema that is
/// there is never changed.
pub open spec fn startup_spec(rows: Seq<(Seq<char>, Seq<char>)>) -> Startup {
    if rows == expected_rows() {
        Startup::Serve
    } else if rows.len() == 0 {
        Startup::Initialize
    } else {
        Startup::Refuse
    }
}

/// Decides what to do at startup with the rows of the live schema.
pub fn startup(rows: &Vec<(String, String)>) -> (action: Startup)
    ensures
        action == startup_spec(rows_view(rows@)),
        action is Serve <==> rows_view(rows@) == expected_rows(),
        action is Initialize ==> rows@.len() == 0,
{
    if validate(rows).is_ok() {
        Startup::Serve
    } else if rows.len() == 0 {
        Startup::Initialize
    } else {
        Startup::Refuse
    }
}

} // verus!
