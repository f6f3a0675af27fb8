use vstd::prelude::*;

use super::state::{GuiState, GuiStateView};
use super::Effect;
use crate::text::{ascii_lower, law_trim_idempotent, chars_of, decimal, lower_starts_with, lower_starts_with_spec, push_decimal, trim, trim_str};

verus! {

/// What the results area shows.
#[derive(Debug, Clone, PartialEq, Eq)]
pub enum QueryOutcome {
    Empty,
    Message(String),
    Rows { columns: Vec<String>, rows: Vec<Vec<String>> },
}

/// The mathematical value of a [`QueryOutcome`].
pub enum OutcomeView {
    Empty,
    Message(Seq<char>),
    Rows { columns: Seq<Seq<char>>, rows: Seq<Seq<Seq<char>>> },
}

pub open spec fn strings_view(v: Seq<String>) -> Seq<Seq<char>> {
    v.map_values(|s: String| s@)
}

pub open spec fn grid_view(v: Seq<Vec<String>>) -> Seq<Seq<Seq<char>>> {
    v.map_values(|r: Vec<String>| strings_view(r@))
}

impl View for QueryOutcome {
    type V = OutcomeView;

    open spec fn view(&self) -> OutcomeView {
        match self {
            QueryOutcome::Empty => OutcomeView::Empty,
            QueryOutcome::Message(m) => OutcomeView::Message(m@),
            QueryOutcome::Rows { columns, rows } => OutcomeView::Rows {
                columns: strings_view(columns@),
                rows: grid_view(rows@),
            },
        }
    }
}

pub open spec fn msg_write_first() -> Seq<char> {
    "Write a query first."@
}

pub open spec fn msg_select_first() -> Seq<char> {
    "Select a connection first."@
}

pub open spec fn msg_running() -> Seq<char> {
    "Running query..."@
}

/// The text that stands in a cell whose value could not be read.
pub open spec fn unreadable_cell() -> Seq<char> {
    "<unreadable>"@
}

/// One row that the database sent back: its column names and the text of
/// each of its cells, in column order.
#[derive(Debug, Clone, PartialEq, Eq)]
pub struct ResultRow {
    pub columns: Vec<String>,
    pub cells: Vec<String>,
}

/// How a statement is sent to the server.
#[derive(Debug, Clone, Copy, PartialEq, Eq, Structural)]
pub enum QueryKind {
    /// Fetched as rows.
    Fetch,
    /// Executed, and reported as a count of affected rows.
    Execute,
}

/// Whether `sql` is fetched as rows: it starts, once trimmed and in ASCII
/// lower case, with `select` or `with`.
pub open spec fn is_fetch(sql: Seq<char>) -> bool {
    lower_starts_with_spec(trim(sql), "select"@) || lower_starts_with_spec(trim(sql), "with"@)
}

/// How a statement is sent depends only on its trimmed text, and a text
/// that, once trimmed, begins with `with` or `select` in any ASCII case is
/// fetched as rows.
pub proof fn law_query_kind(sql: Seq<char>)
    ensures
        is_fetch(sql) == is_fetch(trim(sql)),
        ({
            let t = trim(sql);
            t.len() >= 4 && (forall|i: int| 0 <= i < 4 ==> ascii_lower(#[trigger] t[i]) == "with"@[i] as u32)
                ==> is_fetch(sql)
        }),
        ({
            let t = trim(sql);
            t.len() >= 6 && (forall|i: int| 0 <= i < 6 ==> ascii_lower(#[trigger] t[i]) == "select"@[i] as u32)
                ==> is_fetch(sql)
        }),
        ({
            let t = trim(sql);
            is_fetch(sql) ==> (t.len() >= 4 && (forall|i: int|
                0 <= i < 4 ==> ascii_lower(#[trigger] t[i]) == "with"@[i] as u32)) || (t.len() >= 6
                && (forall|i: int| 0 <= i < 6 ==> ascii_lower(#[trigger] t[i]) == "select"@[i] as u32))
        }),
{
    law_trim_idempotent(sql);
    reveal_strlit("with");
    reveal_strlit("select");
}

/// The statement to send for `sql` (the trimmed text) and how to send it.
pub fn prepare_query(sql: &str) -> (r: (QueryKind, String))
    ensures
        r.1@ == trim(sql@),
        r.0 == (if is_fetch(sql@) {
            QueryKind::Fetch
        } else {
            QueryKind::Execute
        }),
{
    let trimmed = trim_str(sql);
    let chars = chars_of(trimmed.as_str());
    let kind = if lower_starts_with(&chars, "select") || lower_starts_with(&chars, "with") {
        QueryKind::Fetch
    } else {
        QueryKind::Execute
    };
    (kind, trimmed)
}

impl QueryOutcome {
    /// The report of an executed statement: `"{n} row(s) affected."`.
    pub fn affected(rows_affected: u64) -> (r: QueryOutcome)
        ensures
            r@ == OutcomeView::Message(decimal(rows_affected as nat) + " row(s) affected."@),
    {
        let mut m = String::new();
        push_decimal(&mut m, rows_affected);
        m.append(" row(s) affected.");
        QueryOutcome::Message(m)
    }

    /// The report of a statement that the server refused:
    /// `"Query failed: {error}"`.
    pub fn failed(error: &str) -> (r: QueryOutcome)
        ensures
            r@ == OutcomeView::Message("Query failed: "@ + error@),
    {
        let mut m = String::from_str("Query failed: ");
        m.append(error);
        QueryOutcome::Message(m)
    }
}

/// The column names of a result: those of its first row, or none.
pub open spec fn result_columns(rows: Seq<ResultRow>) -> Seq<Seq<char>> {
    if rows.len() > 0 {
        strings_view(rows[0].columns@)
    } else {
        Seq::empty()
    }
}

/// The cells of `row` under `n` columns: the row's own cell where it has
/// one, the unreadable marker where it has not.
pub open spec fn row_cells(row: ResultRow, n: nat) -> Seq<Seq<char>> {
    Seq::new(
        n,
        |i: int|
            if i < row.cells@.len() {
                row.cells@[i]@
            } else {
                unreadable_cell()
            },
    )
}

fn copy_strings(v: &Vec<String>) -> (r: Vec<String>)
    ensures
        strings_view(r@) == strings_view(v@),
{
    let mut r: Vec<String> = Vec::new();
    let mut i: usize = 0;
    while i < v.len()
        invariant
            i <= v@.len(),
            r@.len() == i,
            forall|j: int| 0 <= j < i ==> #[trigger] r@[j]@ == v@[j]@,
        decreases v@.len() - i,
    {
        r.push(v[i].clone());
        i = i + 1;
    }
    assert(strings_view(r@) =~= strings_view(v@));
    r
}

/// The first `k` rows of `rows`, each under `n` columns.
pub open spec fn table_of(rows: Seq<ResultRow>, n: nat, k: nat) -> Seq<Seq<Seq<char>>> {
    Seq::new(k, |j: int| row_cells(rows[j], n))
}

/// Every row of a result table has exactly one cell per column.
pub proof fn law_table_is_rectangular(rows: Seq<ResultRow>)
    ensures
        ({
            let n = result_columns(rows).len();
            let t = table_of(rows, n, rows.len());
            t.len() == rows.len() && forall|k: int| 0 <= k < t.len() ==> (#[trigger] t[k]).len() == n
        }),
{
}

/// Each cell of the result table is the text of the row's own cell in that
/// column, exactly as it came; only a cell that the row lacks shows the
/// unreadable marker. The columns are those of the first row.
pub proof fn law_table_cells(rows: Seq<ResultRow>, k: int, i: int)
    requires
        0 <= k < rows.len(),
        0 <= i < rows[0].columns@.len(),
    ensures
        result_columns(rows) == strings_view(rows[0].columns@),
        table_of(rows, result_columns(rows).len(), rows.len())[k].len() == rows[0].columns@.len(),
        i < rows[k].cells@.len() ==> table_of(rows, result_columns(rows).len(), rows.len())[k][i]
            == rows[k].cells@[i]@,
        i >= rows[k].cells@.len() ==> table_of(rows, result_columns(rows).len(), rows.len())[k][i]
            == "<unreadable>"@,
{
}

/// A result without rows is an empty table without columns; otherwise the
/// table has one row per result row.
pub proof fn law_table_shape(rows: Seq<ResultRow>)
    ensures
        rows.len() == 0 ==> result_columns(rows).len() == 0,
        table_of(rows, result_columns(rows).len(), rows.len()).len() == rows.len(),
{
}

/// Turns the rows that a query returned into the table to show: the
/// columns of the first row, and under them every row's cells.
pub fn rows_to_outcome(rows: Vec<ResultRow>) -> (r: QueryOutcome)
    ensures
        r@ == (OutcomeView::Rows {
            columns: result_columns(rows@),
            rows: table_of(rows@, result_columns(rows@).len(), rows@.len()),
        }),
{
    let columns = if rows.len() > 0 {
        copy_strings(&rows[0].columns)
    } else {
        Vec::new()
    };
    assert(strings_view(columns@) =~= result_columns(rows@));
    let n = columns.len();
    let mut table: Vec<Vec<String>> = Vec::new();
    let mut k: usize = 0;
    while k < rows.len()
        invariant
            k <= rows@.len(),
            n == strings_view(columns@).len(),
            strings_view(columns@) == result_columns(rows@),
            table@.len() == k,
            forall|j: int| 0 <= j < k ==> strings_view(#[trigger] table@[j]@) == row_cells(rows@[j], n as nat),
        decreases rows@.len() - k,
    {
        let row = &rows[k];
        let mut cells: Vec<String> = Vec::new();
        let mut i: usize = 0;
        while i < n
            invariant
                i <= n,
                k < rows@.len(),
                *row == rows@[k as int],
                cells@.len() == i,
                forall|j: int| 0 <= j < i ==> #[trigger] cells@[j]@ == row_cells(*row, n as nat)[j],
            decreases n - i,
        {
            if i < row.cells.len() {
                cells.push(row.cells[i].clone());
            } else {
                cells.push(String::from_str("<unreadable>"));
            }
            i = i + 1;
        }
        assert(strings_view(cells@) =~= row_cells(*row, n as nat));
        table.push(cells);
        k = k + 1;
    }
    assert(grid_view(table@) =~= table_of(rows@, n as nat, rows@.len()));
    QueryOutcome::Rows { columns, rows: table }
}

/// The query panel: what the results area shows. (The editor's text is
/// handed in with each `Run`.)
#[derive(Debug)]
pub struct State {
    query_result: QueryOutcome,
}

#[derive(Debug, Clone)]
pub enum Message {
    /// Run the editor's text, `sql`.
    Run(String),
    Finished(QueryOutcome),
}

impl View for State {
    type V = OutcomeView;

    closed spec fn view(&self) -> OutcomeView {
        self.query_result@
    }
}

/// Whether `message` can be handled with the shared state `shared`: a query
/// with text is run only while the selected connection, if any, is open.
pub open spec fn can_run<C>(shared: GuiStateView<C>, message: Message) -> bool {
    message matches Message::Run(sql) && trim(sql@).len() > 0 ==> shared.selection_known()
}

/// How the query panel handles `message`: to the results `after`, reading the shared
/// state `shared`, asking for `e`.
pub open spec fn update_post<C>(
    shared: GuiStateView<C>,
    message: Message,
    after: OutcomeView,
    e: Effect,
) -> bool {
    match message {
        Message::Run(sql) => if trim(sql@).len() == 0 {
            after == OutcomeView::Message(msg_write_first()) && e is Nothing
        } else if shared.selected is None {
            after == OutcomeView::Message(msg_select_first()) && e is Nothing
        } else {
            &&& after == OutcomeView::Message(msg_running())
            &&& e matches Effect::RunQuery { connection, sql: q } && Some(connection@)
                == shared.selected && q@ == sql@
            &&& shared.databases.dom().contains(shared.selected->0)
        },
        Message::Finished(outcome) => after == outcome@ && e is Nothing,
    }
}

impl State {
    pub fn new() -> (r: Self)
        ensures
            r@ == OutcomeView::Empty,
    {
        State { query_result: QueryOutcome::Empty }
    }

    /// What the results area shows.
    pub fn result(&self) -> (r: &QueryOutcome)
        ensures
            r@ == self@,
    {
        &self.query_result
    }

    /// Handles `message`. `shared` provides the connections this panel
    /// queries against; it is only read here. Blank text asks for a query,
    /// no selection asks for a connection; otherwise the query is run on the
    /// selected connection.
    pub fn update<C>(&mut self, message: Message, shared: &GuiState<C>) -> (e: Effect)
        requires
            can_run(shared@, message),
        ensures
            update_post(shared@, message, final(self)@, e),
    {
        match message {
            Message::Run(sql) => {
                let trimmed = trim_str(sql.as_str());
                if trimmed.as_str().is_empty() {
                    self.query_result = QueryOutcome::Message(String::from_str("Write a query first."));
                    return Effect::Nothing;
                }
                let name = match shared.selected_connection() {
                    Some(n) => n,
                    None => {
                        self.query_result = QueryOutcome::Message(
                            String::from_str("Select a connection first."),
                        );
                        return Effect::Nothing;
                    },
                };
                let connection = String::from_str(name);
                self.query_result = QueryOutcome::Message(String::from_str("Running query..."));
                Effect::RunQuery { connection, sql }
            },
            Message::Finished(outcome) => {
                self.query_result = outcome;
                Effect::Nothing
            },
        }
    }
}

} // verus!
