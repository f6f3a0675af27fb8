use pgdesk::gui::query_panel::{prepare_query, rows_to_outcome, Message, QueryKind, QueryOutcome, ResultRow, State};
use pgdesk::gui::state::GuiState;
use pgdesk::gui::Effect;
use pgdesk::settings::Settings;

fn s(v: &[&str]) -> Vec<String> {
    v.iter().map(|x| x.to_string()).collect()
}

#[test]
fn run_without_text_asks_for_a_query() {
    let mut st = State::new();
    let shared: GuiState<u8> = GuiState::new(Settings::default());
    assert_eq!(st.update(Message::Run("  \n ".into()), &shared), Effect::Nothing);
    assert_eq!(st.result(), &QueryOutcome::Message("Write a query first.".into()));
}

#[test]
fn run_without_selection_asks_for_a_connection() {
    let mut st = State::new();
    let shared: GuiState<u8> = GuiState::new(Settings::default());
    assert_eq!(st.update(Message::Run("select 1".into()), &shared), Effect::Nothing);
    assert_eq!(st.result(), &QueryOutcome::Message("Select a connection first.".into()));
}

#[test]
fn run_with_selection_runs_on_it() {
    let mut st = State::new();
    let mut shared: GuiState<u8> = GuiState::new(Settings::default());
    shared.add_connection("prod".into(), 1);
    let e = st.update(Message::Run(" select 1 ".into()), &shared);
    assert_eq!(e, Effect::RunQuery { connection: "prod".into(), sql: " select 1 ".into() });
    assert_eq!(st.result(), &QueryOutcome::Message("Running query...".into()));
    st.update(Message::Finished(QueryOutcome::Empty), &shared);
    assert_eq!(st.result(), &QueryOutcome::Empty);
}

#[test]
fn query_kinds() {
    assert_eq!(prepare_query("  SELECT * FROM t ;\n"), (QueryKind::Fetch, "SELECT * FROM t ;".to_string()));
    assert_eq!(prepare_query("With x as (select 1) select * from x").0, QueryKind::Fetch);
    assert_eq!(prepare_query("update t set a = 1").0, QueryKind::Execute);
    assert_eq!(prepare_query("wit").0, QueryKind::Execute);
    assert_eq!(prepare_query("selection_is_still_select").0, QueryKind::Fetch);
    assert_eq!(prepare_query("").0, QueryKind::Execute);
}

#[test]
fn outcome_messages() {
    assert_eq!(QueryOutcome::affected(3), QueryOutcome::Message("3 row(s) affected.".into()));
    assert_eq!(QueryOutcome::affected(0), QueryOutcome::Message("0 row(s) affected.".into()));
    assert_eq!(QueryOutcome::failed("boom"), QueryOutcome::Message("Query failed: boom".into()));
}

#[test]
fn rows_use_first_row_columns() {
    let rows = vec![
        ResultRow { columns: s(&["a", "b"]), cells: s(&["1", "2"]) },
        ResultRow { columns: s(&["a"]), cells: s(&["3"]) },
    ];
    assert_eq!(
        rows_to_outcome(rows),
        QueryOutcome::Rows {
            columns: s(&["a", "b"]),
            rows: vec![s(&["1", "2"]), s(&["3", "<unreadable>"])],
        }
    );
}

#[test]
fn no_rows_means_no_columns() {
    assert_eq!(rows_to_outcome(Vec::new()), QueryOutcome::Rows { columns: vec![], rows: vec![] });
}
