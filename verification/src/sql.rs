//! What goes to a store and what comes back: values, rows, statements, and
//! the plans that the commands hand to their caller.

use vstd::prelude::*;
use crate::assoc::{lemma_lookup_first, lemma_lookup_none, lookup};
use crate::json::{Json, JsonView};
use crate::number::Real64;
use crate::path::{StorePath, StorePathView};

verus! {

/// One value of a store.
#[derive(Debug, PartialEq)]
pub enum SqlValue {
    Null,
    Integer(i64),
    Real(Real64),
    Text(String),
    Blob(Vec<u8>),
    /// A document that the store keeps as its JSON text. On the way back a
    /// text stands here only if it is in a column that the statement lists
    /// under `documents` and holds a JSON text.
    Document(Json),
}

/// A value as the contracts see it.
pub enum SqlValueView {
    Null,
    Integer(i64),
    Real(u64),
    Text(Seq<char>),
    Blob(Seq<u8>),
    Document(JsonView),
}

impl DeepView for SqlValue {
    type V = SqlValueView;

    open spec fn deep_view(&self) -> SqlValueView {
        match self {
            SqlValue::Null => SqlValueView::Null,
            SqlValue::Integer(i) => SqlValueView::Integer(*i),
            SqlValue::Real(x) => SqlValueView::Real(x.bits),
            SqlValue::Text(s) => SqlValueView::Text(s@),
            SqlValue::Blob(b) => SqlValueView::Blob(b@),
            SqlValue::Document(doc) => SqlValueView::Document(doc@),
        }
    }
}

impl View for SqlValue {
    type V = SqlValueView;

    open spec fn view(&self) -> SqlValueView {
        self.deep_view()
    }
}

impl Clone for SqlValue {
    fn clone(&self) -> (copy: SqlValue)
        ensures
            copy@ == self@,
    {
        match self {
            SqlValue::Null => SqlValue::Null,
            SqlValue::Integer(i) => SqlValue::Integer(*i),
            SqlValue::Real(x) => SqlValue::Real(*x),
            SqlValue::Text(s) => SqlValue::Text(s.clone()),
            SqlValue::Blob(b) => SqlValue::Blob(b.clone()),
            SqlValue::Document(doc) => SqlValue::Document(doc.clone()),
        }
    }
}

/// What stands for an optional text in a statement: null where there is
/// none.
pub open spec fn optional_text_value(text: Option<Seq<char>>) -> SqlValueView {
    match text {
        Some(text) => SqlValueView::Text(text),
        None => SqlValueView::Null,
    }
}

/// An optional text as a value of a statement.
pub fn optional_text_param(text: &Option<String>) -> (value: SqlValue)
    ensures
        value@ == optional_text_value(text.deep_view()),
{
    match text {
        Some(text) => SqlValue::Text(text.clone()),
        None => SqlValue::Null,
    }
}

/// A text as a value of a statement.
pub fn text_param(text: &String) -> (value: SqlValue)
    ensures
        value@ == SqlValueView::Text(text@),
{
    SqlValue::Text(text.clone())
}

/// What stands for an optional number in a statement: null where there is
/// none.
pub open spec fn optional_real_value(bits: Option<u64>) -> SqlValueView {
    match bits {
        Some(bits) => SqlValueView::Real(bits),
        None => SqlValueView::Null,
    }
}

/// An optional number as a value of a statement.
pub fn optional_real_param(number: &Option<Real64>) -> (value: SqlValue)
    ensures
        value@ == optional_real_value(number.deep_view()),
{
    match number {
        Some(number) => SqlValue::Real(*number),
        None => SqlValue::Null,
    }
}

/// The cells of a row as the contracts see them: name and value, in the
/// order of the columns.
pub type RowView = Seq<(Seq<char>, SqlValueView)>;

/// One row that a statement returned.
#[derive(Debug, Clone, PartialEq)]
pub struct Row {
    pub cells: Vec<(String, SqlValue)>,
}

impl DeepView for Row {
    type V = RowView;

    open spec fn deep_view(&self) -> RowView {
        self.cells.deep_view()
    }
}

impl View for Row {
    type V = RowView;

    open spec fn view(&self) -> RowView {
        self.deep_view()
    }
}

/// The text in a column: the column is there and holds a text.
pub open spec fn text_column(row: RowView, column: Seq<char>) -> Option<Seq<char>> {
    match lookup(row, column) {
        Some(SqlValueView::Text(s)) => Some(s),
        _ => None,
    }
}

/// The text in a column that may hold null: the column is there and holds a
/// text or null.
pub open spec fn optional_text_column(row: RowView, column: Seq<char>) -> Option<
    Option<Seq<char>>,
> {
    match lookup(row, column) {
        Some(SqlValueView::Text(s)) => Some(Some(s)),
        Some(SqlValueView::Null) => Some(None),
        _ => None,
    }
}

/// The real number in a column, by its bit pattern.
pub open spec fn real_column(row: RowView, column: Seq<char>) -> Option<u64> {
    match lookup(row, column) {
        Some(SqlValueView::Real(bits)) => Some(bits),
        _ => None,
    }
}

/// The real number in a column that may hold null.
pub open spec fn optional_real_column(row: RowView, column: Seq<char>) -> Option<Option<u64>> {
    match lookup(row, column) {
        Some(SqlValueView::Real(bits)) => Some(Some(bits)),
        Some(SqlValueView::Null) => Some(None),
        _ => None,
    }
}

/// The truth value in a column: an integer, true unless it is zero.
pub open spec fn flag_column(row: RowView, column: Seq<char>) -> Option<bool> {
    match lookup(row, column) {
        Some(SqlValueView::Integer(i)) => Some(i != 0),
        _ => None,
    }
}

/// The counter in a column: an integer that a `u32` can hold.
pub open spec fn counter_column(row: RowView, column: Seq<char>) -> Option<u32> {
    match lookup(row, column) {
        Some(SqlValueView::Integer(i)) => if 0 <= i <= u32::MAX {
            Some(i as u32)
        } else {
            None
        },
        _ => None,
    }
}

/// The document in a column.
pub open spec fn document_column(row: RowView, column: Seq<char>) -> Option<JsonView> {
    match lookup(row, column) {
        Some(SqlValueView::Document(doc)) => Some(doc),
        _ => None,
    }
}

impl Row {
    /// The value in the first column of this name.
    pub fn get<'a>(&'a self, column: &str) -> (found: Option<&'a SqlValue>)
        ensures
            match found {
                Some(value) => lookup(self@, column@) == Some(value@),
                None => lookup(self@, column@) is None,
            },
    {
        let wanted = String::from_str(column);
        let mut i: usize = 0;
        while i < self.cells.len()
            invariant
                0 <= i <= self.cells.len(),
                wanted@ == column@,
                forall|j: int| 0 <= j < i ==> (#[trigger] self@[j]).0 != column@,
            decreases self.cells.len() - i,
        {
            if self.cells[i].0 == wanted {
                proof {
                    assert(self@[i as int].0 == column@);
                    lemma_lookup_first(self@, column@, i as int);
                }
                return Some(&self.cells[i].1);
            }
            assert(self@[i as int].0 != column@);
            i += 1;
        }
        proof {
            lemma_lookup_none(self@, column@);
        }
        None
    }

    /// The text in a column.
    pub fn text(&self, column: &str) -> (found: Option<String>)
        ensures
            match found {
                Some(s) => text_column(self@, column@) == Some(s@),
                None => text_column(self@, column@) is None,
            },
    {
        match self.get(column) {
            Some(SqlValue::Text(s)) => Some(s.clone()),
            _ => None,
        }
    }

    /// The text in a column that may hold null; the outer `None` reports a
    /// missing column or a value of another kind.
    pub fn optional_text(&self, column: &str) -> (found: Option<Option<String>>)
        ensures
            match found {
                Some(Some(s)) => optional_text_column(self@, column@) == Some(Some(s@)),
                Some(None) => optional_text_column(self@, column@) == Some(None::<Seq<char>>),
                None => optional_text_column(self@, column@) is None,
            },
    {
        match self.get(column) {
            Some(SqlValue::Text(s)) => Some(Some(s.clone())),
            Some(SqlValue::Null) => Some(None),
            _ => None,
        }
    }

    /// The real number in a column.
    pub fn number(&self, column: &str) -> (found: Option<Real64>)
        ensures
            match found {
                Some(x) => real_column(self@, column@) == Some(x.bits),
                None => real_column(self@, column@) is None,
            },
    {
        match self.get(column) {
            Some(SqlValue::Real(x)) => Some(*x),
            _ => None,
        }
    }

    /// The real number in a column that may hold null.
    pub fn optional_number(&self, column: &str) -> (found: Option<Option<Real64>>)
        ensures
            match found {
                Some(Some(x)) => optional_real_column(self@, column@) == Some(Some(x.bits)),
                Some(None) => optional_real_column(self@, column@) == Some(None::<u64>),
                None => optional_real_column(self@, column@) is None,
            },
    {
        match self.get(column) {
            Some(SqlValue::Real(x)) => Some(Some(*x)),
            Some(SqlValue::Null) => Some(None),
            _ => None,
        }
    }

    /// The truth value in a column.
    pub fn flag(&self, column: &str) -> (found: Option<bool>)
        ensures
            found == flag_column(self@, column@),
    {
        match self.get(column) {
            Some(SqlValue::Integer(i)) => Some(*i != 0),
            _ => None,
        }
    }

    /// The counter in a column.
    pub fn counter(&self, column: &str) -> (found: Option<u32>)
        ensures
            found == counter_column(self@, column@),
    {
        match self.get(column) {
            Some(SqlValue::Integer(i)) => {
                if 0 <= *i && *i <= 0xffff_ffff {
                    Some(*i as u32)
                } else {
                    None
                }
            },
            _ => None,
        }
    }

    /// The document in a column.
    pub fn document<'a>(&'a self, column: &str) -> (found: Option<&'a Json>)
        ensures
            match found {
                Some(doc) => document_column(self@, column@) == Some(doc@),
                None => document_column(self@, column@) is None,
            },
    {
        match self.get(column) {
            Some(SqlValue::Document(doc)) => Some(doc),
            _ => None,
        }
    }
}

/// One statement for one store.
#[derive(Debug, Clone, PartialEq)]
pub struct Statement {
    /// The store that the statement is for.
    pub store: StorePath,
    /// The statement's text, with `?1` and so on for the values.
    pub sql: String,
    /// The values, in the order of their numbers.
    pub params: Vec<SqlValue>,
    /// The columns of the result whose text is a JSON document.
    pub documents: Vec<String>,
}

/// A statement as the contracts see it.
pub struct StatementView {
    pub store: StorePathView,
    pub sql: Seq<char>,
    pub params: Seq<SqlValueView>,
    pub documents: Seq<Seq<char>>,
}

impl DeepView for Statement {
    type V = StatementView;

    open spec fn deep_view(&self) -> StatementView {
        StatementView {
            store: self.store@,
            sql: self.sql@,
            params: self.params.deep_view(),
            documents: self.documents.deep_view(),
        }
    }
}

impl View for Statement {
    type V = StatementView;

    open spec fn view(&self) -> StatementView {
        self.deep_view()
    }
}

/// One step that a command asks its caller to take.
#[derive(Debug, Clone, PartialEq)]
pub enum Action {
    /// Create the directory and those above it, where they are missing.
    CreateDir(StorePath),
    /// Overwrite the session marker with the text of this document.
    WriteMarker(Json),
    /// Remove the session marker.
    RemoveMarker,
    /// Open the store, creating it where it is missing, and apply the script
    /// as one batch.
    Batch { store: StorePath, script: String },
    /// Open the store, creating it where it is missing, and run the
    /// statement.
    Execute(Statement),
}

/// A step as the contracts see it.
pub enum ActionView {
    CreateDir(StorePathView),
    WriteMarker(JsonView),
    RemoveMarker,
    Batch { store: StorePathView, script: Seq<char> },
    Execute(StatementView),
}

impl DeepView for Action {
    type V = ActionView;

    open spec fn deep_view(&self) -> ActionView {
        match self {
            Action::CreateDir(path) => ActionView::CreateDir(path@),
            Action::WriteMarker(doc) => ActionView::WriteMarker(doc@),
            Action::RemoveMarker => ActionView::RemoveMarker,
            Action::Batch { store, script } => ActionView::Batch {
                store: store@,
                script: script@,
            },
            Action::Execute(statement) => ActionView::Execute(statement@),
        }
    }
}

impl View for Action {
    type V = ActionView;

    open spec fn view(&self) -> ActionView {
        self.deep_view()
    }
}

/// What a command decided: the steps to take, in this order and none after
/// one that failed, and the text to report when all went through.
#[derive(Debug, Clone, PartialEq)]
pub struct Plan {
    pub actions: Vec<Action>,
    pub message: String,
}

/// A plan as the contracts see it.
pub struct PlanView {
    pub actions: Seq<ActionView>,
    pub message: Seq<char>,
}

impl DeepView for Plan {
    type V = PlanView;

    open spec fn deep_view(&self) -> PlanView {
        PlanView { actions: self.actions.deep_view(), message: self.message@ }
    }
}

impl View for Plan {
    type V = PlanView;

    open spec fn view(&self) -> PlanView {
        self.deep_view()
    }
}

/// The decimal digit of a value below ten.
pub open spec fn digit_char(digit: nat) -> char {
    (48 + digit) as char
}

/// The decimal text of a number.
pub open spec fn decimal(n: nat) -> Seq<char>
    decreases n,
{
    if n < 10 {
        seq![digit_char(n)]
    } else {
        decimal(n / 10).push(digit_char(n % 10))
    }
}

fn digit(value: usize) -> (text: &'static str)
    requires
        value < 10,
    ensures
        text@ == seq![digit_char(value as nat)],
{
    proof {
        reveal_strlit("0");
        reveal_strlit("1");
        reveal_strlit("2");
        reveal_strlit("3");
        reveal_strlit("4");
        reveal_strlit("5");
        reveal_strlit("6");
        reveal_strlit("7");
        reveal_strlit("8");
        reveal_strlit("9");
    }
    let text = match value {
        0 => "0",
        1 => "1",
        2 => "2",
        3 => "3",
        4 => "4",
        5 => "5",
        6 => "6",
        7 => "7",
        8 => "8",
        _ => "9",
    };
    assert(text@ =~= seq![digit_char(value as nat)]);
    text
}

/// The decimal text of a number.
pub fn decimal_text(n: usize) -> (text: String)
    ensures
        text@ == decimal(n as nat),
    decreases n,
{
    if n < 10 {
        String::from_str(digit(n))
    } else {
        let mut text = decimal_text(n / 10);
        let last = digit(n % 10);
        text.append(last);
        assert(text@ =~= decimal((n / 10) as nat).push(digit_char((n % 10) as nat)));
        text
    }
}

/// The names of the first `n` cells, with a comma and a blank between two of
/// them.
pub open spec fn column_list(cells: RowView, n: nat) -> Seq<char>
    decreases n,
{
    if n == 0 {
        Seq::empty()
    } else if n == 1 {
        cells[0].0
    } else {
        column_list(cells, (n - 1) as nat) + ", "@ + cells[n - 1].0
    }
}

/// The place holders `?1` to `?n`, with a comma and a blank between two of
/// them.
pub open spec fn placeholder_list(n: nat) -> Seq<char>
    decreases n,
{
    if n == 0 {
        Seq::empty()
    } else if n == 1 {
        "?"@ + decimal(1)
    } else {
        placeholder_list((n - 1) as nat) + ", ?"@ + decimal(n)
    }
}

/// For each cell from the one at `from` up to the one before `to`, the
/// assignment of the value that an insert would have written, with a comma
/// and a blank between two of them.
pub open spec fn assignment_list(cells: RowView, from: nat, to: nat) -> Seq<char>
    decreases to,
{
    if to <= from {
        Seq::empty()
    } else if to == from + 1 {
        cells[from as int].0 + " = excluded."@ + cells[from as int].0
    } else {
        assignment_list(cells, from, (to - 1) as nat) + ", "@ + cells[to - 1].0
            + " = excluded."@ + cells[to - 1].0
    }
}

/// The values of the cells, in the order of the cells.
pub open spec fn cell_values(cells: RowView) -> Seq<SqlValueView> {
    Seq::new(cells.len(), |i: int| cells[i].1)
}

/// The text of the statement that writes a row of these cells to a table.
pub open spec fn insert_sql(table: Seq<char>, cells: RowView) -> Seq<char> {
    "INSERT INTO "@ + table + " ("@ + column_list(cells, cells.len()) + ") VALUES ("@
        + placeholder_list(cells.len()) + ")"@
}

/// The statement that writes a row of these cells to a table of a store:
/// each column is named, and its value is bound to the place holder of its
/// number. When the statement has run, the row of the table that it wrote
/// holds these cells.
pub open spec fn insert(store: StorePathView, table: Seq<char>, cells: RowView) -> StatementView {
    StatementView {
        store,
        sql: insert_sql(table, cells),
        params: cell_values(cells),
        documents: Seq::empty(),
    }
}

/// The text of the statement that writes a row of these cells to a table, or
/// overwrites with them the row that has the same value in the first cell's
/// column.
pub open spec fn upsert_sql(table: Seq<char>, cells: RowView) -> Seq<char> {
    insert_sql(table, cells) + " ON CONFLICT("@ + cells[0].0 + ") DO UPDATE SET "@
        + assignment_list(cells, 1, cells.len())
}

/// The statement that writes a row of these cells to a table of a store, or
/// overwrites the row of the same key with them. The first cell is the key.
pub open spec fn upsert(store: StorePathView, table: Seq<char>, cells: RowView) -> StatementView {
    StatementView {
        store,
        sql: upsert_sql(table, cells),
        params: cell_values(cells),
        documents: Seq::empty(),
    }
}

impl Row {
    /// A row without cells.
    pub fn new() -> (row: Row)
        ensures
            row@ == Seq::<(Seq<char>, SqlValueView)>::empty(),
    {
        let row = Row { cells: Vec::new() };
        assert(row@ =~= Seq::empty());
        row
    }

    /// Adds a cell at the end of the row.
    pub fn put(&mut self, column: &str, value: SqlValue)
        ensures
            final(self)@ == old(self)@.push((column@, value@)),
    {
        self.cells.push((String::from_str(column), value));
        assert(self@ =~= old(self)@.push((column@, value@)));
    }

    fn columns_text(&self) -> (text: String)
        ensures
            text@ == column_list(self@, self@.len()),
    {
        let mut text = String::new();
        let mut i: usize = 0;
        while i < self.cells.len()
            invariant
                0 <= i <= self.cells.len(),
                text@ == column_list(self@, i as nat),
            decreases self.cells.len() - i,
        {
            if i > 0 {
                text.append(", ");
            }
            text.append(self.cells[i].0.as_str());
            proof {
                assert(self@[i as int].0 == self.cells[i as int].0@);
                if i == 0 {
                    assert(text@ =~= self@[0].0);
                }
            }
            i += 1;
        }
        text
    }

    fn placeholders_text(&self) -> (text: String)
        ensures
            text@ == placeholder_list(self@.len()),
    {
        let mut text = String::new();
        let mut i: usize = 0;
        while i < self.cells.len()
            invariant
                0 <= i <= self.cells.len(),
                text@ == placeholder_list(i as nat),
            decreases self.cells.len() - i,
        {
            if i > 0 {
                text.append(", ?");
            } else {
                text.append("?");
            }
            let number = decimal_text(i + 1);
            text.append(number.as_str());
            proof {
                if i == 0 {
                    assert(text@ =~= "?"@ + decimal(1));
                }
            }
            i += 1;
        }
        text
    }

    fn assignments_text(&self) -> (text: String)
        ensures
            text@ == assignment_list(self@, 1, self@.len()),
    {
        let mut text = String::new();
        let mut i: usize = 1;
        if self.cells.len() <= 1 {
            return text;
        }
        while i < self.cells.len()
            invariant
                1 <= i <= self.cells.len(),
                text@ == assignment_list(self@, 1, i as nat),
            decreases self.cells.len() - i,
        {
            if i > 1 {
                text.append(", ");
            }
            text.append(self.cells[i].0.as_str());
            text.append(" = excluded.");
            text.append(self.cells[i].0.as_str());
            proof {
                assert(self@[i as int].0 == self.cells[i as int].0@);
                if i == 1 {
                    assert(text@ =~= self@[1].0 + " = excluded."@ + self@[1].0);
                }
            }
            i += 1;
        }
        text
    }

    fn values(&self) -> (params: Vec<SqlValue>)
        ensures
            params.deep_view() == cell_values(self@),
    {
        let mut params: Vec<SqlValue> = Vec::new();
        let mut i: usize = 0;
        while i < self.cells.len()
            invariant
                0 <= i <= self.cells.len(),
                params@.len() == i,
                forall|j: int| 0 <= j < i ==> (#[trigger] params@[j])@ == self@[j].1,
            decreases self.cells.len() - i,
        {
            params.push(self.cells[i].1.clone());
            i += 1;
        }
        assert(params.deep_view() =~= cell_values(self@));
        params
    }

    fn insert_text(&self, table: &str) -> (sql: String)
        ensures
            sql@ == insert_sql(table@, self@),
    {
        let mut sql = String::from_str("INSERT INTO ");
        sql.append(table);
        sql.append(" (");
        sql.append(self.columns_text().as_str());
        sql.append(") VALUES (");
        sql.append(self.placeholders_text().as_str());
        sql.append(")");
        sql
    }

    /// The statement that writes this row to a table of a store.
    pub fn insert_into(&self, store: StorePath, table: &str) -> (statement: Statement)
        ensures
            statement@ == insert(store@, table@, self@),
    {
        let statement = Statement {
            store,
            sql: self.insert_text(table),
            params: self.values(),
            documents: Vec::new(),
        };
        assert(statement@.documents =~= Seq::empty());
        statement
    }

    /// The statement that writes this row to a table of a store, or
    /// overwrites the row of the same key. The first cell is the key.
    pub(crate) fn upsert_into(&self, store: StorePath, table: &str) -> (statement: Statement)
        requires
            self@.len() >= 1,
        ensures
            statement@ == upsert(store@, table@, self@),
    {
        let mut sql = self.insert_text(table);
        sql.append(" ON CONFLICT(");
        sql.append(self.cells[0].0.as_str());
        sql.append(") DO UPDATE SET ");
        sql.append(self.assignments_text().as_str());
        assert(self@[0].0 == self.cells[0].0@);
        let statement = Statement { store, sql, params: self.values(), documents: Vec::new() };
        assert(statement@.documents =~= Seq::empty());
        statement
    }
}

} // verus!
