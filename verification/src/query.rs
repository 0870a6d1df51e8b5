//! The filtered query engine: one predicate per search, the statement that
//! asks a store for it, and the test that a record passes it.

use vstd::prelude::*;
use vstd::utf8::encode_utf8;
use crate::error::StoreError;
use crate::path::{StorePath, StorePathView};
use crate::sql::{text_column, Row, RowView, SqlValue, SqlValueView, Statement, StatementView};

verus! {

/// How a field is compared with the value that was asked for.
#[derive(Debug, Clone, Copy, PartialEq, Eq, Structural)]
pub enum MatchKind {
    /// The field is the value.
    Equals,
    /// The value occurs in the field, upper and lower case told apart.
    Contains,
}

/// The fields that a search can ask for.
#[derive(Debug, Clone, Copy, PartialEq, Eq, Structural)]
pub enum Field {
    CompanyId,
    CompanyName,
    CompanyOwnerName,
    CompanyGstNumber,
    InvoiceId,
    InvoiceNumber,
    InvoiceRecipientName,
    InvoiceRecipientGstNumber,
}

impl Field {
    /// The table that holds the field.
    pub open spec fn table_name(self) -> Seq<char> {
        match self {
            Field::CompanyId | Field::CompanyName | Field::CompanyOwnerName
            | Field::CompanyGstNumber => "company"@,
            _ => "invoices"@,
        }
    }

    /// The column that holds the field.
    pub open spec fn column_name(self) -> Seq<char> {
        match self {
            Field::CompanyId => "id"@,
            Field::CompanyName => "name"@,
            Field::CompanyOwnerName => "owner_name"@,
            Field::CompanyGstNumber => "gst_number"@,
            Field::InvoiceId => "id"@,
            Field::InvoiceNumber => "invoice_number"@,
            Field::InvoiceRecipientName => "recipient_name"@,
            Field::InvoiceRecipientGstNumber => "recipient_gst_number"@,
        }
    }

    /// How the field is compared: identifiers and numbers exactly, names by
    /// containment.
    pub open spec fn kind(self) -> MatchKind {
        match self {
            Field::CompanyName | Field::CompanyOwnerName | Field::InvoiceRecipientName =>
                MatchKind::Contains,
            _ => MatchKind::Equals,
        }
    }

    /// The columns of the field's table whose text is a JSON document.
    pub open spec fn document_columns(self) -> Seq<Seq<char>> {
        if self.table_name() == "invoices"@ {
            seq!["items_json"@, "additional_charges_json"@]
        } else {
            Seq::empty()
        }
    }

    pub fn table(&self) -> (name: &'static str)
        ensures
            name@ == self.table_name(),
    {
        match self {
            Field::CompanyId | Field::CompanyName | Field::CompanyOwnerName
            | Field::CompanyGstNumber => "company",
            _ => "invoices",
        }
    }

    pub fn column(&self) -> (name: &'static str)
        ensures
            name@ == self.column_name(),
    {
        match self {
            Field::CompanyId => "id",
            Field::CompanyName => "name",
            Field::CompanyOwnerName => "owner_name",
            Field::CompanyGstNumber => "gst_number",
            Field::InvoiceId => "id",
            Field::InvoiceNumber => "invoice_number",
            Field::InvoiceRecipientName => "recipient_name",
            Field::InvoiceRecipientGstNumber => "recipient_gst_number",
        }
    }

    pub fn match_kind(&self) -> (kind: MatchKind)
        ensures
            kind == self.kind(),
    {
        match self {
            Field::CompanyName | Field::CompanyOwnerName | Field::InvoiceRecipientName =>
                MatchKind::Contains,
            _ => MatchKind::Equals,
        }
    }

    fn documents(&self) -> (columns: Vec<String>)
        ensures
            columns.deep_view() == self.document_columns(),
    {
        let mut columns: Vec<String> = Vec::new();
        match self {
            Field::CompanyId | Field::CompanyName | Field::CompanyOwnerName
            | Field::CompanyGstNumber => {
                proof {
                    reveal_strlit("company");
                    reveal_strlit("invoices");
                    assert("company"@.len() != "invoices"@.len());
                }
            },
            _ => {
                columns.push(String::from_str("items_json"));
                columns.push(String::from_str("additional_charges_json"));
            },
        }
        assert(columns.deep_view() =~= self.document_columns());
        columns
    }
}

/// The one condition of a search.
#[derive(Debug, Clone, PartialEq)]
pub struct Predicate {
    pub field: Field,
    pub value: String,
}

/// A predicate as the contracts see it.
pub struct PredicateView {
    pub field: Field,
    pub value: Seq<char>,
}

impl DeepView for Predicate {
    type V = PredicateView;

    open spec fn deep_view(&self) -> PredicateView {
        PredicateView { field: self.field, value: self.value@ }
    }
}

impl View for Predicate {
    type V = PredicateView;

    open spec fn view(&self) -> PredicateView {
        self.deep_view()
    }
}

/// `needle` stands in `hay` at the place `at`.
pub open spec fn occurs_at(hay: Seq<u8>, needle: Seq<u8>, at: int) -> bool {
    0 <= at && at + needle.len() <= hay.len() && hay.subrange(at, at + needle.len()) == needle
}

/// `needle` stands somewhere in `hay`.
pub open spec fn occurs(hay: Seq<u8>, needle: Seq<u8>) -> bool {
    exists|at: int| occurs_at(hay, needle, at)
}

/// Every byte string stands in itself, at its start.
pub proof fn lemma_occurs_in_itself(bytes: Seq<u8>)
    ensures
        occurs(bytes, bytes),
{
    assert(bytes.subrange(0, bytes.len() as int) =~= bytes);
    assert(occurs_at(bytes, bytes, 0));
}

/// The UTF-8 bytes of two texts, one behind the other, are the bytes of the
/// first followed by the bytes of the second.
pub proof fn lemma_encode_concat(first: Seq<char>, second: Seq<char>)
    ensures
        encode_utf8(first + second) == encode_utf8(first) + encode_utf8(second),
    decreases first.len(),
{
    if first.len() == 0 {
        assert(first + second =~= second);
        assert(encode_utf8(first) + encode_utf8(second) =~= encode_utf8(second));
    } else {
        let whole = first + second;
        assert(whole[0] == first[0]);
        assert(whole.drop_first() =~= first.drop_first() + second);
        lemma_encode_concat(first.drop_first(), second);
        assert(encode_utf8(whole) =~= encode_utf8(first) + encode_utf8(second));
    }
}

/// A text that holds a run of characters holds the bytes of that run: a name
/// passes a search for any part of it.
pub proof fn lemma_part_occurs(before: Seq<char>, part: Seq<char>, after: Seq<char>)
    ensures
        occurs(encode_utf8(before + part + after), encode_utf8(part)),
{
    lemma_encode_concat(before + part, after);
    lemma_encode_concat(before, part);
    let hay = encode_utf8(before + part + after);
    let at = encode_utf8(before).len() as int;
    assert(hay.subrange(at, at + encode_utf8(part).len()) =~= encode_utf8(part));
    assert(occurs_at(hay, encode_utf8(part), at));
}

impl PredicateView {
    /// Whether a text passes the predicate. Containment is that of the UTF-8
    /// bytes, so that no two letters count as the same.
    pub open spec fn admits(self, text: Seq<char>) -> bool {
        match self.field.kind() {
            MatchKind::Equals => text == self.value,
            MatchKind::Contains => occurs(encode_utf8(text), encode_utf8(self.value)),
        }
    }

    /// Whether a row passes the predicate: its column holds a text that
    /// does.
    pub open spec fn admits_row(self, row: RowView) -> bool {
        match text_column(row, self.field.column_name()) {
            Some(text) => self.admits(text),
            None => false,
        }
    }

    /// The text of the statement that asks for the rows that may pass.
    pub open spec fn select_sql(self) -> Seq<char> {
        "SELECT * FROM "@ + self.field.table_name() + " WHERE "@ + self.field.column_name() + (
        match self.field.kind() {
            MatchKind::Equals => " = ?1"@,
            MatchKind::Contains => " LIKE ?1"@,
        })
    }

    /// The value that goes with the statement: the value itself, or the value
    /// between two wildcards.
    pub open spec fn pattern(self) -> Seq<char> {
        match self.field.kind() {
            MatchKind::Equals => self.value,
            MatchKind::Contains => "%"@ + self.value + "%"@,
        }
    }

    /// The statement that asks `store` for the rows that may pass.
    pub open spec fn select(self, store: StorePathView) -> StatementView {
        StatementView {
            store,
            sql: self.select_sql(),
            params: seq![SqlValueView::Text(self.pattern())],
            documents: self.field.document_columns(),
        }
    }
}

/// The predicate that a filter field stands for, where the field is set.
pub open spec fn condition(field: Field, value: Option<Seq<char>>) -> Seq<PredicateView> {
    match value {
        Some(value) => seq![PredicateView { field, value }],
        None => Seq::empty(),
    }
}

/// Adds the predicate that a filter field stands for, where the field is
/// set.
pub fn add_condition(set: &mut Vec<Predicate>, field: Field, value: &Option<String>)
    ensures
        final(set).deep_view() == old(set).deep_view() + condition(field, value.deep_view()),
{
    match value {
        Some(value) => {
            set.push(Predicate { field, value: value.clone() });
        },
        None => {},
    }
    assert(set.deep_view() =~= old(set).deep_view() + condition(field, value.deep_view()));
}

/// The one predicate among those that a filter sets: none set is
/// `NoFilterProvided`, more than one is `AmbiguousFilter`.
pub open spec fn the_one(set: Seq<PredicateView>) -> Result<PredicateView, StoreError> {
    if set.len() == 0 {
        Err(StoreError::NoFilterProvided)
    } else if set.len() == 1 {
        Ok(set[0])
    } else {
        Err(StoreError::AmbiguousFilter)
    }
}

/// Whether `needle` stands in `hay` at `at`.
fn found_at(hay: &[u8], needle: &[u8], at: usize) -> (found: bool)
    requires
        at + needle@.len() <= hay@.len(),
    ensures
        found == occurs_at(hay@, needle@, at as int),
{
    let mut k: usize = 0;
    let length = hay.len();
    while k < needle.len()
        invariant
            0 <= k <= needle@.len(),
            at + needle@.len() <= hay@.len(),
            length == hay@.len(),
            forall|j: int| 0 <= j < k ==> hay@[at + j] == needle@[j],
        decreases needle.len() - k,
    {
        if hay[at + k] != needle[k] {
            assert(hay@.subrange(at as int, at + needle@.len())[k as int] != needle@[k as int]);
            return false;
        }
        k += 1;
    }
    assert(hay@.subrange(at as int, at + needle@.len()) =~= needle@);
    true
}

/// Whether `needle` stands somewhere in `hay`.
pub fn contains_bytes(hay: &[u8], needle: &[u8]) -> (found: bool)
    ensures
        found == occurs(hay@, needle@),
{
    if needle.len() > hay.len() {
        return false;
    }
    let last = hay.len() - needle.len();
    let mut at: usize = 0;
    while at < last
        invariant
            0 <= at <= last,
            last == hay@.len() - needle@.len(),
            forall|a: int| 0 <= a < at ==> !occurs_at(hay@, needle@, a),
        decreases last - at,
    {
        if found_at(hay, needle, at) {
            return true;
        }
        at += 1;
    }
    found_at(hay, needle, last)
}

impl Predicate {
    /// Whether a text passes the predicate.
    pub fn admits(&self, text: &str) -> (passes: bool)
        ensures
            passes == self@.admits(text@),
    {
        match self.field.match_kind() {
            MatchKind::Equals => {
                let given = String::from_str(text);
                given == self.value
            },
            MatchKind::Contains => contains_bytes(text.as_bytes(), self.value.as_str().as_bytes()),
        }
    }

    /// Whether a row passes the predicate.
    pub fn admits_row(&self, row: &Row) -> (passes: bool)
        ensures
            passes == self@.admits_row(row@),
    {
        match row.text(self.field.column()) {
            Some(text) => self.admits(text.as_str()),
            None => false,
        }
    }

    /// The statement that asks `store` for the rows that may pass. Every row
    /// that passes the predicate is among those that the statement returns;
    /// of those returned, `admits_row` tells which pass.
    pub fn select(&self, store: StorePath) -> (statement: Statement)
        ensures
            statement@ == self@.select(store@),
    {
        let mut sql = String::from_str("SELECT * FROM ");
        sql.append(self.field.table());
        sql.append(" WHERE ");
        sql.append(self.field.column());
        let pattern = match self.field.match_kind() {
            MatchKind::Equals => {
                sql.append(" = ?1");
                self.value.clone()
            },
            MatchKind::Contains => {
                sql.append(" LIKE ?1");
                let mut pattern = String::from_str("%");
                pattern.append(self.value.as_str());
                pattern.append("%");
                pattern
            },
        };
        let mut params: Vec<SqlValue> = Vec::new();
        params.push(SqlValue::Text(pattern));
        let statement = Statement { store, sql, params, documents: self.field.documents() };
        assert(statement@.params =~= self@.select(store@).params);
        statement
    }
}

/// The one predicate among those that a filter sets.
pub fn choose_one(mut set: Vec<Predicate>) -> (outcome: Result<Predicate, StoreError>)
    ensures
        match outcome {
            Ok(predicate) => the_one(set.deep_view()) == Ok::<PredicateView, StoreError>(
                predicate@,
            ),
            Err(error) => the_one(set.deep_view()) == Err::<PredicateView, StoreError>(error),
        },
{
    if set.len() == 0 {
        Err(StoreError::NoFilterProvided)
    } else if set.len() == 1 {
        match set.pop() {
            Some(predicate) => Ok(predicate),
            None => Err(StoreError::NoFilterProvided),
        }
    } else {
        Err(StoreError::AmbiguousFilter)
    }
}

} // verus!
