//! Companies: the record, how it is written to the current user's store, and
//! how it is searched for.

use vstd::prelude::*;
use vstd::utf8::encode_utf8;
use crate::error::StoreError;
use crate::path::{AppDataPath, StorePath, StorePathView};
use crate::query::{
    add_condition, choose_one, condition, lemma_occurs_in_itself, the_one, Field, Predicate,
    PredicateView,
};
use crate::session::{current_user_db, get_current_user_db_path, MarkerView, SessionMarker};
use crate::assoc::{lemma_lookup_push, lookup};
use crate::sql::{
    insert, optional_text_column, optional_text_param, optional_text_value, text_column,
    text_param, Action, ActionView, Plan, PlanView, Row, RowView, SqlValue, SqlValueView,
    Statement, StatementView,
};
use crate::stamp::new_record_id;

verus! {

/// A company that the user does business with.
#[derive(Debug, Clone, PartialEq)]
pub struct Company {
    /// The identifier that the store gave the record; none before it is
    /// stored.
    pub id: Option<String>,
    pub name: String,
    pub owner_name: String,
    pub address: String,
    pub pincode: String,
    pub gst_number: String,
    pub phone: String,
    pub email: Option<String>,
}

/// A company as the contracts see it.
pub struct CompanyView {
    pub id: Option<Seq<char>>,
    pub name: Seq<char>,
    pub owner_name: Seq<char>,
    pub address: Seq<char>,
    pub pincode: Seq<char>,
    pub gst_number: Seq<char>,
    pub phone: Seq<char>,
    pub email: Option<Seq<char>>,
}

impl DeepView for Company {
    type V = CompanyView;

    open spec fn deep_view(&self) -> CompanyView {
        CompanyView {
            id: self.id.deep_view(),
            name: self.name@,
            owner_name: self.owner_name@,
            address: self.address@,
            pincode: self.pincode@,
            gst_number: self.gst_number@,
            phone: self.phone@,
            email: self.email.deep_view(),
        }
    }
}

impl View for Company {
    type V = CompanyView;

    open spec fn view(&self) -> CompanyView {
        self.deep_view()
    }
}

/// What a search for companies asks for. Exactly one field is to be set.
#[derive(Debug, Clone, PartialEq)]
pub struct CompanyFilter {
    pub id: Option<String>,
    pub name: Option<String>,
    pub owner_name: Option<String>,
    pub gst_number: Option<String>,
}

/// A company filter as the contracts see it.
pub struct CompanyFilterView {
    pub id: Option<Seq<char>>,
    pub name: Option<Seq<char>>,
    pub owner_name: Option<Seq<char>>,
    pub gst_number: Option<Seq<char>>,
}

impl DeepView for CompanyFilter {
    type V = CompanyFilterView;

    open spec fn deep_view(&self) -> CompanyFilterView {
        CompanyFilterView {
            id: self.id.deep_view(),
            name: self.name.deep_view(),
            owner_name: self.owner_name.deep_view(),
            gst_number: self.gst_number.deep_view(),
        }
    }
}

impl View for CompanyFilter {
    type V = CompanyFilterView;

    open spec fn view(&self) -> CompanyFilterView {
        self.deep_view()
    }
}

impl CompanyFilterView {
    /// The predicates of the fields that are set.
    pub open spec fn conditions(self) -> Seq<PredicateView> {
        condition(Field::CompanyId, self.id) + condition(Field::CompanyName, self.name)
            + condition(Field::CompanyOwnerName, self.owner_name) + condition(
            Field::CompanyGstNumber,
            self.gst_number,
        )
    }

    /// How many fields are set.
    pub open spec fn fields_set(self) -> nat {
        (if self.id is Some {
            1nat
        } else {
            0nat
        }) + (if self.name is Some {
            1nat
        } else {
            0nat
        }) + (if self.owner_name is Some {
            1nat
        } else {
            0nat
        }) + (if self.gst_number is Some {
            1nat
        } else {
            0nat
        })
    }
}

impl CompanyFilter {
    /// The one predicate that the filter stands for.
    ///
    /// Fails with `NoFilterProvided` where no field is set, and with
    /// `AmbiguousFilter` where more than one is.
    pub fn predicate(&self) -> (outcome: Result<Predicate, StoreError>)
        ensures
            match outcome {
                Ok(predicate) => the_one(self@.conditions()) == Ok::<PredicateView, StoreError>(
                    predicate@,
                ),
                Err(error) => the_one(self@.conditions()) == Err::<PredicateView, StoreError>(
                    error,
                ),
            },
    {
        let mut set: Vec<Predicate> = Vec::new();
        assert(set.deep_view() =~= Seq::empty());
        add_condition(&mut set, Field::CompanyId, &self.id);
        add_condition(&mut set, Field::CompanyName, &self.name);
        add_condition(&mut set, Field::CompanyOwnerName, &self.owner_name);
        add_condition(&mut set, Field::CompanyGstNumber, &self.gst_number);
        assert(set.deep_view() =~= self@.conditions());
        choose_one(set)
    }
}

/// A filter stands for a predicate exactly when one of its fields is set:
/// with none set it is refused as empty, with any two set as ambiguous.
pub proof fn lemma_company_filter_one_field(filter: CompanyFilterView)
    ensures
        filter.conditions().len() == filter.fields_set(),
        filter.fields_set() == 0 ==> the_one(filter.conditions()) == Err::<
            PredicateView,
            StoreError,
        >(StoreError::NoFilterProvided),
        filter.fields_set() >= 2 ==> the_one(filter.conditions()) == Err::<
            PredicateView,
            StoreError,
        >(StoreError::AmbiguousFilter),
        filter.fields_set() == 1 ==> the_one(filter.conditions()) is Ok,
{
}

/// The company that a row of the company table holds: every column is there
/// and has its kind; `id` and `email` may hold null.
pub open spec fn company_of_row(row: RowView) -> Option<CompanyView> {
    match (
        optional_text_column(row, "id"@),
        text_column(row, "name"@),
        text_column(row, "owner_name"@),
        text_column(row, "address"@),
        text_column(row, "pincode"@),
        text_column(row, "gst_number"@),
        text_column(row, "phone"@),
        optional_text_column(row, "email"@),
    ) {
        (
            Some(id),
            Some(name),
            Some(owner_name),
            Some(address),
            Some(pincode),
            Some(gst_number),
            Some(phone),
            Some(email),
        ) => Some(
            CompanyView { id, name, owner_name, address, pincode, gst_number, phone, email },
        ),
        _ => None,
    }
}

/// The company that a row holds, if it holds one.
pub fn company_from_row(row: &Row) -> (found: Option<Company>)
    ensures
        match found {
            Some(company) => company_of_row(row@) == Some(company@),
            None => company_of_row(row@) is None,
        },
{
    let id = row.optional_text("id")?;
    let name = row.text("name")?;
    let owner_name = row.text("owner_name")?;
    let address = row.text("address")?;
    let pincode = row.text("pincode")?;
    let gst_number = row.text("gst_number")?;
    let phone = row.text("phone")?;
    let email = row.optional_text("email")?;
    Some(Company { id, name, owner_name, address, pincode, gst_number, phone, email })
}

/// The companies among `rows` that pass the predicate, in the order of the
/// rows; nothing where a row holds no company.
pub open spec fn companies_found(predicate: PredicateView, rows: Seq<RowView>) -> Option<
    Seq<CompanyView>,
>
    decreases rows.len(),
{
    if rows.len() == 0 {
        Some(Seq::empty())
    } else {
        match (companies_found(predicate, rows.drop_last()), company_of_row(rows.last())) {
            (Some(before), Some(company)) => Some(
                if predicate.admits_row(rows.last()) {
                    before.push(company)
                } else {
                    before
                },
            ),
            _ => None,
        }
    }
}

/// What a search finds in the rows that its statement returned.
pub open spec fn company_results(filter: CompanyFilterView, rows: Seq<RowView>) -> Result<
    Seq<CompanyView>,
    StoreError,
> {
    match the_one(filter.conditions()) {
        Err(error) => Err(error),
        Ok(predicate) => match companies_found(predicate, rows) {
            Some(found) => Ok(found),
            None => Err(StoreError::RecordDecodeError),
        },
    }
}

/// The row that is written for a company under the identifier `id`.
pub open spec fn company_cells(company: CompanyView, id: Seq<char>) -> RowView {
    Seq::empty().push(("id"@, SqlValueView::Text(id))).push(
        ("name"@, SqlValueView::Text(company.name)),
    ).push(("address"@, SqlValueView::Text(company.address))).push(
        ("pincode"@, SqlValueView::Text(company.pincode)),
    ).push(("gst_number"@, SqlValueView::Text(company.gst_number))).push(
        ("phone"@, SqlValueView::Text(company.phone)),
    ).push(("email"@, optional_text_value(company.email))).push(
        ("owner_name"@, SqlValueView::Text(company.owner_name)),
    )
}

/// The row that is written for a company under the identifier `id`.
pub fn company_row(company: &Company, id: String) -> (row: Row)
    ensures
        row@ == company_cells(company@, id@),
{
    let mut row = Row::new();
    row.put("id", SqlValue::Text(id));
    row.put("name", text_param(&company.name));
    row.put("address", text_param(&company.address));
    row.put("pincode", text_param(&company.pincode));
    row.put("gst_number", text_param(&company.gst_number));
    row.put("phone", text_param(&company.phone));
    row.put("email", optional_text_param(&company.email));
    row.put("owner_name", text_param(&company.owner_name));
    row
}

/// The names of the columns of the company table differ from each other.
proof fn lemma_company_columns()
    ensures
        "id"@.len() == 2,
        "name"@.len() == 4,
        "address"@.len() == 7,
        "pincode"@.len() == 7,
        "gst_number"@.len() == 10,
        "phone"@.len() == 5,
        "email"@.len() == 5,
        "owner_name"@.len() == 10,
        "address"@[0] != "pincode"@[0],
        "gst_number"@[0] != "owner_name"@[0],
        "phone"@[0] != "email"@[0],
{
    reveal_strlit("id");
    reveal_strlit("name");
    reveal_strlit("address");
    reveal_strlit("pincode");
    reveal_strlit("gst_number");
    reveal_strlit("phone");
    reveal_strlit("email");
    reveal_strlit("owner_name");
}

/// What a lookup finds in the row that is written for a company.
proof fn lemma_company_cells(company: CompanyView, id: Seq<char>)
    ensures
        ({
            let row = company_cells(company, id);
            &&& lookup(row, "id"@) == Some(SqlValueView::Text(id))
            &&& lookup(row, "name"@) == Some(SqlValueView::Text(company.name))
            &&& lookup(row, "address"@) == Some(SqlValueView::Text(company.address))
            &&& lookup(row, "pincode"@) == Some(SqlValueView::Text(company.pincode))
            &&& lookup(row, "gst_number"@) == Some(SqlValueView::Text(company.gst_number))
            &&& lookup(row, "phone"@) == Some(SqlValueView::Text(company.phone))
            &&& lookup(row, "email"@) == Some(optional_text_value(company.email))
            &&& lookup(row, "owner_name"@) == Some(SqlValueView::Text(company.owner_name))
        }),
{
    let row = company_cells(company, id);
    assert(lookup(row, "id"@) == Some(SqlValueView::Text(id))) by {
        broadcast use lemma_lookup_push;

        lemma_company_columns();
    }
    assert(lookup(row, "name"@) == Some(SqlValueView::Text(company.name))) by {
        broadcast use lemma_lookup_push;

        lemma_company_columns();
    }
    assert(lookup(row, "address"@) == Some(SqlValueView::Text(company.address))) by {
        broadcast use lemma_lookup_push;

        lemma_company_columns();
    }
    assert(lookup(row, "pincode"@) == Some(SqlValueView::Text(company.pincode))) by {
        broadcast use lemma_lookup_push;

        lemma_company_columns();
    }
    assert(lookup(row, "gst_number"@) == Some(SqlValueView::Text(company.gst_number))) by {
        broadcast use lemma_lookup_push;

        lemma_company_columns();
    }
    assert(lookup(row, "phone"@) == Some(SqlValueView::Text(company.phone))) by {
        broadcast use lemma_lookup_push;

        lemma_company_columns();
    }
    assert(lookup(row, "email"@) == Some(optional_text_value(company.email))) by {
        broadcast use lemma_lookup_push;

        lemma_company_columns();
    }
    assert(lookup(row, "owner_name"@) == Some(SqlValueView::Text(company.owner_name))) by {
        broadcast use lemma_lookup_push;

        lemma_company_columns();
    }
}

/// The row that is written for a company holds that company, now with its
/// identifier: a company that was added is read back field for field.
pub proof fn lemma_company_read_back(company: CompanyView, id: Seq<char>)
    ensures
        company_of_row(company_cells(company, id)) == Some(
            CompanyView { id: Some(id), ..company },
        ),
{
    lemma_company_cells(company, id);
}

/// A company that was added is found by each of its own fields: the row that
/// is written for it passes the predicate of its identifier, of its name, of
/// its owner's name and of its GST number.
pub proof fn lemma_company_found_by_its_fields(company: CompanyView, id: Seq<char>)
    ensures
        (PredicateView { field: Field::CompanyId, value: id }).admits_row(
            company_cells(company, id),
        ),
        (PredicateView { field: Field::CompanyName, value: company.name }).admits_row(
            company_cells(company, id),
        ),
        (PredicateView { field: Field::CompanyOwnerName, value: company.owner_name }).admits_row(
            company_cells(company, id),
        ),
        (PredicateView { field: Field::CompanyGstNumber, value: company.gst_number }).admits_row(
            company_cells(company, id),
        ),
{
    lemma_company_cells(company, id);
    lemma_occurs_in_itself(encode_utf8(company.name));
    lemma_occurs_in_itself(encode_utf8(company.owner_name));
}

/// A company that was added is found by a search for one of its own fields,
/// behind the companies that the search found before: where the table held
/// `before` and now holds the new row behind them, the search finds what it
/// found in `before`, and then the company that was added.
pub proof fn lemma_added_company_is_found(
    before: Seq<RowView>,
    company: CompanyView,
    id: Seq<char>,
    predicate: PredicateView,
)
    requires
        companies_found(predicate, before) is Some,
        predicate == (PredicateView { field: Field::CompanyId, value: id }) || predicate == (
        PredicateView { field: Field::CompanyName, value: company.name }) || predicate == (
        PredicateView { field: Field::CompanyOwnerName, value: company.owner_name })
            || predicate == (PredicateView {
            field: Field::CompanyGstNumber,
            value: company.gst_number,
        }),
    ensures
        companies_found(predicate, before.push(company_cells(company, id))) == Some(
            companies_found(predicate, before)->0.push(CompanyView { id: Some(id), ..company }),
        ),
{
    let rows = before.push(company_cells(company, id));
    assert(rows.drop_last() =~= before);
    assert(rows.last() == company_cells(company, id));
    lemma_company_read_back(company, id);
    lemma_company_found_by_its_fields(company, id);
}

/// What storing a company under the identifier `id` comes to: one statement
/// that writes its row to the company table, and the report.
pub open spec fn add_company_plan(store: StorePathView, company: CompanyView, id: Seq<char>)
    -> PlanView {
    PlanView {
        actions: seq![
            ActionView::Execute(insert(store, "company"@, company_cells(company, id))),
        ],
        message: "Company "@ + company.name + " added successfully!"@,
    }
}

/// The plan that stores `company` in `store` under the identifier `id`. The
/// identifier that the company may carry is passed over.
pub fn add_company_with_id(store: StorePath, company: &Company, id: String) -> (plan: Plan)
    ensures
        plan@ == add_company_plan(store@, company@, id@),
{
    let statement = company_row(company, id).insert_into(store, "company");
    let mut actions: Vec<Action> = Vec::new();
    actions.push(Action::Execute(statement));
    let mut message = String::from_str("Company ");
    message.append(company.name.as_str());
    message.append(" added successfully!");
    let plan = Plan { actions, message };
    assert(plan@.actions =~= add_company_plan(store@, company@, id@).actions);
    plan
}

/// The identifier under which a plan of `add_company` stores the company.
pub open spec fn stored_id(plan: PlanView) -> Seq<char> {
    plan.actions[0]->Execute_0.params[0]->Text_0
}

/// Stores a company in the current user's store, under a fresh identifier.
///
/// Fails, as `get_current_user_db_path` does, where no data root is set or
/// nobody is logged in.
pub fn add_company(slot: &AppDataPath, marker: &SessionMarker, company: &Company) -> (outcome:
    Result<Plan, StoreError>)
    ensures
        match outcome {
            Ok(plan) => current_user_db(slot.root.deep_view(), marker@) is Ok && plan@
                == add_company_plan(
                current_user_db(slot.root.deep_view(), marker@)->Ok_0,
                company@,
                stored_id(plan@),
            ) && stored_id(plan@).len() == 36,
            Err(error) => current_user_db(slot.root.deep_view(), marker@) == Err::<
                StorePathView,
                StoreError,
            >(error),
        },
{
    let store = get_current_user_db_path(slot, marker)?;
    Ok(add_company_with_id(store, company, new_record_id()))
}

/// The statement of a search, or why there is none: the current user's store
/// is resolved first, then the filter is held to its one field.
pub open spec fn company_search(
    root: Option<Seq<char>>,
    marker: MarkerView,
    filter: CompanyFilterView,
) -> Result<StatementView, StoreError> {
    match current_user_db(root, marker) {
        Err(error) => Err(error),
        Ok(store) => match the_one(filter.conditions()) {
            Err(error) => Err(error),
            Ok(predicate) => Ok(predicate.select(store)),
        },
    }
}

/// The statement that asks the current user's store for the companies that
/// a filter may find.
///
/// Fails, as `get_current_user_db_path` does, where no data root is set or
/// nobody is logged in; else with `NoFilterProvided` where no field of the
/// filter is set, and with `AmbiguousFilter` where more than one is.
pub fn search_company(
    slot: &AppDataPath,
    marker: &SessionMarker,
    filter: &CompanyFilter,
) -> (outcome: Result<Statement, StoreError>)
    ensures
        match outcome {
            Ok(statement) => company_search(slot.root.deep_view(), marker@, filter@) == Ok::<
                StatementView,
                StoreError,
            >(statement@),
            Err(error) => company_search(slot.root.deep_view(), marker@, filter@) == Err::<
                StatementView,
                StoreError,
            >(error),
        },
{
    let store = get_current_user_db_path(slot, marker)?;
    let predicate = filter.predicate()?;
    Ok(predicate.select(store))
}

/// The companies that a search finds among the rows that its statement
/// returned: those that pass the filter's predicate, in the order of the
/// rows.
///
/// Fails as `search_company` does on the filter, and with
/// `RecordDecodeError` where any row holds no company: no row is dropped in
/// silence.
pub fn companies_matching(filter: &CompanyFilter, rows: &Vec<Row>) -> (outcome: Result<
    Vec<Company>,
    StoreError,
>)
    ensures
        match outcome {
            Ok(found) => company_results(filter@, rows.deep_view()) == Ok::<
                Seq<CompanyView>,
                StoreError,
            >(found.deep_view()),
            Err(error) => company_results(filter@, rows.deep_view()) == Err::<
                Seq<CompanyView>,
                StoreError,
            >(error),
        },
{
    let predicate = filter.predicate()?;
    let mut found: Vec<Company> = Vec::new();
    let mut i: usize = 0;
    assert(rows.deep_view().take(0) =~= Seq::empty());
    assert(found.deep_view() =~= Seq::empty());
    while i < rows.len()
        invariant
            0 <= i <= rows.len(),
            the_one(filter@.conditions()) == Ok::<PredicateView, StoreError>(predicate@),
            companies_found(predicate@, rows.deep_view().take(i as int)) == Some(
                found.deep_view(),
            ),
        decreases rows.len() - i,
    {
        proof {
            let done = rows.deep_view().take(i + 1);
            assert(done.drop_last() =~= rows.deep_view().take(i as int));
            assert(done.last() == rows[i as int]@);
        }
        match company_from_row(&rows[i]) {
            Some(company) => {
                if predicate.admits_row(&rows[i]) {
                    let ghost before = found.deep_view();
                    found.push(company);
                    assert(found.deep_view() =~= before.push(company@));
                }
            },
            None => {
                proof {
                    lemma_undecodable_company(predicate@, rows.deep_view(), i as int);
                }
                return Err(StoreError::RecordDecodeError);
            },
        }
        i += 1;
    }
    assert(rows.deep_view().take(rows.len() as int) =~= rows.deep_view());
    Ok(found)
}

/// One row that holds no company makes the whole search fail.
pub proof fn lemma_undecodable_company(predicate: PredicateView, rows: Seq<RowView>, at: int)
    requires
        0 <= at < rows.len(),
        company_of_row(rows[at]) is None,
    ensures
        companies_found(predicate, rows) is None,
    decreases rows.len(),
{
    if at < rows.len() - 1 {
        assert(rows.drop_last()[at] == rows[at]);
        lemma_undecodable_company(predicate, rows.drop_last(), at);
    }
}

} // verus!
