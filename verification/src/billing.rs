//! Invoices in the current user's store: how one is written, and how they
//! are searched for.

use vstd::prelude::*;
use vstd::utf8::encode_utf8;
use crate::assoc::{lemma_lookup_push, lookup};
use crate::codec::{
    charges_doc, charges_of, decode_charges, decode_items, encode_charges, encode_items,
    items_doc, items_of, lemma_charges_round_trip, lemma_items_round_trip,
};
use crate::error::StoreError;
use crate::invoice::{
    charges_well_formed, items_well_formed, AdditionalCharges, AdditionalChargesView, Invoice,
    InvoiceItem, InvoiceItemView, InvoiceView,
};
use crate::path::{AppDataPath, StorePath, StorePathView};
use crate::query::{
    add_condition, choose_one, condition, lemma_occurs_in_itself, the_one, Field, Predicate,
    PredicateView,
};
use crate::session::{current_user_db, get_current_user_db_path, MarkerView, SessionMarker};
use crate::sql::{
    insert, document_column, optional_real_column, optional_real_param, optional_real_value,
    optional_text_column, optional_text_param, optional_text_value, real_column, text_column,
    text_param, Action, ActionView, Plan, PlanView, Row, RowView, SqlValue, SqlValueView,
    Statement, StatementView,
};

verus! {

/// What a search for invoices asks for. Exactly one field is to be set.
#[derive(Debug, Clone, PartialEq)]
pub struct InvoiceFilter {
    pub id: Option<String>,
    pub invoice_number: Option<String>,
    pub recipient_name: Option<String>,
    pub recipient_gst_number: Option<String>,
}

/// An invoice filter as the contracts see it.
pub struct InvoiceFilterView {
    pub id: Option<Seq<char>>,
    pub invoice_number: Option<Seq<char>>,
    pub recipient_name: Option<Seq<char>>,
    pub recipient_gst_number: Option<Seq<char>>,
}

impl DeepView for InvoiceFilter {
    type V = InvoiceFilterView;

    open spec fn deep_view(&self) -> InvoiceFilterView {
        InvoiceFilterView {
            id: self.id.deep_view(),
            invoice_number: self.invoice_number.deep_view(),
            recipient_name: self.recipient_name.deep_view(),
            recipient_gst_number: self.recipient_gst_number.deep_view(),
        }
    }
}

impl View for InvoiceFilter {
    type V = InvoiceFilterView;

    open spec fn view(&self) -> InvoiceFilterView {
        self.deep_view()
    }
}

impl InvoiceFilterView {
    /// The predicates of the fields that are set.
    pub open spec fn conditions(self) -> Seq<PredicateView> {
        condition(Field::InvoiceId, self.id) + condition(
            Field::InvoiceNumber,
            self.invoice_number,
        ) + condition(Field::InvoiceRecipientName, self.recipient_name) + condition(
            Field::InvoiceRecipientGstNumber,
            self.recipient_gst_number,
        )
    }

    /// How many fields are set.
    pub open spec fn fields_set(self) -> nat {
        (if self.id is Some {
            1nat
        } else {
            0nat
        }) + (if self.invoice_number is Some {
            1nat
        } else {
            0nat
        }) + (if self.recipient_name is Some {
            1nat
        } else {
            0nat
        }) + (if self.recipient_gst_number is Some {
            1nat
        } else {
            0nat
        })
    }
}

impl InvoiceFilter {
    /// The one predicate that the filter stands for.
    ///
    /// Fails with `NoFilterProvided` where no field is set, and with
    /// `AmbiguousFilter` where more than one is.
    pub fn predicate(&self) -> (outcome: Result<Predicate, StoreError>)
        ensures
            match outcome {
                Ok(predicate) => the_one(self@.conditions()) == Ok::<PredicateView, StoreError>(
                    predicate@,
                ),
                Err(error) => the_one(self@.conditions()) == Err::<PredicateView, StoreError>(
                    error,
                ),
            },
    {
        let mut set: Vec<Predicate> = Vec::new();
        assert(set.deep_view() =~= Seq::empty());
        add_condition(&mut set, Field::InvoiceId, &self.id);
        add_condition(&mut set, Field::InvoiceNumber, &self.invoice_number);
        add_condition(&mut set, Field::InvoiceRecipientName, &self.recipient_name);
        add_condition(&mut set, Field::InvoiceRecipientGstNumber, &self.recipient_gst_number);
        assert(set.deep_view() =~= self@.conditions());
        choose_one(set)
    }
}

/// A filter stands for a predicate exactly when one of its fields is set:
/// with none set it is refused as empty, with any two set as ambiguous.
pub proof fn lemma_invoice_filter_one_field(filter: InvoiceFilterView)
    ensures
        filter.conditions().len() == filter.fields_set(),
        filter.fields_set() == 0 ==> the_one(filter.conditions()) == Err::<
            PredicateView,
            StoreError,
        >(StoreError::NoFilterProvided),
        filter.fields_set() >= 2 ==> the_one(filter.conditions()) == Err::<
            PredicateView,
            StoreError,
        >(StoreError::AmbiguousFilter),
        filter.fields_set() == 1 ==> the_one(filter.conditions()) is Ok,
{
}

/// The lines in a row: the column `items_json` holds a document, and the
/// document holds lines.
pub open spec fn items_column(row: RowView) -> Option<Seq<InvoiceItemView>> {
    match document_column(row, "items_json"@) {
        Some(doc) => items_of(doc),
        None => None,
    }
}

/// The charges in a row: the column `additional_charges_json` holds a
/// document, and the document holds charges or is null.
pub open spec fn charges_column(row: RowView) -> Option<Option<Seq<AdditionalChargesView>>> {
    match document_column(row, "additional_charges_json"@) {
        Some(doc) => charges_of(doc),
        None => None,
    }
}

/// Whether a row of the invoice table holds an invoice: every column is
/// there and has its kind, and the two documents hold lines and charges.
pub open spec fn row_holds_invoice(row: RowView) -> bool {
    &&& text_column(row, "id"@) is Some
    &&& text_column(row, "issuer_name"@) is Some
    &&& text_column(row, "issuer_address"@) is Some
    &&& text_column(row, "issuer_gst_number"@) is Some
    &&& text_column(row, "issuer_phone"@) is Some
    &&& optional_text_column(row, "issuer_email"@) is Some
    &&& text_column(row, "recipient_name"@) is Some
    &&& text_column(row, "recipient_address"@) is Some
    &&& text_column(row, "recipient_gst_number"@) is Some
    &&& text_column(row, "recipient_phone"@) is Some
    &&& optional_text_column(row, "recipient_email"@) is Some
    &&& text_column(row, "invoice_number"@) is Some
    &&& text_column(row, "invoice_date"@) is Some
    &&& real_column(row, "amount"@) is Some
    &&& optional_real_column(row, "cgst_percentage"@) is Some
    &&& optional_real_column(row, "sgst_percentage"@) is Some
    &&& optional_real_column(row, "igst_percentage"@) is Some
    &&& charges_column(row) is Some
    &&& real_column(row, "total_amount"@) is Some
    &&& items_column(row) is Some
}

/// The invoice that a row of the invoice table holds.
pub open spec fn invoice_of_row(row: RowView) -> Option<InvoiceView> {
    if row_holds_invoice(row) {
        Some(
            InvoiceView {
                id: text_column(row, "id"@)->0,
                issuer_name: text_column(row, "issuer_name"@)->0,
                issuer_address: text_column(row, "issuer_address"@)->0,
                issuer_gst_number: text_column(row, "issuer_gst_number"@)->0,
                issuer_phone: text_column(row, "issuer_phone"@)->0,
                issuer_email: optional_text_column(row, "issuer_email"@)->0,
                recipient_name: text_column(row, "recipient_name"@)->0,
                recipient_address: text_column(row, "recipient_address"@)->0,
                recipient_gst_number: text_column(row, "recipient_gst_number"@)->0,
                recipient_phone: text_column(row, "recipient_phone"@)->0,
                recipient_email: optional_text_column(row, "recipient_email"@)->0,
                invoice_number: text_column(row, "invoice_number"@)->0,
                invoice_date: text_column(row, "invoice_date"@)->0,
                amount: real_column(row, "amount"@)->0,
                cgst_percentage: optional_real_column(row, "cgst_percentage"@)->0,
                sgst_percentage: optional_real_column(row, "sgst_percentage"@)->0,
                igst_percentage: optional_real_column(row, "igst_percentage"@)->0,
                additional_charges: charges_column(row)->0,
                total: real_column(row, "total_amount"@)->0,
                items: items_column(row)->0,
            },
        )
    } else {
        None
    }
}

fn items_from_column(row: &Row) -> (found: Option<Vec<InvoiceItem>>)
    ensures
        match found {
            Some(items) => items_column(row@) == Some(items.deep_view()),
            None => items_column(row@) is None,
        },
{
    match decode_items(row.document("items_json")?) {
        Ok(items) => Some(items),
        Err(_) => None,
    }
}

fn charges_from_column(row: &Row) -> (found: Option<Option<Vec<AdditionalCharges>>>)
    ensures
        match found {
            Some(charges) => charges_column(row@) == Some(charges.deep_view()),
            None => charges_column(row@) is None,
        },
{
    match decode_charges(row.document("additional_charges_json")?) {
        Ok(charges) => Some(charges),
        Err(_) => None,
    }
}

/// The invoice that a row holds, if it holds one.
pub fn invoice_from_row(row: &Row) -> (found: Option<Invoice>)
    ensures
        match found {
            Some(invoice) => invoice_of_row(row@) == Some(invoice@),
            None => invoice_of_row(row@) is None,
        },
{
    let id = row.text("id")?;
    let issuer_name = row.text("issuer_name")?;
    let issuer_address = row.text("issuer_address")?;
    let issuer_gst_number = row.text("issuer_gst_number")?;
    let issuer_phone = row.text("issuer_phone")?;
    let issuer_email = row.optional_text("issuer_email")?;
    let recipient_name = row.text("recipient_name")?;
    let recipient_address = row.text("recipient_address")?;
    let recipient_gst_number = row.text("recipient_gst_number")?;
    let recipient_phone = row.text("recipient_phone")?;
    let recipient_email = row.optional_text("recipient_email")?;
    let invoice_number = row.text("invoice_number")?;
    let invoice_date = row.text("invoice_date")?;
    let amount = row.number("amount")?;
    let cgst_percentage = row.optional_number("cgst_percentage")?;
    let sgst_percentage = row.optional_number("sgst_percentage")?;
    let igst_percentage = row.optional_number("igst_percentage")?;
    let additional_charges = charges_from_column(row)?;
    let total = row.number("total_amount")?;
    let items = items_from_column(row)?;
    Some(
        Invoice {
            id,
            issuer_name,
            issuer_address,
            issuer_gst_number,
            issuer_phone,
            issuer_email,
            recipient_name,
            recipient_address,
            recipient_gst_number,
            recipient_phone,
            recipient_email,
            invoice_number,
            invoice_date,
            amount,
            cgst_percentage,
            sgst_percentage,
            igst_percentage,
            additional_charges,
            total,
            items,
        },
    )
}

/// The invoices among `rows` that pass the predicate, in the order of the
/// rows; nothing where a row holds no invoice.
pub open spec fn invoices_found(predicate: PredicateView, rows: Seq<RowView>) -> Option<
    Seq<InvoiceView>,
>
    decreases rows.len(),
{
    if rows.len() == 0 {
        Some(Seq::empty())
    } else {
        match (invoices_found(predicate, rows.drop_last()), invoice_of_row(rows.last())) {
            (Some(before), Some(invoice)) => Some(
                if predicate.admits_row(rows.last()) {
                    before.push(invoice)
                } else {
                    before
                },
            ),
            _ => None,
        }
    }
}

/// What a search finds in the rows that its statement returned.
pub open spec fn invoice_results(filter: InvoiceFilterView, rows: Seq<RowView>) -> Result<
    Seq<InvoiceView>,
    StoreError,
> {
    match the_one(filter.conditions()) {
        Err(error) => Err(error),
        Ok(predicate) => match invoices_found(predicate, rows) {
            Some(found) => Ok(found),
            None => Err(StoreError::RecordDecodeError),
        },
    }
}

/// The row that is written for an invoice. The lines and the charges go as
/// one document each.
pub open spec fn invoice_cells(invoice: InvoiceView) -> RowView {
    Seq::empty().push(
        ("id"@, SqlValueView::Text(invoice.id)),
    ).push(
        ("invoice_number"@, SqlValueView::Text(invoice.invoice_number)),
    ).push(
        ("issuer_name"@, SqlValueView::Text(invoice.issuer_name)),
    ).push(
        ("issuer_address"@, SqlValueView::Text(invoice.issuer_address)),
    ).push(
        ("issuer_gst_number"@, SqlValueView::Text(invoice.issuer_gst_number)),
    ).push(
        ("issuer_phone"@, SqlValueView::Text(invoice.issuer_phone)),
    ).push(
        ("issuer_email"@, optional_text_value(invoice.issuer_email)),
    ).push(
        ("recipient_name"@, SqlValueView::Text(invoice.recipient_name)),
    ).push(
        ("recipient_address"@, SqlValueView::Text(invoice.recipient_address)),
    ).push(
        ("recipient_gst_number"@, SqlValueView::Text(invoice.recipient_gst_number)),
    ).push(
        ("recipient_phone"@, SqlValueView::Text(invoice.recipient_phone)),
    ).push(
        ("recipient_email"@, optional_text_value(invoice.recipient_email)),
    ).push(
        ("items_json"@, SqlValueView::Document(items_doc(invoice.items))),
    ).push(
        ("invoice_date"@, SqlValueView::Text(invoice.invoice_date)),
    ).push(
        ("amount"@, SqlValueView::Real(invoice.amount)),
    ).push(
        ("cgst_percentage"@, optional_real_value(invoice.cgst_percentage)),
    ).push(
        ("sgst_percentage"@, optional_real_value(invoice.sgst_percentage)),
    ).push(
        ("igst_percentage"@, optional_real_value(invoice.igst_percentage)),
    ).push(
        (
            "additional_charges_json"@,
            SqlValueView::Document(charges_doc(invoice.additional_charges)),
        ),
    ).push(
        ("total_amount"@, SqlValueView::Real(invoice.total)),
    )
}

/// The row that is written for an invoice.
pub fn invoice_row(invoice: &Invoice) -> (row: Row)
    ensures
        row@ == invoice_cells(invoice@),
{
    let mut row = Row::new();
    row.put("id", text_param(&invoice.id));
    row.put("invoice_number", text_param(&invoice.invoice_number));
    row.put("issuer_name", text_param(&invoice.issuer_name));
    row.put("issuer_address", text_param(&invoice.issuer_address));
    row.put("issuer_gst_number", text_param(&invoice.issuer_gst_number));
    row.put("issuer_phone", text_param(&invoice.issuer_phone));
    row.put("issuer_email", optional_text_param(&invoice.issuer_email));
    row.put("recipient_name", text_param(&invoice.recipient_name));
    row.put("recipient_address", text_param(&invoice.recipient_address));
    row.put("recipient_gst_number", text_param(&invoice.recipient_gst_number));
    row.put("recipient_phone", text_param(&invoice.recipient_phone));
    row.put("recipient_email", optional_text_param(&invoice.recipient_email));
    row.put("items_json", SqlValue::Document(encode_items(&invoice.items)));
    row.put("invoice_date", text_param(&invoice.invoice_date));
    row.put("amount", SqlValue::Real(invoice.amount));
    row.put("cgst_percentage", optional_real_param(&invoice.cgst_percentage));
    row.put("sgst_percentage", optional_real_param(&invoice.sgst_percentage));
    row.put("igst_percentage", optional_real_param(&invoice.igst_percentage));
    row.put(
        "additional_charges_json",
        SqlValue::Document(encode_charges(&invoice.additional_charges)),
    );
    row.put("total_amount", SqlValue::Real(invoice.total));
    row
}

/// The names of the columns of the invoice table differ from each other.
proof fn lemma_invoice_columns()
    ensures
        "id"@.len() == 2,
        "invoice_number"@.len() == 14,
        "issuer_name"@.len() == 11,
        "issuer_address"@.len() == 14,
        "issuer_gst_number"@.len() == 17,
        "issuer_phone"@.len() == 12,
        "issuer_email"@.len() == 12,
        "recipient_name"@.len() == 14,
        "recipient_address"@.len() == 17,
        "recipient_gst_number"@.len() == 20,
        "recipient_phone"@.len() == 15,
        "recipient_email"@.len() == 15,
        "items_json"@.len() == 10,
        "invoice_date"@.len() == 12,
        "amount"@.len() == 6,
        "cgst_percentage"@.len() == 15,
        "sgst_percentage"@.len() == 15,
        "igst_percentage"@.len() == 15,
        "additional_charges_json"@.len() == 23,
        "total_amount"@.len() == 12,
        "invoice_number"@[1] != "issuer_address"@[1],
        "invoice_number"@[0] != "recipient_name"@[0],
        "issuer_address"@[0] != "recipient_name"@[0],
        "issuer_gst_number"@[0] != "recipient_address"@[0],
        "issuer_phone"@[7] != "issuer_email"@[7],
        "issuer_phone"@[1] != "invoice_date"@[1],
        "issuer_phone"@[0] != "total_amount"@[0],
        "issuer_email"@[1] != "invoice_date"@[1],
        "issuer_email"@[0] != "total_amount"@[0],
        "recipient_phone"@[10] != "recipient_email"@[10],
        "recipient_phone"@[0] != "cgst_percentage"@[0],
        "recipient_phone"@[0] != "sgst_percentage"@[0],
        "recipient_phone"@[0] != "igst_percentage"@[0],
        "recipient_email"@[0] != "cgst_percentage"@[0],
        "recipient_email"@[0] != "sgst_percentage"@[0],
        "recipient_email"@[0] != "igst_percentage"@[0],
        "invoice_date"@[0] != "total_amount"@[0],
        "cgst_percentage"@[0] != "sgst_percentage"@[0],
        "cgst_percentage"@[0] != "igst_percentage"@[0],
        "sgst_percentage"@[0] != "igst_percentage"@[0],
{
    reveal_strlit("id");
    reveal_strlit("invoice_number");
    reveal_strlit("issuer_name");
    reveal_strlit("issuer_address");
    reveal_strlit("issuer_gst_number");
    reveal_strlit("issuer_phone");
    reveal_strlit("issuer_email");
    reveal_strlit("recipient_name");
    reveal_strlit("recipient_address");
    reveal_strlit("recipient_gst_number");
    reveal_strlit("recipient_phone");
    reveal_strlit("recipient_email");
    reveal_strlit("items_json");
    reveal_strlit("invoice_date");
    reveal_strlit("amount");
    reveal_strlit("cgst_percentage");
    reveal_strlit("sgst_percentage");
    reveal_strlit("igst_percentage");
    reveal_strlit("additional_charges_json");
    reveal_strlit("total_amount");
}

/// The row that is written for an invoice whose lines and charges are well
/// formed holds that invoice: an invoice that was created is read back field
/// for field, with its lines and charges.
pub proof fn lemma_invoice_read_back(invoice: InvoiceView)
    requires
        items_well_formed(invoice.items),
        invoice.additional_charges is Some ==> charges_well_formed(
            invoice.additional_charges->0,
        ),
    ensures
        invoice_of_row(invoice_cells(invoice)) == Some(invoice),
{
    let row = invoice_cells(invoice);
    assert(lookup(row, "id"@) == Some(SqlValueView::Text(invoice.id))) by {
        broadcast use lemma_lookup_push;

        lemma_invoice_columns();
    }
    assert(lookup(row, "invoice_number"@) == Some(SqlValueView::Text(invoice.invoice_number))) by {
        broadcast use lemma_lookup_push;

        lemma_invoice_columns();
    }
    assert(lookup(row, "issuer_name"@) == Some(SqlValueView::Text(invoice.issuer_name))) by {
        broadcast use lemma_lookup_push;

        lemma_invoice_columns();
    }
    assert(lookup(row, "issuer_address"@) == Some(SqlValueView::Text(invoice.issuer_address))) by {
        broadcast use lemma_lookup_push;

        lemma_invoice_columns();
    }
    assert(lookup(row, "issuer_gst_number"@) == Some(
        SqlValueView::Text(invoice.issuer_gst_number),
    )) by {
        broadcast use lemma_lookup_push;

        lemma_invoice_columns();
    }
    assert(lookup(row, "issuer_phone"@) == Some(SqlValueView::Text(invoice.issuer_phone))) by {
        broadcast use lemma_lookup_push;

        lemma_invoice_columns();
    }
    assert(lookup(row, "issuer_email"@) == Some(optional_text_value(invoice.issuer_email))) by {
        broadcast use lemma_lookup_push;

        lemma_invoice_columns();
    }
    assert(lookup(row, "recipient_name"@) == Some(SqlValueView::Text(invoice.recipient_name))) by {
        broadcast use lemma_lookup_push;

        lemma_invoice_columns();
    }
    assert(lookup(row, "recipient_address"@) == Some(
        SqlValueView::Text(invoice.recipient_address),
    )) by {
        broadcast use lemma_lookup_push;

        lemma_invoice_columns();
    }
    assert(lookup(row, "recipient_gst_number"@) == Some(
        SqlValueView::Text(invoice.recipient_gst_number),
    )) by {
        broadcast use lemma_lookup_push;

        lemma_invoice_columns();
    }
    assert(lookup(row, "recipient_phone"@) == Some(
        SqlValueView::Text(invoice.recipient_phone),
    )) by {
        broadcast use lemma_lookup_push;

        lemma_invoice_columns();
    }
    assert(lookup(row, "recipient_email"@) == Some(
        optional_text_value(invoice.recipient_email),
    )) by {
        broadcast use lemma_lookup_push;

        lemma_invoice_columns();
    }
    assert(lookup(row, "items_json"@) == Some(
        SqlValueView::Document(items_doc(invoice.items)),
    )) by {
        broadcast use lemma_lookup_push;

        lemma_invoice_columns();
    }
    assert(lookup(row, "invoice_date"@) == Some(SqlValueView::Text(invoice.invoice_date))) by {
        broadcast use lemma_lookup_push;

        lemma_invoice_columns();
    }
    assert(lookup(row, "amount"@) == Some(SqlValueView::Real(invoice.amount))) by {
        broadcast use lemma_lookup_push;

        lemma_invoice_columns();
    }
    assert(lookup(row, "cgst_percentage"@) == Some(
        optional_real_value(invoice.cgst_percentage),
    )) by {
        broadcast use lemma_lookup_push;

        lemma_invoice_columns();
    }
    assert(lookup(row, "sgst_percentage"@) == Some(
        optional_real_value(invoice.sgst_percentage),
    )) by {
        broadcast use lemma_lookup_push;

        lemma_invoice_columns();
    }
    assert(lookup(row, "igst_percentage"@) == Some(
        optional_real_value(invoice.igst_percentage),
    )) by {
        broadcast use lemma_lookup_push;

        lemma_invoice_columns();
    }
    assert(lookup(row, "additional_charges_json"@) == Some(
        SqlValueView::Document(charges_doc(invoice.additional_charges)),
    )) by {
        broadcast use lemma_lookup_push;

        lemma_invoice_columns();
    }
    assert(lookup(row, "total_amount"@) == Some(SqlValueView::Real(invoice.total))) by {
        broadcast use lemma_lookup_push;

        lemma_invoice_columns();
    }
    lemma_items_round_trip(invoice.items);
    lemma_charges_round_trip(invoice.additional_charges);
}

/// An invoice that was created is found by each of its own fields: the row
/// that is written for it passes the predicate of its identifier, of its
/// number, of its recipient's name and of its recipient's GST number.
pub proof fn lemma_invoice_found_by_its_fields(invoice: InvoiceView)
    ensures
        (PredicateView { field: Field::InvoiceId, value: invoice.id }).admits_row(
            invoice_cells(invoice),
        ),
        (PredicateView { field: Field::InvoiceNumber, value: invoice.invoice_number }).admits_row(
            invoice_cells(invoice),
        ),
        (PredicateView {
            field: Field::InvoiceRecipientName,
            value: invoice.recipient_name,
        }).admits_row(invoice_cells(invoice)),
        (PredicateView {
            field: Field::InvoiceRecipientGstNumber,
            value: invoice.recipient_gst_number,
        }).admits_row(invoice_cells(invoice)),
{
    let row = invoice_cells(invoice);
    assert(lookup(row, "id"@) == Some(SqlValueView::Text(invoice.id))) by {
        broadcast use lemma_lookup_push;

        lemma_invoice_columns();
    }
    assert(lookup(row, "invoice_number"@) == Some(SqlValueView::Text(invoice.invoice_number))) by {
        broadcast use lemma_lookup_push;

        lemma_invoice_columns();
    }
    assert(lookup(row, "recipient_name"@) == Some(SqlValueView::Text(invoice.recipient_name))) by {
        broadcast use lemma_lookup_push;

        lemma_invoice_columns();
    }
    assert(lookup(row, "recipient_gst_number"@) == Some(
        SqlValueView::Text(invoice.recipient_gst_number),
    )) by {
        broadcast use lemma_lookup_push;

        lemma_invoice_columns();
    }
    lemma_occurs_in_itself(encode_utf8(invoice.recipient_name));
}

/// An invoice that was created is found by a search for one of its own
/// fields, behind the invoices that the search found before: where the table
/// held `before` and now holds the new row behind them, the search finds what
/// it found in `before`, and then the invoice that was created.
pub proof fn lemma_created_invoice_is_found(
    before: Seq<RowView>,
    invoice: InvoiceView,
    predicate: PredicateView,
)
    requires
        items_well_formed(invoice.items),
        invoice.additional_charges is Some ==> charges_well_formed(
            invoice.additional_charges->0,
        ),
        invoices_found(predicate, before) is Some,
        predicate == (PredicateView { field: Field::InvoiceId, value: invoice.id })
            || predicate == (PredicateView {
            field: Field::InvoiceNumber,
            value: invoice.invoice_number,
        }) || predicate == (PredicateView {
            field: Field::InvoiceRecipientName,
            value: invoice.recipient_name,
        }) || predicate == (PredicateView {
            field: Field::InvoiceRecipientGstNumber,
            value: invoice.recipient_gst_number,
        }),
    ensures
        invoices_found(predicate, before.push(invoice_cells(invoice))) == Some(
            invoices_found(predicate, before)->0.push(invoice),
        ),
{
    let rows = before.push(invoice_cells(invoice));
    assert(rows.drop_last() =~= before);
    assert(rows.last() == invoice_cells(invoice));
    lemma_invoice_read_back(invoice);
    lemma_invoice_found_by_its_fields(invoice);
}

/// What storing an invoice comes to: one statement that writes its row to
/// the invoice table, and the report.
pub open spec fn create_invoice_plan(store: StorePathView, invoice: InvoiceView) -> PlanView {
    PlanView {
        actions: seq![ActionView::Execute(insert(store, "invoices"@, invoice_cells(invoice)))],
        message: "Invoice "@ + invoice.invoice_number + " created successfully!"@,
    }
}

/// The plan that stores `invoice` in `store`.
pub fn create_invoice_in(store: StorePath, invoice: &Invoice) -> (plan: Plan)
    ensures
        plan@ == create_invoice_plan(store@, invoice@),
{
    let statement = invoice_row(invoice).insert_into(store, "invoices");
    let mut actions: Vec<Action> = Vec::new();
    actions.push(Action::Execute(statement));
    let mut message = String::from_str("Invoice ");
    message.append(invoice.invoice_number.as_str());
    message.append(" created successfully!");
    let plan = Plan { actions, message };
    assert(plan@.actions =~= create_invoice_plan(store@, invoice@).actions);
    plan
}

/// What `create_invoice` comes to, or why it comes to nothing.
pub open spec fn invoice_creation(
    root: Option<Seq<char>>,
    marker: MarkerView,
    invoice: InvoiceView,
) -> Result<PlanView, StoreError> {
    match current_user_db(root, marker) {
        Err(error) => Err(error),
        Ok(store) => Ok(create_invoice_plan(store, invoice)),
    }
}

/// Stores an invoice in the current user's store, its lines and charges as
/// one document each.
///
/// Fails, as `get_current_user_db_path` does, where no data root is set or
/// nobody is logged in.
pub fn create_invoice(slot: &AppDataPath, marker: &SessionMarker, invoice: &Invoice) -> (outcome:
    Result<Plan, StoreError>)
    ensures
        match outcome {
            Ok(plan) => invoice_creation(slot.root.deep_view(), marker@, invoice@) == Ok::<
                PlanView,
                StoreError,
            >(plan@),
            Err(error) => invoice_creation(slot.root.deep_view(), marker@, invoice@) == Err::<
                PlanView,
                StoreError,
            >(error),
        },
{
    let store = get_current_user_db_path(slot, marker)?;
    Ok(create_invoice_in(store, invoice))
}

/// The statement of a search, or why there is none: the current user's store
/// is resolved first, then the filter is held to its one field.
pub open spec fn invoice_search(
    root: Option<Seq<char>>,
    marker: MarkerView,
    filter: InvoiceFilterView,
) -> Result<StatementView, StoreError> {
    match current_user_db(root, marker) {
        Err(error) => Err(error),
        Ok(store) => match the_one(filter.conditions()) {
            Err(error) => Err(error),
            Ok(predicate) => Ok(predicate.select(store)),
        },
    }
}

/// The statement that asks the current user's store for the invoices that a
/// filter may find.
///
/// Fails, as `get_current_user_db_path` does, where no data root is set or
/// nobody is logged in; else with `NoFilterProvided` where no field of the
/// filter is set, and with `AmbiguousFilter` where more than one is.
pub fn search_invoices(
    slot: &AppDataPath,
    marker: &SessionMarker,
    filter: &InvoiceFilter,
) -> (outcome: Result<Statement, StoreError>)
    ensures
        match outcome {
            Ok(statement) => invoice_search(slot.root.deep_view(), marker@, filter@) == Ok::<
                StatementView,
                StoreError,
            >(statement@),
            Err(error) => invoice_search(slot.root.deep_view(), marker@, filter@) == Err::<
                StatementView,
                StoreError,
            >(error),
        },
{
    let store = get_current_user_db_path(slot, marker)?;
    let predicate = filter.predicate()?;
    Ok(predicate.select(store))
}

/// One row that holds no invoice makes the whole search fail.
pub proof fn lemma_undecodable_invoice(predicate: PredicateView, rows: Seq<RowView>, at: int)
    requires
        0 <= at < rows.len(),
        invoice_of_row(rows[at]) is None,
    ensures
        invoices_found(predicate, rows) is None,
    decreases rows.len(),
{
    if at < rows.len() - 1 {
        assert(rows.drop_last()[at] == rows[at]);
        lemma_undecodable_invoice(predicate, rows.drop_last(), at);
    }
}

/// The invoices that a search finds among the rows that its statement
/// returned: those that pass the filter's predicate, in the order of the
/// rows, each with its lines and charges.
///
/// Fails as `search_invoices` does on the filter, and with
/// `RecordDecodeError` where any row holds no invoice: no row is dropped in
/// silence.
pub fn invoices_matching(filter: &InvoiceFilter, rows: &Vec<Row>) -> (outcome: Result<
    Vec<Invoice>,
    StoreError,
>)
    ensures
        match outcome {
            Ok(found) => invoice_results(filter@, rows.deep_view()) == Ok::<
                Seq<InvoiceView>,
                StoreError,
            >(found.deep_view()),
            Err(error) => invoice_results(filter@, rows.deep_view()) == Err::<
                Seq<InvoiceView>,
                StoreError,
            >(error),
        },
{
    let predicate = filter.predicate()?;
    let mut found: Vec<Invoice> = Vec::new();
    let mut i: usize = 0;
    assert(rows.deep_view().take(0) =~= Seq::empty());
    assert(found.deep_view() =~= Seq::empty());
    while i < rows.len()
        invariant
            0 <= i <= rows.len(),
            the_one(filter@.conditions()) == Ok::<PredicateView, StoreError>(predicate@),
            invoices_found(predicate@, rows.deep_view().take(i as int)) == Some(
                found.deep_view(),
            ),
        decreases rows.len() - i,
    {
        proof {
            let done = rows.deep_view().take(i + 1);
            assert(done.drop_last() =~= rows.deep_view().take(i as int));
            assert(done.last() == rows[i as int]@);
        }
        match invoice_from_row(&rows[i]) {
            Some(invoice) => {
                if predicate.admits_row(&rows[i]) {
                    let ghost before = found.deep_view();
                    found.push(invoice);
                    assert(found.deep_view() =~= before.push(invoice@));
                }
            },
            None => {
                proof {
                    lemma_undecodable_invoice(predicate@, rows.deep_view(), i as int);
                }
                return Err(StoreError::RecordDecodeError);
            },
        }
        i += 1;
    }
    assert(rows.deep_view().take(rows.len() as int) =~= rows.deep_view());
    Ok(found)
}

} // verus!
