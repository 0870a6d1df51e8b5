//! The record codec: how the lines and charges of an invoice, and an invoice
//! as a whole, are laid out as documents, and how they are read back.

use vstd::prelude::*;
use crate::assoc::lemma_lookup_push;
use crate::error::StoreError;
use crate::invoice::{
    charges_well_formed, items_well_formed, AdditionalCharges,
    AdditionalChargesView, Invoice, InvoiceItem, InvoiceItemView, InvoiceView,
};
use crate::json::{
    array, elements_view, member, members_view, number, number_member, number_view, object,
    optional_number, optional_number_member, optional_number_view, optional_text,
    optional_text_member, optional_text_view, put, text, text_member, Json, JsonView,
};

verus! {

/// The document of one line: an object with the members `description`,
/// `hsn`, `quantity`, `rate` and `amount`, in this order.
pub open spec fn item_doc(item: InvoiceItemView) -> JsonView {
    JsonView::Object(
        Seq::empty().push(("description"@, JsonView::Text(item.description))).push(
            ("hsn"@, JsonView::Text(item.hsn)),
        ).push(("quantity"@, number_view(item.quantity))).push(
            ("rate"@, number_view(item.rate)),
        ).push(("amount"@, number_view(item.amount))),
    )
}

/// The line that a document holds: an object whose members `description`
/// and `hsn` are texts and whose members `quantity`, `rate` and `amount` are
/// numbers.
pub open spec fn item_of(doc: JsonView) -> Option<InvoiceItemView> {
    match (
        text_member(doc, "description"@),
        text_member(doc, "hsn"@),
        number_member(doc, "quantity"@),
        number_member(doc, "rate"@),
        number_member(doc, "amount"@),
    ) {
        (Some(description), Some(hsn), Some(quantity), Some(rate), Some(amount)) => Some(
            InvoiceItemView { description, hsn, quantity, rate, amount },
        ),
        _ => None,
    }
}

/// The document of a list of lines: the array of their documents, in the
/// order of the list.
pub open spec fn items_doc(items: Seq<InvoiceItemView>) -> JsonView {
    JsonView::Array(Seq::new(items.len(), |i: int| item_doc(items[i])))
}

/// The lines that a document holds: the document is an array, and each of
/// its elements holds a line.
pub open spec fn items_of(doc: JsonView) -> Option<Seq<InvoiceItemView>> {
    match doc {
        JsonView::Array(elements) => if forall|i: int|
            0 <= i < elements.len() ==> item_of(#[trigger] elements[i]) is Some {
            Some(Seq::new(elements.len(), |i: int| item_of(elements[i])->0))
        } else {
            None
        },
        _ => None,
    }
}

/// The document of one charge: an object with the members `description` and
/// `amount`, in this order.
pub open spec fn charge_doc(charge: AdditionalChargesView) -> JsonView {
    JsonView::Object(
        Seq::empty().push(("description"@, JsonView::Text(charge.description))).push(
            ("amount"@, number_view(charge.amount)),
        ),
    )
}

/// The charge that a document holds.
pub open spec fn charge_of(doc: JsonView) -> Option<AdditionalChargesView> {
    match (text_member(doc, "description"@), number_member(doc, "amount"@)) {
        (Some(description), Some(amount)) => Some(AdditionalChargesView { description, amount }),
        _ => None,
    }
}

/// The document of the charges of an invoice: null where there are none at
/// all, else the array of their documents, which may be empty.
pub open spec fn charges_doc(charges: Option<Seq<AdditionalChargesView>>) -> JsonView {
    match charges {
        None => JsonView::Null,
        Some(list) => JsonView::Array(Seq::new(list.len(), |i: int| charge_doc(list[i]))),
    }
}

/// The charges that a document holds: none at all for null, a list for an
/// array whose elements each hold a charge.
pub open spec fn charges_of(doc: JsonView) -> Option<Option<Seq<AdditionalChargesView>>> {
    match doc {
        JsonView::Null => Some(None),
        JsonView::Array(elements) => if forall|i: int|
            0 <= i < elements.len() ==> charge_of(#[trigger] elements[i]) is Some {
            Some(Some(Seq::new(elements.len(), |i: int| charge_of(elements[i])->0)))
        } else {
            None
        },
        _ => None,
    }
}

/// The names of the members of a line and of a charge differ in length.
proof fn lemma_item_names()
    ensures
        "description"@.len() == 11,
        "hsn"@.len() == 3,
        "quantity"@.len() == 8,
        "rate"@.len() == 4,
        "amount"@.len() == 6,
{
    reveal_strlit("description");
    reveal_strlit("hsn");
    reveal_strlit("quantity");
    reveal_strlit("rate");
    reveal_strlit("amount");
}

/// A well-formed line can be read back from its document.
pub proof fn lemma_item_round_trip(item: InvoiceItemView)
    requires
        item.well_formed(),
    ensures
        item_of(item_doc(item)) == Some(item),
{
    broadcast use lemma_lookup_push;

    lemma_item_names();
}

/// A well-formed charge can be read back from its document.
pub proof fn lemma_charge_round_trip(charge: AdditionalChargesView)
    requires
        charge.well_formed(),
    ensures
        charge_of(charge_doc(charge)) == Some(charge),
{
    broadcast use lemma_lookup_push;

    lemma_item_names();
}

/// Reading back the document of a list of well-formed lines gives the list:
/// no line is lost, none is added, and the order stays. This holds of the
/// empty list too.
pub proof fn lemma_items_round_trip(items: Seq<InvoiceItemView>)
    requires
        items_well_formed(items),
    ensures
        items_of(items_doc(items)) == Some(items),
{
    let elements = items_doc(items)->Array_0;
    assert forall|i: int| 0 <= i < elements.len() implies item_of(#[trigger] elements[i])
        == Some(items[i]) by {
        lemma_item_round_trip(items[i]);
    }
    assert(items_of(items_doc(items))->0 =~= items);
}

/// Reading back the document of the charges of an invoice gives the charges,
/// where each is well formed. No charges at all and an empty list of charges
/// have different documents and are read back as what they were.
pub proof fn lemma_charges_round_trip(charges: Option<Seq<AdditionalChargesView>>)
    requires
        charges is Some ==> charges_well_formed(charges->0),
    ensures
        charges_of(charges_doc(charges)) == Some(charges),
        charges_doc(None) != charges_doc(Some(Seq::empty())),
{
    if let Some(list) = charges {
        let elements = charges_doc(charges)->Array_0;
        assert forall|i: int| 0 <= i < elements.len() implies charge_of(#[trigger] elements[i])
            == Some(list[i]) by {
            lemma_charge_round_trip(list[i]);
        }
        assert(charges_of(charges_doc(charges))->0->0 =~= list);
    }
}

/// The document of one line.
pub fn item_to_json(item: &InvoiceItem) -> (doc: Json)
    ensures
        doc@ == item_doc(item@),
{
    let mut members: Vec<(String, Json)> = Vec::new();
    assert(members_view(members@) =~= Seq::empty());
    put(&mut members, "description", text(&item.description));
    put(&mut members, "hsn", text(&item.hsn));
    put(&mut members, "quantity", number(item.quantity));
    put(&mut members, "rate", number(item.rate));
    put(&mut members, "amount", number(item.amount));
    object(members)
}

/// The line that a document holds, if it holds one.
pub fn item_from_json(doc: &Json) -> (found: Option<InvoiceItem>)
    ensures
        match found {
            Some(item) => item_of(doc@) == Some(item@),
            None => item_of(doc@) is None,
        },
{
    let description = doc.get_text("description")?;
    let hsn = doc.get_text("hsn")?;
    let quantity = doc.get_number("quantity")?;
    let rate = doc.get_number("rate")?;
    let amount = doc.get_number("amount")?;
    Some(InvoiceItem { description, hsn, quantity, rate, amount })
}

/// The document of one charge.
pub fn charge_to_json(charge: &AdditionalCharges) -> (doc: Json)
    ensures
        doc@ == charge_doc(charge@),
{
    let mut members: Vec<(String, Json)> = Vec::new();
    assert(members_view(members@) =~= Seq::empty());
    put(&mut members, "description", text(&charge.description));
    put(&mut members, "amount", number(charge.amount));
    object(members)
}

/// The charge that a document holds, if it holds one.
pub fn charge_from_json(doc: &Json) -> (found: Option<AdditionalCharges>)
    ensures
        match found {
            Some(charge) => charge_of(doc@) == Some(charge@),
            None => charge_of(doc@) is None,
        },
{
    let description = doc.get_text("description")?;
    let amount = doc.get_number("amount")?;
    Some(AdditionalCharges { description, amount })
}

/// The document under which the lines of an invoice are stored. The order of
/// the lines is kept.
pub fn encode_items(items: &Vec<InvoiceItem>) -> (doc: Json)
    ensures
        doc@ == items_doc(items.deep_view()),
{
    let mut elements: Vec<Json> = Vec::new();
    let mut i: usize = 0;
    while i < items.len()
        invariant
            0 <= i <= items.len(),
            elements@.len() == i,
            forall|j: int| 0 <= j < i ==> (#[trigger] elements@[j])@ == item_doc(items@[j]@),
        decreases items.len() - i,
    {
        elements.push(item_to_json(&items[i]));
        i += 1;
    }
    let doc = array(elements);
    assert(doc@->Array_0 =~= items_doc(items.deep_view())->Array_0);
    doc
}

/// The lines that a stored document holds; `RecordDecodeError` where it
/// holds none.
pub fn decode_items(doc: &Json) -> (outcome: Result<Vec<InvoiceItem>, StoreError>)
    ensures
        match outcome {
            Ok(items) => items_of(doc@) == Some(items.deep_view()),
            Err(error) => items_of(doc@) is None && error == StoreError::RecordDecodeError,
        },
{
    let elements = match doc.elements() {
        Some(elements) => elements,
        None => {
            return Err(StoreError::RecordDecodeError);
        },
    };
    let mut items: Vec<InvoiceItem> = Vec::new();
    let mut i: usize = 0;
    while i < elements.len()
        invariant
            0 <= i <= elements.len(),
            doc@ == JsonView::Array(elements_view(elements@)),
            items@.len() == i,
            forall|j: int|
                0 <= j < i ==> item_of(elements_view(elements@)[j]) == Some(
                    (#[trigger] items@[j])@,
                ),
        decreases elements.len() - i,
    {
        match item_from_json(&elements[i]) {
            Some(item) => {
                items.push(item);
            },
            None => {
                assert(item_of(elements_view(elements@)[i as int]) is None);
                return Err(StoreError::RecordDecodeError);
            },
        }
        i += 1;
    }
    assert forall|j: int| 0 <= j < elements@.len() implies item_of(
        #[trigger] elements_view(elements@)[j],
    ) is Some by {
        assert(item_of(elements_view(elements@)[j]) == Some(items@[j]@));
    }
    assert(items_of(doc@)->0 =~= items.deep_view());
    Ok(items)
}

/// The document under which the charges of an invoice are stored: null
/// where there are none at all.
pub fn encode_charges(charges: &Option<Vec<AdditionalCharges>>) -> (doc: Json)
    ensures
        doc@ == charges_doc(charges.deep_view()),
{
    match charges {
        None => Json::Null,
        Some(list) => {
            let mut elements: Vec<Json> = Vec::new();
            let mut i: usize = 0;
            while i < list.len()
                invariant
                    0 <= i <= list.len(),
                    elements@.len() == i,
                    forall|j: int|
                        0 <= j < i ==> (#[trigger] elements@[j])@ == charge_doc(list@[j]@),
                decreases list.len() - i,
            {
                elements.push(charge_to_json(&list[i]));
                i += 1;
            }
            let doc = array(elements);
            assert(doc@->Array_0 =~= charges_doc(charges.deep_view())->Array_0);
            doc
        },
    }
}

/// The charges that a stored document holds; `RecordDecodeError` where it
/// holds none.
pub fn decode_charges(doc: &Json) -> (outcome: Result<Option<Vec<AdditionalCharges>>, StoreError>)
    ensures
        match outcome {
            Ok(charges) => charges_of(doc@) == Some(charges.deep_view()),
            Err(error) => charges_of(doc@) is None && error == StoreError::RecordDecodeError,
        },
{
    if let Json::Null = doc {
        return Ok(None);
    }
    let elements = match doc.elements() {
        Some(elements) => elements,
        None => {
            return Err(StoreError::RecordDecodeError);
        },
    };
    let mut list: Vec<AdditionalCharges> = Vec::new();
    let mut i: usize = 0;
    while i < elements.len()
        invariant
            0 <= i <= elements.len(),
            doc@ == JsonView::Array(elements_view(elements@)),
            list@.len() == i,
            forall|j: int|
                0 <= j < i ==> charge_of(elements_view(elements@)[j]) == Some(
                    (#[trigger] list@[j])@,
                ),
        decreases elements.len() - i,
    {
        match charge_from_json(&elements[i]) {
            Some(charge) => {
                list.push(charge);
            },
            None => {
                assert(charge_of(elements_view(elements@)[i as int]) is None);
                return Err(StoreError::RecordDecodeError);
            },
        }
        i += 1;
    }
    assert forall|j: int| 0 <= j < elements@.len() implies charge_of(
        #[trigger] elements_view(elements@)[j],
    ) is Some by {
        assert(charge_of(elements_view(elements@)[j]) == Some(list@[j]@));
    }
    assert(charges_of(doc@)->0->0 =~= list.deep_view());
    Ok(Some(list))
}

/// The charges of an invoice document: none at all where the member
/// `additional_charges` is missing, else what the member holds.
pub open spec fn charges_member(doc: JsonView) -> Option<Option<Seq<AdditionalChargesView>>> {
    match member(doc, "additional_charges"@) {
        None => Some(None),
        Some(charges) => charges_of(charges),
    }
}

/// The lines of an invoice document: what the member `items` holds.
pub open spec fn items_member(doc: JsonView) -> Option<Seq<InvoiceItemView>> {
    match member(doc, "items"@) {
        None => None,
        Some(items) => items_of(items),
    }
}

/// The document of an invoice: an object with one member for each field, in
/// the order of the fields. A field that holds no value is written as null.
pub open spec fn invoice_doc(invoice: InvoiceView) -> JsonView {
    JsonView::Object(
        Seq::empty().push(
            ("id"@, JsonView::Text(invoice.id)),
        ).push(
            ("issuer_name"@, JsonView::Text(invoice.issuer_name)),
        ).push(
            ("issuer_address"@, JsonView::Text(invoice.issuer_address)),
        ).push(
            ("issuer_gst_number"@, JsonView::Text(invoice.issuer_gst_number)),
        ).push(
            ("issuer_phone"@, JsonView::Text(invoice.issuer_phone)),
        ).push(
            ("issuer_email"@, optional_text_view(invoice.issuer_email)),
        ).push(
            ("recipient_name"@, JsonView::Text(invoice.recipient_name)),
        ).push(
            ("recipient_address"@, JsonView::Text(invoice.recipient_address)),
        ).push(
            ("recipient_gst_number"@, JsonView::Text(invoice.recipient_gst_number)),
        ).push(
            ("recipient_phone"@, JsonView::Text(invoice.recipient_phone)),
        ).push(
            ("recipient_email"@, optional_text_view(invoice.recipient_email)),
        ).push(
            ("invoice_number"@, JsonView::Text(invoice.invoice_number)),
        ).push(
            ("invoice_date"@, JsonView::Text(invoice.invoice_date)),
        ).push(
            ("amount"@, number_view(invoice.amount)),
        ).push(
            ("cgst_percentage"@, optional_number_view(invoice.cgst_percentage)),
        ).push(
            ("sgst_percentage"@, optional_number_view(invoice.sgst_percentage)),
        ).push(
            ("igst_percentage"@, optional_number_view(invoice.igst_percentage)),
        ).push(
            ("additional_charges"@, charges_doc(invoice.additional_charges)),
        ).push(
            ("total"@, number_view(invoice.total)),
        ).push(
            ("items"@, items_doc(invoice.items)),
        ),
    )
}

/// Whether a document holds an invoice: it is an object, and each member is
/// of the kind of its field. A member of an optional field may be missing or
/// null; members of other names are passed over.
pub open spec fn holds_invoice(doc: JsonView) -> bool {
    &&& text_member(doc, "id"@) is Some
    &&& text_member(doc, "issuer_name"@) is Some
    &&& text_member(doc, "issuer_address"@) is Some
    &&& text_member(doc, "issuer_gst_number"@) is Some
    &&& text_member(doc, "issuer_phone"@) is Some
    &&& optional_text_member(doc, "issuer_email"@) is Some
    &&& text_member(doc, "recipient_name"@) is Some
    &&& text_member(doc, "recipient_address"@) is Some
    &&& text_member(doc, "recipient_gst_number"@) is Some
    &&& text_member(doc, "recipient_phone"@) is Some
    &&& optional_text_member(doc, "recipient_email"@) is Some
    &&& text_member(doc, "invoice_number"@) is Some
    &&& text_member(doc, "invoice_date"@) is Some
    &&& number_member(doc, "amount"@) is Some
    &&& optional_number_member(doc, "cgst_percentage"@) is Some
    &&& optional_number_member(doc, "sgst_percentage"@) is Some
    &&& optional_number_member(doc, "igst_percentage"@) is Some
    &&& charges_member(doc) is Some
    &&& number_member(doc, "total"@) is Some
    &&& items_member(doc) is Some
}

/// The invoice that a document holds.
pub open spec fn invoice_of(doc: JsonView) -> Option<InvoiceView> {
    if holds_invoice(doc) {
        Some(
            InvoiceView {
                id: text_member(doc, "id"@)->0,
                issuer_name: text_member(doc, "issuer_name"@)->0,
                issuer_address: text_member(doc, "issuer_address"@)->0,
                issuer_gst_number: text_member(doc, "issuer_gst_number"@)->0,
                issuer_phone: text_member(doc, "issuer_phone"@)->0,
                issuer_email: optional_text_member(doc, "issuer_email"@)->0,
                recipient_name: text_member(doc, "recipient_name"@)->0,
                recipient_address: text_member(doc, "recipient_address"@)->0,
                recipient_gst_number: text_member(doc, "recipient_gst_number"@)->0,
                recipient_phone: text_member(doc, "recipient_phone"@)->0,
                recipient_email: optional_text_member(doc, "recipient_email"@)->0,
                invoice_number: text_member(doc, "invoice_number"@)->0,
                invoice_date: text_member(doc, "invoice_date"@)->0,
                amount: number_member(doc, "amount"@)->0,
                cgst_percentage: optional_number_member(doc, "cgst_percentage"@)->0,
                sgst_percentage: optional_number_member(doc, "sgst_percentage"@)->0,
                igst_percentage: optional_number_member(doc, "igst_percentage"@)->0,
                additional_charges: charges_member(doc)->0,
                total: number_member(doc, "total"@)->0,
                items: items_member(doc)->0,
            },
        )
    } else {
        None
    }
}

/// The lengths of the names of an invoice's members, and where two names of
/// one length differ.
proof fn lemma_invoice_names()
    ensures
        "id"@.len() == 2,
        "issuer_name"@.len() == 11,
        "issuer_address"@.len() == 14,
        "issuer_gst_number"@.len() == 17,
        "issuer_phone"@.len() == 12,
        "issuer_email"@.len() == 12,
        "recipient_name"@.len() == 14,
        "recipient_address"@.len() == 17,
        "recipient_gst_number"@.len() == 20,
        "recipient_phone"@.len() == 15,
        "recipient_email"@.len() == 15,
        "invoice_number"@.len() == 14,
        "invoice_date"@.len() == 12,
        "amount"@.len() == 6,
        "cgst_percentage"@.len() == 15,
        "sgst_percentage"@.len() == 15,
        "igst_percentage"@.len() == 15,
        "additional_charges"@.len() == 18,
        "total"@.len() == 5,
        "items"@.len() == 5,
        "total"@[0] != "items"@[0],
        "issuer_phone"@[7] != "issuer_email"@[7],
        "invoice_date"@[1] != "issuer_phone"@[1],
        "invoice_date"@[1] != "issuer_email"@[1],
        "issuer_address"@[0] != "recipient_name"@[0],
        "invoice_number"@[0] != "recipient_name"@[0],
        "issuer_address"@[1] != "invoice_number"@[1],
        "recipient_phone"@[10] != "recipient_email"@[10],
        "recipient_phone"@[0] != "cgst_percentage"@[0],
        "recipient_phone"@[0] != "sgst_percentage"@[0],
        "recipient_phone"@[0] != "igst_percentage"@[0],
        "recipient_email"@[0] != "cgst_percentage"@[0],
        "recipient_email"@[0] != "sgst_percentage"@[0],
        "recipient_email"@[0] != "igst_percentage"@[0],
        "cgst_percentage"@[0] != "sgst_percentage"@[0],
        "cgst_percentage"@[0] != "igst_percentage"@[0],
        "sgst_percentage"@[0] != "igst_percentage"@[0],
        "issuer_gst_number"@[0] != "recipient_address"@[0],
{
    reveal_strlit("id");
    reveal_strlit("issuer_name");
    reveal_strlit("issuer_address");
    reveal_strlit("issuer_gst_number");
    reveal_strlit("issuer_phone");
    reveal_strlit("issuer_email");
    reveal_strlit("recipient_name");
    reveal_strlit("recipient_address");
    reveal_strlit("recipient_gst_number");
    reveal_strlit("recipient_phone");
    reveal_strlit("recipient_email");
    reveal_strlit("invoice_number");
    reveal_strlit("invoice_date");
    reveal_strlit("amount");
    reveal_strlit("cgst_percentage");
    reveal_strlit("sgst_percentage");
    reveal_strlit("igst_percentage");
    reveal_strlit("additional_charges");
    reveal_strlit("total");
    reveal_strlit("items");
}

/// A well-formed invoice can be read back from its document, its lines and
/// charges with it.
pub proof fn lemma_invoice_round_trip(invoice: InvoiceView)
    requires
        invoice.well_formed(),
    ensures
        invoice_of(invoice_doc(invoice)) == Some(invoice),
{
    let doc = invoice_doc(invoice);
    assert(member(doc, "id"@) == Some(JsonView::Text(invoice.id))) by {
        broadcast use lemma_lookup_push;

        lemma_invoice_names();
    }
    assert(member(doc, "issuer_name"@) == Some(JsonView::Text(invoice.issuer_name))) by {
        broadcast use lemma_lookup_push;

        lemma_invoice_names();
    }
    assert(member(doc, "issuer_address"@) == Some(JsonView::Text(invoice.issuer_address))) by {
        broadcast use lemma_lookup_push;

        lemma_invoice_names();
    }
    assert(member(doc, "issuer_gst_number"@) == Some(
        JsonView::Text(invoice.issuer_gst_number),
    )) by {
        broadcast use lemma_lookup_push;

        lemma_invoice_names();
    }
    assert(member(doc, "issuer_phone"@) == Some(JsonView::Text(invoice.issuer_phone))) by {
        broadcast use lemma_lookup_push;

        lemma_invoice_names();
    }
    assert(member(doc, "issuer_email"@) == Some(optional_text_view(invoice.issuer_email))) by {
        broadcast use lemma_lookup_push;

        lemma_invoice_names();
    }
    assert(member(doc, "recipient_name"@) == Some(JsonView::Text(invoice.recipient_name))) by {
        broadcast use lemma_lookup_push;

        lemma_invoice_names();
    }
    assert(member(doc, "recipient_address"@) == Some(
        JsonView::Text(invoice.recipient_address),
    )) by {
        broadcast use lemma_lookup_push;

        lemma_invoice_names();
    }
    assert(member(doc, "recipient_gst_number"@) == Some(
        JsonView::Text(invoice.recipient_gst_number),
    )) by {
        broadcast use lemma_lookup_push;

        lemma_invoice_names();
    }
    assert(member(doc, "recipient_phone"@) == Some(JsonView::Text(invoice.recipient_phone))) by {
        broadcast use lemma_lookup_push;

        lemma_invoice_names();
    }
    assert(member(doc, "recipient_email"@) == Some(
        optional_text_view(invoice.recipient_email),
    )) by {
        broadcast use lemma_lookup_push;

        lemma_invoice_names();
    }
    assert(member(doc, "invoice_number"@) == Some(JsonView::Text(invoice.invoice_number))) by {
        broadcast use lemma_lookup_push;

        lemma_invoice_names();
    }
    assert(member(doc, "invoice_date"@) == Some(JsonView::Text(invoice.invoice_date))) by {
        broadcast use lemma_lookup_push;

        lemma_invoice_names();
    }
    assert(member(doc, "amount"@) == Some(number_view(invoice.amount))) by {
        broadcast use lemma_lookup_push;

        lemma_invoice_names();
    }
    assert(member(doc, "cgst_percentage"@) == Some(
        optional_number_view(invoice.cgst_percentage),
    )) by {
        broadcast use lemma_lookup_push;

        lemma_invoice_names();
    }
    assert(member(doc, "sgst_percentage"@) == Some(
        optional_number_view(invoice.sgst_percentage),
    )) by {
        broadcast use lemma_lookup_push;

        lemma_invoice_names();
    }
    assert(member(doc, "igst_percentage"@) == Some(
        optional_number_view(invoice.igst_percentage),
    )) by {
        broadcast use lemma_lookup_push;

        lemma_invoice_names();
    }
    assert(member(doc, "additional_charges"@) == Some(charges_doc(invoice.additional_charges))) by {
        broadcast use lemma_lookup_push;

        lemma_invoice_names();
    }
    assert(member(doc, "total"@) == Some(number_view(invoice.total))) by {
        broadcast use lemma_lookup_push;

        lemma_invoice_names();
    }
    assert(member(doc, "items"@) == Some(items_doc(invoice.items))) by {
        broadcast use lemma_lookup_push;

        lemma_invoice_names();
    }
    lemma_items_round_trip(invoice.items);
    lemma_charges_round_trip(invoice.additional_charges);
}

/// The charges of an invoice document, if it holds any.
fn charges_from_member(doc: &Json) -> (found: Option<Option<Vec<AdditionalCharges>>>)
    ensures
        match found {
            Some(charges) => charges_member(doc@) == Some(charges.deep_view()),
            None => charges_member(doc@) is None,
        },
{
    match doc.get("additional_charges") {
        None => Some(None),
        Some(charges) => match decode_charges(charges) {
            Ok(charges) => Some(charges),
            Err(_) => None,
        },
    }
}

/// The lines of an invoice document, if it holds any.
fn items_from_member(doc: &Json) -> (found: Option<Vec<InvoiceItem>>)
    ensures
        match found {
            Some(items) => items_member(doc@) == Some(items.deep_view()),
            None => items_member(doc@) is None,
        },
{
    match doc.get("items") {
        None => None,
        Some(items) => match decode_items(items) {
            Ok(items) => Some(items),
            Err(_) => None,
        },
    }
}

/// The invoice that a document holds, if it holds one.
fn invoice_from_doc(doc: &Json) -> (found: Option<Invoice>)
    ensures
        match found {
            Some(invoice) => invoice_of(doc@) == Some(invoice@),
            None => invoice_of(doc@) is None,
        },
{
    let id = doc.get_text("id")?;
    let issuer_name = doc.get_text("issuer_name")?;
    let issuer_address = doc.get_text("issuer_address")?;
    let issuer_gst_number = doc.get_text("issuer_gst_number")?;
    let issuer_phone = doc.get_text("issuer_phone")?;
    let issuer_email = doc.get_optional_text("issuer_email")?;
    let recipient_name = doc.get_text("recipient_name")?;
    let recipient_address = doc.get_text("recipient_address")?;
    let recipient_gst_number = doc.get_text("recipient_gst_number")?;
    let recipient_phone = doc.get_text("recipient_phone")?;
    let recipient_email = doc.get_optional_text("recipient_email")?;
    let invoice_number = doc.get_text("invoice_number")?;
    let invoice_date = doc.get_text("invoice_date")?;
    let amount = doc.get_number("amount")?;
    let cgst_percentage = doc.get_optional_number("cgst_percentage")?;
    let sgst_percentage = doc.get_optional_number("sgst_percentage")?;
    let igst_percentage = doc.get_optional_number("igst_percentage")?;
    let additional_charges = charges_from_member(doc)?;
    let total = doc.get_number("total")?;
    let items = items_from_member(doc)?;
    Some(
        Invoice {
            id,
            issuer_name,
            issuer_address,
            issuer_gst_number,
            issuer_phone,
            issuer_email,
            recipient_name,
            recipient_address,
            recipient_gst_number,
            recipient_phone,
            recipient_email,
            invoice_number,
            invoice_date,
            amount,
            cgst_percentage,
            sgst_percentage,
            igst_percentage,
            additional_charges,
            total,
            items,
        },
    )
}

impl Invoice {
    /// The document of this invoice.
    pub fn to_json(&self) -> (doc: Json)
        ensures
            doc@ == invoice_doc(self@),
    {
        let mut members: Vec<(String, Json)> = Vec::new();
        assert(members_view(members@) =~= Seq::empty());
        put(&mut members, "id", text(&self.id));
        put(&mut members, "issuer_name", text(&self.issuer_name));
        put(&mut members, "issuer_address", text(&self.issuer_address));
        put(&mut members, "issuer_gst_number", text(&self.issuer_gst_number));
        put(&mut members, "issuer_phone", text(&self.issuer_phone));
        put(&mut members, "issuer_email", optional_text(&self.issuer_email));
        put(&mut members, "recipient_name", text(&self.recipient_name));
        put(&mut members, "recipient_address", text(&self.recipient_address));
        put(&mut members, "recipient_gst_number", text(&self.recipient_gst_number));
        put(&mut members, "recipient_phone", text(&self.recipient_phone));
        put(&mut members, "recipient_email", optional_text(&self.recipient_email));
        put(&mut members, "invoice_number", text(&self.invoice_number));
        put(&mut members, "invoice_date", text(&self.invoice_date));
        put(&mut members, "amount", number(self.amount));
        put(&mut members, "cgst_percentage", optional_number(&self.cgst_percentage));
        put(&mut members, "sgst_percentage", optional_number(&self.sgst_percentage));
        put(&mut members, "igst_percentage", optional_number(&self.igst_percentage));
        put(&mut members, "additional_charges", encode_charges(&self.additional_charges));
        put(&mut members, "total", number(self.total));
        put(&mut members, "items", encode_items(&self.items));
        object(members)
    }

    /// The invoice that a document holds; `RecordDecodeError` where it holds
    /// none.
    pub fn from_json(doc: &Json) -> (outcome: Result<Invoice, StoreError>)
        ensures
            match outcome {
                Ok(invoice) => invoice_of(doc@) == Some(invoice@),
                Err(error) => invoice_of(doc@) is None && error == StoreError::RecordDecodeError,
            },
    {
        match invoice_from_doc(doc) {
            Some(invoice) => Ok(invoice),
            None => Err(StoreError::RecordDecodeError),
        }
    }
}

} // verus!
