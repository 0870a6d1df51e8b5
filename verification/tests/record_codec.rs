use recordkeeper::codec::{
    charge_from_json, charge_to_json, decode_charges, decode_items, encode_charges,
    encode_items, item_from_json, item_to_json,
};
use recordkeeper::error::StoreError;
use recordkeeper::invoice::{AdditionalCharges, Invoice, InvoiceItem};
use recordkeeper::json::Json;
use recordkeeper::number::Real64;

fn num(value: f64) -> Real64 {
    Real64::from_bits(value.to_bits())
}

fn item(description: &str, hsn: &str, quantity: f64, rate: f64, amount: f64) -> InvoiceItem {
    InvoiceItem {
        description: description.to_string(),
        hsn: hsn.to_string(),
        quantity: num(quantity),
        rate: num(rate),
        amount: num(amount),
    }
}

fn charge(description: &str, amount: f64) -> AdditionalCharges {
    AdditionalCharges { description: description.to_string(), amount: num(amount) }
}

fn member(key: &str, value: Json) -> (String, Json) {
    (key.to_string(), value)
}

fn five_items() -> Vec<InvoiceItem> {
    vec![
        item("Steel rod", "7214", 10.0, 25.5, 255.0),
        item("Cement", "2523", 3.0, 100.0, 300.0),
        item("Sand", "2505", 0.5, 80.0, 40.0),
        item("Labour", "9954", 1.0, 1200.0, 1200.0),
        item("Discount", "", 1.0, -50.25, -50.25),
    ]
}

fn sample_invoice() -> Invoice {
    Invoice::new(
        "inv-1".to_string(),
        "Issuer Ltd".to_string(),
        "1 Main Road".to_string(),
        "GSTISS".to_string(),
        "111".to_string(),
        Some("issuer@x.com".to_string()),
        "Acme".to_string(),
        "2 Side Road".to_string(),
        "GST1".to_string(),
        "222".to_string(),
        None,
        "INV-0001".to_string(),
        "2024-04-01".to_string(),
        num(1744.75),
        Some(num(9.0)),
        Some(num(9.0)),
        None,
        num(2058.8),
        five_items(),
    )
}

#[test]
fn real_number_keeps_its_bits() {
    assert_eq!(num(2.5).to_bits(), 0x4004_0000_0000_0000);
    assert_eq!(Real64::from_bits(0x3ff0_0000_0000_0000), num(1.0));
    assert!(num(0.0).is_finite());
    assert!(num(-1.0e300).is_finite());
    assert!(num(f64::MAX).is_finite());
    assert!(!num(f64::INFINITY).is_finite());
    assert!(!num(f64::NEG_INFINITY).is_finite());
    assert!(!num(f64::NAN).is_finite());
}

#[test]
fn item_document_has_the_five_members_in_order() {
    assert_eq!(
        item_to_json(&item("Steel rod", "7214", 10.0, 25.5, 255.0)),
        Json::Object(vec![
            member("description", Json::Text("Steel rod".to_string())),
            member("hsn", Json::Text("7214".to_string())),
            member("quantity", Json::Number(num(10.0))),
            member("rate", Json::Number(num(25.5))),
            member("amount", Json::Number(num(255.0))),
        ])
    );
}

#[test]
fn charge_document_has_the_two_members_in_order() {
    assert_eq!(
        charge_to_json(&charge("Freight", 120.0)),
        Json::Object(vec![
            member("description", Json::Text("Freight".to_string())),
            member("amount", Json::Number(num(120.0))),
        ])
    );
}

#[test]
fn empty_item_list_round_trips() {
    let doc = encode_items(&Vec::new());
    assert_eq!(doc, Json::Array(Vec::new()));
    assert_eq!(decode_items(&doc), Ok(Vec::new()));
}

#[test]
fn single_item_round_trips() {
    let items = vec![item("Steel rod", "7214", 10.0, 25.5, 255.0)];
    assert_eq!(decode_items(&encode_items(&items)), Ok(items));
}

#[test]
fn five_items_and_two_charges_round_trip() {
    let items = five_items();
    let charges = Some(vec![charge("Freight", 120.0), charge("Packing", 15.75)]);
    assert_eq!(decode_items(&encode_items(&items)), Ok(items));
    assert_eq!(decode_charges(&encode_charges(&charges)), Ok(charges));
}

#[test]
fn encoding_keeps_the_order_of_the_items() {
    let items = five_items();
    match encode_items(&items) {
        Json::Array(elements) => {
            assert_eq!(elements.len(), 5);
            for (element, item) in elements.iter().zip(items.iter()) {
                assert_eq!(element, &item_to_json(item));
            }
        }
        other => panic!("not an array: {:?}", other),
    }
}

#[test]
fn absent_charges_and_empty_charges_stay_apart() {
    let absent: Option<Vec<AdditionalCharges>> = None;
    let empty: Option<Vec<AdditionalCharges>> = Some(Vec::new());
    assert_eq!(encode_charges(&absent), Json::Null);
    assert_eq!(encode_charges(&empty), Json::Array(Vec::new()));
    assert_ne!(encode_charges(&absent), encode_charges(&empty));
    assert_eq!(decode_charges(&encode_charges(&absent)), Ok(None));
    assert_eq!(decode_charges(&encode_charges(&empty)), Ok(Some(Vec::new())));
}

#[test]
fn number_that_is_not_finite_is_written_as_null_and_not_read_back() {
    let broken = item("Steel rod", "7214", f64::NAN, 25.5, 255.0);
    let doc = item_to_json(&broken);
    assert_eq!(doc.get("quantity"), Some(&Json::Null));
    assert_eq!(item_from_json(&doc), None);
    assert_eq!(decode_items(&encode_items(&vec![broken])), Err(StoreError::RecordDecodeError));
    let endless = charge("Freight", f64::INFINITY);
    assert_eq!(charge_from_json(&charge_to_json(&endless)), None);
}

#[test]
fn malformed_item_document_fails_the_whole_list() {
    let good = item_to_json(&item("Steel rod", "7214", 10.0, 25.5, 255.0));
    let missing_rate = Json::Object(vec![
        member("description", Json::Text("Cement".to_string())),
        member("hsn", Json::Text("2523".to_string())),
        member("quantity", Json::Number(num(3.0))),
        member("amount", Json::Number(num(300.0))),
    ]);
    let doc = Json::Array(vec![good.clone(), missing_rate, good]);
    assert_eq!(decode_items(&doc), Err(StoreError::RecordDecodeError));
    assert_eq!(decode_items(&Json::Null), Err(StoreError::RecordDecodeError));
    assert_eq!(decode_items(&Json::Object(Vec::new())), Err(StoreError::RecordDecodeError));
    assert_eq!(
        decode_items(&Json::Array(vec![Json::Text("x".to_string())])),
        Err(StoreError::RecordDecodeError)
    );
}

#[test]
fn malformed_charges_document_is_a_decode_error() {
    assert_eq!(decode_charges(&Json::Bool(false)), Err(StoreError::RecordDecodeError));
    let text_amount = Json::Array(vec![Json::Object(vec![
        member("description", Json::Text("Freight".to_string())),
        member("amount", Json::Text("120".to_string())),
    ])]);
    assert_eq!(decode_charges(&text_amount), Err(StoreError::RecordDecodeError));
}

#[test]
fn item_is_read_whatever_the_order_of_members() {
    let doc = Json::Object(vec![
        member("amount", Json::Number(num(255.0))),
        member("note", Json::Bool(true)),
        member("rate", Json::Number(num(25.5))),
        member("quantity", Json::Number(num(10.0))),
        member("hsn", Json::Text("7214".to_string())),
        member("description", Json::Text("Steel rod".to_string())),
    ]);
    assert_eq!(item_from_json(&doc), Some(item("Steel rod", "7214", 10.0, 25.5, 255.0)));
}

#[test]
fn lookup_takes_the_first_member_of_a_name() {
    let doc = Json::Object(vec![
        member("a", Json::Bool(true)),
        member("a", Json::Bool(false)),
    ]);
    assert_eq!(doc.get("a"), Some(&Json::Bool(true)));
    assert_eq!(doc.get_bool("a"), Some(true));
    assert_eq!(doc.get("b"), None);
    assert_eq!(Json::Null.get("a"), None);
    assert_eq!(doc.get_text("a"), None);
    assert_eq!(doc.get_optional_text("a"), None);
    assert_eq!(doc.get_optional_text("b"), Some(None));
    assert_eq!(doc.get_optional_number("b"), Some(None));
    assert_eq!(doc.get_number("a"), None);
    assert_eq!(Json::Array(vec![Json::Null]).elements(), Some(&vec![Json::Null]));
    assert_eq!(doc.elements(), None);
}

#[test]
fn document_clone_is_the_same_document() {
    let doc = sample_invoice().to_json();
    assert_eq!(doc.clone(), doc);
}

#[test]
fn new_invoice_has_no_additional_charges() {
    let invoice = sample_invoice();
    assert_eq!(invoice.additional_charges, None);
    assert_eq!(invoice.id, "inv-1");
    assert_eq!(invoice.recipient_email, None);
    assert_eq!(invoice.issuer_email, Some("issuer@x.com".to_string()));
    assert_eq!(invoice.invoice_number, "INV-0001");
    assert_eq!(invoice.total, num(2058.8));
    assert_eq!(invoice.items, five_items());
}

#[test]
fn invoice_round_trips_through_its_document() {
    let mut invoice = sample_invoice();
    assert_eq!(Invoice::from_json(&invoice.to_json()), Ok(invoice.clone()));
    invoice.additional_charges = Some(Vec::new());
    assert_eq!(Invoice::from_json(&invoice.to_json()), Ok(invoice.clone()));
    invoice.additional_charges = Some(vec![charge("Freight", 120.0), charge("Packing", 15.75)]);
    invoice.items = Vec::new();
    assert_eq!(Invoice::from_json(&invoice.to_json()), Ok(invoice));
}

#[test]
fn invoice_document_writes_missing_values_as_null() {
    let doc = sample_invoice().to_json();
    assert_eq!(doc.get("recipient_email"), Some(&Json::Null));
    assert_eq!(doc.get("igst_percentage"), Some(&Json::Null));
    assert_eq!(doc.get("additional_charges"), Some(&Json::Null));
    assert_eq!(doc.get("cgst_percentage"), Some(&Json::Number(num(9.0))));
    assert_eq!(doc.get("items"), Some(&encode_items(&five_items())));
    match &doc {
        Json::Object(members) => {
            let names: Vec<&str> = members.iter().map(|m| m.0.as_str()).collect();
            assert_eq!(
                names,
                vec![
                    "id",
                    "issuer_name",
                    "issuer_address",
                    "issuer_gst_number",
                    "issuer_phone",
                    "issuer_email",
                    "recipient_name",
                    "recipient_address",
                    "recipient_gst_number",
                    "recipient_phone",
                    "recipient_email",
                    "invoice_number",
                    "invoice_date",
                    "amount",
                    "cgst_percentage",
                    "sgst_percentage",
                    "igst_percentage",
                    "additional_charges",
                    "total",
                    "items",
                ]
            );
        }
        other => panic!("not an object: {:?}", other),
    }
}

#[test]
fn invoice_document_may_leave_optional_members_out() {
    let full = sample_invoice().to_json();
    let members = match full {
        Json::Object(members) => members,
        other => panic!("not an object: {:?}", other),
    };
    let optional =
        ["issuer_email", "recipient_email", "cgst_percentage", "igst_percentage", "additional_charges"];
    let trimmed: Vec<(String, Json)> =
        members.iter().filter(|m| !optional.contains(&m.0.as_str())).cloned().collect();
    let mut expected = sample_invoice();
    expected.issuer_email = None;
    expected.cgst_percentage = None;
    assert_eq!(Invoice::from_json(&Json::Object(trimmed)), Ok(expected));
    let without_items: Vec<(String, Json)> =
        members.iter().filter(|m| m.0 != "items").cloned().collect();
    assert_eq!(
        Invoice::from_json(&Json::Object(without_items)),
        Err(StoreError::RecordDecodeError)
    );
    assert_eq!(Invoice::from_json(&Json::Array(Vec::new())), Err(StoreError::RecordDecodeError));
}
