//! Invoices: the record and what it owns.

use vstd::prelude::*;
use crate::number::{finite_bits, Real64};

verus! {

/// One line of an invoice.
#[derive(Debug, Clone, PartialEq)]
pub struct InvoiceItem {
    pub description: String,
    /// The code of the goods in the harmonized system.
    pub hsn: String,
    pub quantity: Real64,
    pub rate: Real64,
    pub amount: Real64,
}

/// A line as the contracts see it; each number by its bit pattern.
pub struct InvoiceItemView {
    pub description: Seq<char>,
    pub hsn: Seq<char>,
    pub quantity: u64,
    pub rate: u64,
    pub amount: u64,
}

impl DeepView for InvoiceItem {
    type V = InvoiceItemView;

    open spec fn deep_view(&self) -> InvoiceItemView {
        InvoiceItemView {
            description: self.description@,
            hsn: self.hsn@,
            quantity: self.quantity.bits,
            rate: self.rate.bits,
            amount: self.amount.bits,
        }
    }
}

impl View for InvoiceItem {
    type V = InvoiceItemView;

    open spec fn view(&self) -> InvoiceItemView {
        self.deep_view()
    }
}

impl InvoiceItemView {
    /// A line is well formed when each of its numbers is finite.
    pub open spec fn well_formed(self) -> bool {
        finite_bits(self.quantity) && finite_bits(self.rate) && finite_bits(self.amount)
    }
}

/// A charge on top of the lines of an invoice.
#[derive(Debug, Clone, PartialEq)]
pub struct AdditionalCharges {
    pub description: String,
    pub amount: Real64,
}

/// A charge as the contracts see it.
pub struct AdditionalChargesView {
    pub description: Seq<char>,
    pub amount: u64,
}

impl DeepView for AdditionalCharges {
    type V = AdditionalChargesView;

    open spec fn deep_view(&self) -> AdditionalChargesView {
        AdditionalChargesView { description: self.description@, amount: self.amount.bits }
    }
}

impl View for AdditionalCharges {
    type V = AdditionalChargesView;

    open spec fn view(&self) -> AdditionalChargesView {
        self.deep_view()
    }
}

impl AdditionalChargesView {
    /// A charge is well formed when its amount is finite.
    pub open spec fn well_formed(self) -> bool {
        finite_bits(self.amount)
    }
}

/// An invoice. Its lines and charges belong to it alone.
#[derive(Debug, Clone, PartialEq)]
pub struct Invoice {
    pub id: String,
    pub issuer_name: String,
    pub issuer_address: String,
    pub issuer_gst_number: String,
    pub issuer_phone: String,
    pub issuer_email: Option<String>,
    pub recipient_name: String,
    pub recipient_address: String,
    pub recipient_gst_number: String,
    pub recipient_phone: String,
    pub recipient_email: Option<String>,
    pub invoice_number: String,
    pub invoice_date: String,
    pub amount: Real64,
    pub cgst_percentage: Option<Real64>,
    pub sgst_percentage: Option<Real64>,
    pub igst_percentage: Option<Real64>,
    /// No charges at all is not the same as an empty list of them.
    pub additional_charges: Option<Vec<AdditionalCharges>>,
    pub total: Real64,
    pub items: Vec<InvoiceItem>,
}

/// An invoice as the contracts see it.
pub struct InvoiceView {
    pub id: Seq<char>,
    pub issuer_name: Seq<char>,
    pub issuer_address: Seq<char>,
    pub issuer_gst_number: Seq<char>,
    pub issuer_phone: Seq<char>,
    pub issuer_email: Option<Seq<char>>,
    pub recipient_name: Seq<char>,
    pub recipient_address: Seq<char>,
    pub recipient_gst_number: Seq<char>,
    pub recipient_phone: Seq<char>,
    pub recipient_email: Option<Seq<char>>,
    pub invoice_number: Seq<char>,
    pub invoice_date: Seq<char>,
    pub amount: u64,
    pub cgst_percentage: Option<u64>,
    pub sgst_percentage: Option<u64>,
    pub igst_percentage: Option<u64>,
    pub additional_charges: Option<Seq<AdditionalChargesView>>,
    pub total: u64,
    pub items: Seq<InvoiceItemView>,
}

impl DeepView for Invoice {
    type V = InvoiceView;

    open spec fn deep_view(&self) -> InvoiceView {
        InvoiceView {
            id: self.id@,
            issuer_name: self.issuer_name@,
            issuer_address: self.issuer_address@,
            issuer_gst_number: self.issuer_gst_number@,
            issuer_phone: self.issuer_phone@,
            issuer_email: self.issuer_email.deep_view(),
            recipient_name: self.recipient_name@,
            recipient_address: self.recipient_address@,
            recipient_gst_number: self.recipient_gst_number@,
            recipient_phone: self.recipient_phone@,
            recipient_email: self.recipient_email.deep_view(),
            invoice_number: self.invoice_number@,
            invoice_date: self.invoice_date@,
            amount: self.amount.bits,
            cgst_percentage: self.cgst_percentage.deep_view(),
            sgst_percentage: self.sgst_percentage.deep_view(),
            igst_percentage: self.igst_percentage.deep_view(),
            additional_charges: self.additional_charges.deep_view(),
            total: self.total.bits,
            items: self.items.deep_view(),
        }
    }
}

impl View for Invoice {
    type V = InvoiceView;

    open spec fn view(&self) -> InvoiceView {
        self.deep_view()
    }
}

/// Whether an optional number is finite where there is one.
pub open spec fn finite_if_some(bits: Option<u64>) -> bool {
    match bits {
        Some(bits) => finite_bits(bits),
        None => true,
    }
}

/// Whether every line of a list is well formed.
pub open spec fn items_well_formed(items: Seq<InvoiceItemView>) -> bool {
    forall|i: int| 0 <= i < items.len() ==> (#[trigger] items[i]).well_formed()
}

/// Whether every charge of a list is well formed.
pub open spec fn charges_well_formed(charges: Seq<AdditionalChargesView>) -> bool {
    forall|i: int| 0 <= i < charges.len() ==> (#[trigger] charges[i]).well_formed()
}

impl InvoiceView {
    /// An invoice is well formed when each of its numbers is finite, those of
    /// its lines and charges too.
    pub open spec fn well_formed(self) -> bool {
        &&& finite_bits(self.amount)
        &&& finite_bits(self.total)
        &&& finite_if_some(self.cgst_percentage)
        &&& finite_if_some(self.sgst_percentage)
        &&& finite_if_some(self.igst_percentage)
        &&& items_well_formed(self.items)
        &&& match self.additional_charges {
            Some(charges) => charges_well_formed(charges),
            None => true,
        }
    }
}

impl Invoice {
    /// An invoice of the given fields, with no additional charges.
    pub fn new(
        id: String,
        issuer_name: String,
        issuer_address: String,
        issuer_gst_number: String,
        issuer_phone: String,
        issuer_email: Option<String>,
        recipient_name: String,
        recipient_address: String,
        recipient_gst_number: String,
        recipient_phone: String,
        recipient_email: Option<String>,
        invoice_number: String,
        invoice_date: String,
        amount: Real64,
        cgst_percentage: Option<Real64>,
        sgst_percentage: Option<Real64>,
        igst_percentage: Option<Real64>,
        total: Real64,
        items: Vec<InvoiceItem>,
    ) -> (invoice: Invoice)
        ensures
            invoice@ == (InvoiceView {
                id: id@,
                issuer_name: issuer_name@,
                issuer_address: issuer_address@,
                issuer_gst_number: issuer_gst_number@,
                issuer_phone: issuer_phone@,
                issuer_email: issuer_email.deep_view(),
                recipient_name: recipient_name@,
                recipient_address: recipient_address@,
                recipient_gst_number: recipient_gst_number@,
                recipient_phone: recipient_phone@,
                recipient_email: recipient_email.deep_view(),
                invoice_number: invoice_number@,
                invoice_date: invoice_date@,
                amount: amount.bits,
                cgst_percentage: cgst_percentage.deep_view(),
                sgst_percentage: sgst_percentage.deep_view(),
                igst_percentage: igst_percentage.deep_view(),
                additional_charges: None,
                total: total.bits,
                items: items.deep_view(),
            }),
    {
        Invoice {
            id,
            issuer_name,
            issuer_address,
            issuer_gst_number,
            issuer_phone,
            issuer_email,
            recipient_name,
            recipient_address,
            recipient_gst_number,
            recipient_phone,
            recipient_email,
            invoice_number,
            invoice_date,
            amount,
            cgst_percentage,
            sgst_percentage,
            igst_percentage,
            additional_charges: None,
            total,
            items,
        }
    }
}

} // verus!
