use crate::dto::invoice::Invoice;
use crate::dto::invoice_item::InvoiceItem;
use crate::dto::payment_method::PaymentMethodInfo;
use vstd::prelude::*;

verus! {

// The shapes the front doors exchange with callers, as plain values. The
// shell parses and serializes them; the core only defines what they hold.
// Every identifier crosses the boundary as text and is validated inside.

/// What a user-creation request carries.
#[derive(Debug)]
pub struct CreateUserInputSchema {
    pub external_id: String,
}

/// What an invoice-creation request carries.
#[derive(Debug)]
pub struct CreateInvoiceInputSchema {
    pub external_user_id: String,
    pub itens: Vec<InvoiceItem>,
}

/// What an invoice listing returns.
#[derive(Debug)]
pub struct GetInvoiceOutputSchema {
    pub invoces: Vec<Invoice>,
}

/// What a status-update request carries.
#[derive(Debug)]
pub struct UpdateInvoiceInputSchema {
    pub invoice_id: String,
    pub status: String,
}

/// What a payment-method-creation request carries.
#[derive(Debug)]
pub struct CreatePaymentMethodInputSchema {
    pub external_user_id: String,
    pub is_default: bool,
    pub method: String,
    pub info: PaymentMethodInfo,
}

/// What a charge-creation request carries.
#[derive(Debug)]
pub struct CreateChargeInputSchema {
    pub invoice_id: String,
}

} // verus!
