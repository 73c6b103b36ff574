use vstd::prelude::*;

verus! {

// Closed error kinds of the driven ports, one per operation. `UnmappedError`
// always stands for an infrastructure failure that is opaque to the core
// (network, serialization, SQL); the in-memory state never produces one
// except where the identifier space is exhausted.

/// Errors of reading a user.
#[derive(Clone, Copy, Debug, PartialEq, Eq, Structural)]
pub enum ReadingUserError {
    UserNotFoundError,
    UnmappedError,
    InvalidUuidError,
}

/// Errors of creating a user.
#[derive(Clone, Copy, Debug, PartialEq, Eq, Structural)]
pub enum CreatingUserError {
    UnmappedError,
}

/// Errors of reading invoices.
#[derive(Clone, Copy, Debug, PartialEq, Eq, Structural)]
pub enum ReadingInvoiceError {
    InvoiceNotFoundError,
    UnmappedError,
}

/// Errors of creating an invoice with its items.
#[derive(Clone, Copy, Debug, PartialEq, Eq, Structural)]
pub enum CreatingInvoiceError {
    InvoiceNotFoundError,
    UnmappedError,
}

/// Errors of appending one item to an invoice.
#[derive(Clone, Copy, Debug, PartialEq, Eq, Structural)]
pub enum CreatingInvoiceItemError {
    UnmappedError,
}

/// Errors of updating an invoice's status.
#[derive(Clone, Copy, Debug, PartialEq, Eq, Structural)]
pub enum UpdatingInvoiceError {
    UnmappedError,
}

/// Errors of reading a user's default payment method.
#[derive(Clone, Copy, Debug, PartialEq, Eq, Structural)]
pub enum ReadingPaymentMethodError {
    MethodUnexpectederror,
    UnmappedError,
}

/// Errors of creating a payment method.
#[derive(Clone, Copy, Debug, PartialEq, Eq, Structural)]
pub enum CreatingPaymentMethodError {
    UnmappedError,
}

/// Errors of reading the gateway priority list.
#[derive(Clone, Copy, Debug, PartialEq, Eq, Structural)]
pub enum ReadingGatewayError {
    UnmappedError,
}

/// Errors of creating a gateway integration. A duplicate `(user, gateway)`
/// pair is a conflict, reported apart from infrastructure failures so that
/// callers can decide between retrying and aborting.
#[derive(Clone, Copy, Debug, PartialEq, Eq, Structural)]
pub enum CreatingGatewayIntegrationError {
    DuplicateGatewayIntegrationError,
    UnmappedError,
}

/// Errors of updating a gateway integration with gateway-side identifiers.
#[derive(Clone, Copy, Debug, PartialEq, Eq, Structural)]
pub enum UpdatingGatewayIntegrationError {
    UnmappedError,
    DuplicateGatewayIntegration,
    NoGatewayIntegration,
}

/// Errors of creating a charge. `KafkaProducerError` reports that the charge
/// row was persisted but the charge-created event could not be published.
#[derive(Clone, Copy, Debug, PartialEq, Eq, Structural)]
pub enum CreatingChargeError {
    KafkaProducerError,
    UnmappedError,
}

/// Errors of the payment-gateway port itself.
#[derive(Clone, Copy, Debug, PartialEq, Eq, Structural)]
pub enum GatewayAPIError {
    LoginError,
    ChargeError,
    CustomerCreationError,
    PaymentMethodCreationError,
    PaymentMethodTransformError,
    NotSuccessfulReturn,
    UnmappedError,
}

/// The gateway-side record of a customer.
#[derive(Debug, PartialEq)]
pub struct GatewayUser {
    pub id: String,
    pub name: String,
    pub email: String,
}

impl Clone for GatewayUser {
    fn clone(&self) -> (r: Self)
        ensures
            r == *self,
    {
        GatewayUser { id: self.id.clone(), name: self.name.clone(), email: self.email.clone() }
    }
}

/// The gateway-side record of a payment method.
#[derive(Debug, PartialEq)]
pub struct GatewayPaymentMethod {
    pub id: String,
}

impl Clone for GatewayPaymentMethod {
    fn clone(&self) -> (r: Self)
        ensures
            r == *self,
    {
        GatewayPaymentMethod { id: self.id.clone() }
    }
}

} // verus!
