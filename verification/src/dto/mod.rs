pub mod charge;
pub mod gateway;
pub mod gateway_integration;
pub mod invoice;
pub mod invoice_item;
pub mod payment_method;
pub mod user;
