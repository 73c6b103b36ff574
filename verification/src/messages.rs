use vstd::prelude::*;
use vstd::string::*;

verus! {

// The caller-facing message of each error kind, as one line of text. Every
// usecase maps its closed error enums to one of these before propagating.

pub open spec fn msg_not_uuid() -> Seq<char> {
    "external id provided isn't uuid"@
}

pub(crate) fn mk_msg_not_uuid() -> (r: String)
    ensures
        r@ == msg_not_uuid(),
{
    String::from_str("external id provided isn't uuid")
}

pub open spec fn msg_user_not_found() -> Seq<char> {
    "User Not found"@
}

pub(crate) fn mk_msg_user_not_found() -> (r: String)
    ensures
        r@ == msg_user_not_found(),
{
    String::from_str("User Not found")
}

pub open spec fn msg_reading_user_unmapped() -> Seq<char> {
    "ReadingUserError::UnmappedError Something wrong happen"@
}

pub(crate) fn mk_msg_reading_user_unmapped() -> (r: String)
    ensures
        r@ == msg_reading_user_unmapped(),
{
    String::from_str("ReadingUserError::UnmappedError Something wrong happen")
}

pub open spec fn msg_creating_user_unmapped() -> Seq<char> {
    "CreatingUserError::UnmappedError Something wrong happen"@
}

pub(crate) fn mk_msg_creating_user_unmapped() -> (r: String)
    ensures
        r@ == msg_creating_user_unmapped(),
{
    String::from_str("CreatingUserError::UnmappedError Something wrong happen")
}

pub open spec fn msg_invoice_not_found() -> Seq<char> {
    "Invoice Not found"@
}

pub(crate) fn mk_msg_invoice_not_found() -> (r: String)
    ensures
        r@ == msg_invoice_not_found(),
{
    String::from_str("Invoice Not found")
}

pub open spec fn msg_creating_invoice_unmapped() -> Seq<char> {
    "CreatingInvoiceError::UnmappedError Something wrong happen"@
}

pub(crate) fn mk_msg_creating_invoice_unmapped() -> (r: String)
    ensures
        r@ == msg_creating_invoice_unmapped(),
{
    String::from_str("CreatingInvoiceError::UnmappedError Something wrong happen")
}

pub open spec fn msg_reading_invoice_unmapped() -> Seq<char> {
    "ReadingInvoiceError::UnmappedError Something wrong happen"@
}

pub(crate) fn mk_msg_reading_invoice_unmapped() -> (r: String)
    ensures
        r@ == msg_reading_invoice_unmapped(),
{
    String::from_str("ReadingInvoiceError::UnmappedError Something wrong happen")
}

pub open spec fn msg_update_invoice_not_found() -> Seq<char> {
    "Invoice not found"@
}

pub(crate) fn mk_msg_update_invoice_not_found() -> (r: String)
    ensures
        r@ == msg_update_invoice_not_found(),
{
    String::from_str("Invoice not found")
}

pub open spec fn msg_invalid_status() -> Seq<char> {
    "Updating to invalid status"@
}

pub(crate) fn mk_msg_invalid_status() -> (r: String)
    ensures
        r@ == msg_invalid_status(),
{
    String::from_str("Updating to invalid status")
}

pub open spec fn msg_updating_invoice_unmapped() -> Seq<char> {
    "UpdatingInvoiceError::UnmappedError went wrong"@
}

pub(crate) fn mk_msg_updating_invoice_unmapped() -> (r: String)
    ensures
        r@ == msg_updating_invoice_unmapped(),
{
    String::from_str("UpdatingInvoiceError::UnmappedError went wrong")
}

pub open spec fn msg_charge_invoice_not_found() -> Seq<char> {
    "invoice not found"@
}

pub(crate) fn mk_msg_charge_invoice_not_found() -> (r: String)
    ensures
        r@ == msg_charge_invoice_not_found(),
{
    String::from_str("invoice not found")
}

pub open spec fn msg_reading_pm_unmapped() -> Seq<char> {
    "ReadingPaymentMethodError::UnmappedError Something wrong happen"@
}

pub(crate) fn mk_msg_reading_pm_unmapped() -> (r: String)
    ensures
        r@ == msg_reading_pm_unmapped(),
{
    String::from_str("ReadingPaymentMethodError::UnmappedError Something wrong happen")
}

pub open spec fn msg_creating_charge_unmapped() -> Seq<char> {
    "CreatingChargeError::UnmappedError Something wrong happen"@
}

pub(crate) fn mk_msg_creating_charge_unmapped() -> (r: String)
    ensures
        r@ == msg_creating_charge_unmapped(),
{
    String::from_str("CreatingChargeError::UnmappedError Something wrong happen")
}

pub open spec fn msg_kafka_producer() -> Seq<char> {
    "Error on producing on kafka"@
}

pub(crate) fn mk_msg_kafka_producer() -> (r: String)
    ensures
        r@ == msg_kafka_producer(),
{
    String::from_str("Error on producing on kafka")
}

pub open spec fn msg_no_gateway() -> Seq<char> {
    "No gateway found"@
}

pub(crate) fn mk_msg_no_gateway() -> (r: String)
    ensures
        r@ == msg_no_gateway(),
{
    String::from_str("No gateway found")
}

pub open spec fn msg_reading_gateway_unmapped() -> Seq<char> {
    "ReadingGatewayError::UnmappedError Something wrong happen"@
}

pub(crate) fn mk_msg_reading_gateway_unmapped() -> (r: String)
    ensures
        r@ == msg_reading_gateway_unmapped(),
{
    String::from_str("ReadingGatewayError::UnmappedError Something wrong happen")
}

pub open spec fn msg_creating_pm_unmapped() -> Seq<char> {
    "CreatingPaymentMethodError::UnmappedError Something wrong happen"@
}

pub(crate) fn mk_msg_creating_pm_unmapped() -> (r: String)
    ensures
        r@ == msg_creating_pm_unmapped(),
{
    String::from_str("CreatingPaymentMethodError::UnmappedError Something wrong happen")
}

pub open spec fn msg_gi_duplicate() -> Seq<char> {
    "Gateway integration already exists"@
}

pub(crate) fn mk_msg_gi_duplicate() -> (r: String)
    ensures
        r@ == msg_gi_duplicate(),
{
    String::from_str("Gateway integration already exists")
}

pub open spec fn msg_gi_unmapped() -> Seq<char> {
    "CreatingGatewayIntegrationError::UnmappedError Something wrong happen"@
}

pub(crate) fn mk_msg_gi_unmapped() -> (r: String)
    ensures
        r@ == msg_gi_unmapped(),
{
    String::from_str("CreatingGatewayIntegrationError::UnmappedError Something wrong happen")
}

pub open spec fn msg_cache_decode() -> Seq<char> {
    "cached response could not be decoded"@
}

pub(crate) fn mk_msg_cache_decode() -> (r: String)
    ensures
        r@ == msg_cache_decode(),
{
    String::from_str("cached response could not be decoded")
}

} // verus!
