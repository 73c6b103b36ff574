pub mod charge_create_usecase;
pub mod invoice_create_usecase;
pub mod invoice_insert_item_usecase;
pub mod invoice_list_usecase;
pub mod invoice_update_usecase;
pub mod invoice_usecase;
pub mod payment_method_create_usecase;
pub mod user_create_usecase;
