pub mod codec;
pub mod config;
pub mod dispatch;
pub mod driven;
pub mod dto;
pub mod gateway;
pub mod hexfmt;
pub mod ids;
pub mod messages;
pub mod retry;
pub mod schemas;
pub mod store;
pub mod usecase;

use crate::usecase::charge_create_usecase::ChargeCreateUsecase;
use crate::usecase::invoice_create_usecase::InvoiceCreateUsecase;
use crate::usecase::invoice_insert_item_usecase::InvoiceInsertItemUsecase;
use crate::usecase::invoice_list_usecase::InvoiceListUsecase;
use crate::usecase::invoice_update_usecase::InvoiceUpdateUsecase;
use crate::usecase::payment_method_create_usecase::PaymentMethodCreateUsecase;
use crate::usecase::user_create_usecase::UserCreateUsecase;
use vstd::prelude::*;

verus! {

/// The charge entry points.
pub struct ChargeUsecase {
    pub create: ChargeCreateUsecase,
}

/// The invoice entry points.
pub struct InvoiceUsecase {
    pub create: InvoiceCreateUsecase,
    pub create_or_append: InvoiceInsertItemUsecase,
    pub list: InvoiceListUsecase,
    pub update: InvoiceUpdateUsecase,
}

/// The payment-method entry points.
pub struct PaymentMethodUsecase {
    pub create: PaymentMethodCreateUsecase,
}

/// The user entry points.
pub struct UserUsecase {
    pub create: UserCreateUsecase,
}

/// Every entry point the front doors call, wired once at process start and
/// passed by reference from there on.
pub struct Core {
    pub charge: ChargeUsecase,
    pub invoice: InvoiceUsecase,
    pub payment_method: PaymentMethodUsecase,
    pub user: UserUsecase,
}

/// Wires the usecase layer once. The state the usecases work on is handed
/// to each call separately.
pub fn get_core() -> Core {
    Core {
        charge: ChargeUsecase { create: ChargeCreateUsecase {  } },
        invoice: InvoiceUsecase {
            create: InvoiceCreateUsecase {  },
            create_or_append: InvoiceInsertItemUsecase {  },
            list: InvoiceListUsecase {  },
            update: InvoiceUpdateUsecase {  },
        },
        payment_method: PaymentMethodUsecase { create: PaymentMethodCreateUsecase {  } },
        user: UserUsecase { create: UserCreateUsecase {  } },
    }
}

} // verus!

