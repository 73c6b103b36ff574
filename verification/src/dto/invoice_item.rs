use vstd::prelude::*;

verus! {

/// An exact, non-negative decimal amount: `mantissa * 10^(-scale)`.
#[derive(Clone, Copy, Debug, PartialEq, Eq, Structural)]
pub struct Amount {
    pub mantissa: u64,
    pub scale: u8,
}

/// A line of an invoice. `id` stays `None` until the item is persisted.
#[derive(Debug, PartialEq)]
pub struct InvoiceItem {
    pub id: Option<u128>,
    pub description: String,
    pub quantity: u16,
    pub amount: Amount,
    pub currency: String,
}

/// The mathematical value of an `InvoiceItem`: its strings as character
/// sequences, everything else as plain values.
pub struct InvoiceItemV {
    pub id: Option<u128>,
    pub description: Seq<char>,
    pub quantity: u16,
    pub amount: Amount,
    pub currency: Seq<char>,
}

impl View for InvoiceItem {
    type V = InvoiceItemV;

    open spec fn view(&self) -> InvoiceItemV {
        InvoiceItemV {
            id: self.id,
            description: self.description@,
            quantity: self.quantity,
            amount: self.amount,
            currency: self.currency@,
        }
    }
}

impl Clone for InvoiceItem {
    fn clone(&self) -> (r: Self)
        ensures
            r == *self,
    {
        InvoiceItem {
            id: self.id,
            description: self.description.clone(),
            quantity: self.quantity,
            amount: self.amount,
            currency: self.currency.clone(),
        }
    }
}

} // verus!
