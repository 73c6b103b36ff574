use crate::dto::invoice_item::{InvoiceItem, InvoiceItemV};
use vstd::prelude::*;
use vstd::string::*;

verus! {

/// The fixed status lifecycle of an invoice. `UnmappedStatus` stands for any
/// status string that the system does not know.
#[derive(Clone, Copy, Debug, PartialEq, Eq, Structural)]
pub enum InvoiceStatus {
    Draft,
    Pending,
    ChargedWithError,
    Paid,
    Cancelled,
    Uncollectible,
    Refunded,
    InProtest,
    Chargeback,
    UnmappedStatus,
}

/// The status a given status string names; anything unknown maps to
/// `UnmappedStatus`.
pub open spec fn status_of_str(s: Seq<char>) -> InvoiceStatus {
    if s == "draft"@ {
        InvoiceStatus::Draft
    } else if s == "pending"@ {
        InvoiceStatus::Pending
    } else if s == "charged_with_error"@ {
        InvoiceStatus::ChargedWithError
    } else if s == "paid"@ {
        InvoiceStatus::Paid
    } else if s == "cancelled"@ {
        InvoiceStatus::Cancelled
    } else if s == "uncollectible"@ {
        InvoiceStatus::Uncollectible
    } else if s == "refunded"@ {
        InvoiceStatus::Refunded
    } else if s == "in_protest"@ {
        InvoiceStatus::InProtest
    } else if s == "chargeback"@ {
        InvoiceStatus::Chargeback
    } else {
        InvoiceStatus::UnmappedStatus
    }
}

/// The status string that names a given status.
pub open spec fn status_str(s: InvoiceStatus) -> Seq<char> {
    match s {
        InvoiceStatus::Draft => "draft"@,
        InvoiceStatus::Pending => "pending"@,
        InvoiceStatus::ChargedWithError => "charged_with_error"@,
        InvoiceStatus::Paid => "paid"@,
        InvoiceStatus::Cancelled => "cancelled"@,
        InvoiceStatus::Uncollectible => "uncollectible"@,
        InvoiceStatus::Refunded => "refunded"@,
        InvoiceStatus::InProtest => "in_protest"@,
        InvoiceStatus::Chargeback => "chargeback"@,
        InvoiceStatus::UnmappedStatus => "unknown"@,
    }
}

impl InvoiceStatus {
    /// Maps a status string to its status, as the persistence layer stores it.
    pub fn from_str(s: &str) -> (r: InvoiceStatus)
        ensures
            r == status_of_str(s@),
    {
        let x = String::from_str(s);
        if x == String::from_str("draft") {
            InvoiceStatus::Draft
        } else if x == String::from_str("pending") {
            InvoiceStatus::Pending
        } else if x == String::from_str("charged_with_error") {
            InvoiceStatus::ChargedWithError
        } else if x == String::from_str("paid") {
            InvoiceStatus::Paid
        } else if x == String::from_str("cancelled") {
            InvoiceStatus::Cancelled
        } else if x == String::from_str("uncollectible") {
            InvoiceStatus::Uncollectible
        } else if x == String::from_str("refunded") {
            InvoiceStatus::Refunded
        } else if x == String::from_str("in_protest") {
            InvoiceStatus::InProtest
        } else if x == String::from_str("chargeback") {
            InvoiceStatus::Chargeback
        } else {
            InvoiceStatus::UnmappedStatus
        }
    }

    /// The status string under which this status is stored and reported.
    pub fn as_str(&self) -> (r: &'static str)
        ensures
            r@ == status_str(*self),
    {
        match self {
            InvoiceStatus::Draft => "draft",
            InvoiceStatus::Pending => "pending",
            InvoiceStatus::ChargedWithError => "charged_with_error",
            InvoiceStatus::Paid => "paid",
            InvoiceStatus::Cancelled => "cancelled",
            InvoiceStatus::Uncollectible => "uncollectible",
            InvoiceStatus::Refunded => "refunded",
            InvoiceStatus::InProtest => "in_protest",
            InvoiceStatus::Chargeback => "chargeback",
            InvoiceStatus::UnmappedStatus => "unknown",
        }
    }
}

/// A billable unit owned by one user. Items may only change while the status
/// is `Draft`; afterwards the status transitions are the only mutation path.
#[derive(Debug)]
pub struct Invoice {
    pub id: u128,
    pub user_id: u128,
    pub status: InvoiceStatus,
    pub itens: Vec<InvoiceItem>,
}

/// The mathematical value of an `Invoice`.
pub struct InvoiceV {
    pub id: u128,
    pub user_id: u128,
    pub status: InvoiceStatus,
    pub itens: Seq<InvoiceItemV>,
}

impl View for Invoice {
    type V = InvoiceV;

    open spec fn view(&self) -> InvoiceV {
        InvoiceV {
            id: self.id,
            user_id: self.user_id,
            status: self.status,
            itens: self.itens@.map_values(|it: InvoiceItem| it@),
        }
    }
}

impl Clone for Invoice {
    fn clone(&self) -> (r: Self)
        ensures
            r@ == self@,
    {
        let mut itens: Vec<InvoiceItem> = Vec::new();
        let n = self.itens.len();
        let mut i: usize = 0;
        while i < n
            invariant
                i <= n,
                n == self.itens.len(),
                itens@ == self.itens@.take(i as int),
            decreases n - i,
        {
            itens.push(self.itens[i].clone());
            proof {
                assert(itens@ =~= self.itens@.take(i + 1 as int));
            }
            i = i + 1;
        }
        proof {
            assert(self.itens@.take(n as int) =~= self.itens@);
        }
        Invoice { id: self.id, user_id: self.user_id, status: self.status, itens }
    }
}

} // verus!
