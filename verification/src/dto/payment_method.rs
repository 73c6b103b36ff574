use vstd::prelude::*;
use vstd::string::*;

verus! {

/// The kind of a payment method. `UnmappedMethod` stands for any method
/// string that the system does not know.
#[derive(Clone, Copy, Debug, PartialEq, Eq, Structural)]
pub enum Method {
    Pix,
    CreditCard,
    UnmappedMethod,
}

/// The method a given method string names.
pub open spec fn method_of_str(s: Seq<char>) -> Method {
    if s == "pix"@ {
        Method::Pix
    } else if s == "credit_card"@ {
        Method::CreditCard
    } else {
        Method::UnmappedMethod
    }
}

/// The method string that names a given method.
pub open spec fn method_str(m: Method) -> Seq<char> {
    match m {
        Method::Pix => "pix"@,
        Method::CreditCard => "credit_card"@,
        Method::UnmappedMethod => "unknown"@,
    }
}

impl Method {
    /// Maps a method string to its method, as the boundary receives it.
    pub fn from_str(s: &str) -> (r: Method)
        ensures
            r == method_of_str(s@),
    {
        let x = String::from_str(s);
        if x == String::from_str("pix") {
            Method::Pix
        } else if x == String::from_str("credit_card") {
            Method::CreditCard
        } else {
            Method::UnmappedMethod
        }
    }

    /// The method string under which this method is stored and reported.
    pub fn as_str(&self) -> (r: &'static str)
        ensures
            r@ == method_str(*self),
    {
        match self {
            Method::Pix => "pix",
            Method::CreditCard => "credit_card",
            Method::UnmappedMethod => "unknown",
        }
    }
}

/// What a Pix payment method holds.
#[derive(Debug, PartialEq)]
pub struct PixInfo {
    pub key: String,
    pub external_id: String,
}

impl Clone for PixInfo {
    fn clone(&self) -> (r: Self)
        ensures
            r == *self,
    {
        PixInfo { key: self.key.clone(), external_id: self.external_id.clone() }
    }
}

/// What a credit-card payment method holds.
#[derive(Debug, PartialEq)]
pub struct CreditCardInfo {
    pub last4digit: String,
    pub flag: String,
    pub expire_data: String,
    pub external_id: String,
}

impl Clone for CreditCardInfo {
    fn clone(&self) -> (r: Self)
        ensures
            r == *self,
    {
        CreditCardInfo {
            last4digit: self.last4digit.clone(),
            flag: self.flag.clone(),
            expire_data: self.expire_data.clone(),
            external_id: self.external_id.clone(),
        }
    }
}

/// The method-specific payload of a payment method.
#[derive(Debug, PartialEq)]
pub enum PaymentMethodInfo {
    CreditCardInfo(CreditCardInfo),
    PixInfo(PixInfo),
}

impl Clone for PaymentMethodInfo {
    fn clone(&self) -> (r: Self)
        ensures
            r == *self,
    {
        match self {
            PaymentMethodInfo::CreditCardInfo(c) => PaymentMethodInfo::CreditCardInfo(c.clone()),
            PaymentMethodInfo::PixInfo(p) => PaymentMethodInfo::PixInfo(p.clone()),
        }
    }
}

/// A way a user can pay. At most one method per user should be marked
/// default; the charge path resolves the first default it finds.
#[derive(Debug, PartialEq)]
pub struct PaymentMethod {
    pub id: u128,
    pub user_id: u128,
    pub is_default: bool,
    pub method: Method,
    pub info: PaymentMethodInfo,
}

impl Clone for PaymentMethod {
    fn clone(&self) -> (r: Self)
        ensures
            r == *self,
    {
        PaymentMethod {
            id: self.id,
            user_id: self.user_id,
            is_default: self.is_default,
            method: self.method,
            info: self.info.clone(),
        }
    }
}

} // verus!
