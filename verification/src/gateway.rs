use crate::driven::{GatewayAPIError, GatewayPaymentMethod, GatewayUser};
use vstd::prelude::*;
use vstd::string::*;

verus! {

// The provider-specific side of the gateway port. The HTTP adapter that
// carries these values to the provider lives outside the verified core;
// the mapping from the domain's method strings to the provider's payment
// method kinds is decided here, so that an unmapped string is rejected as
// a transform error and never silently defaulted.

/// The payment method kinds the provider knows.
#[derive(Clone, Copy, Debug, PartialEq, Eq, Structural)]
pub enum StripePaymentMethod {
    Card,
    Pix,
}

/// The provider's payment method kind a method string names, if any.
pub open spec fn stripe_method_of_str(s: Seq<char>) -> Option<StripePaymentMethod> {
    if s == "credit_card"@ {
        Some(StripePaymentMethod::Card)
    } else if s == "pix"@ {
        Some(StripePaymentMethod::Pix)
    } else {
        None
    }
}

/// The provider-side name of a payment method kind.
pub open spec fn stripe_method_str(m: StripePaymentMethod) -> Seq<char> {
    match m {
        StripePaymentMethod::Card => "card"@,
        StripePaymentMethod::Pix => "pix"@,
    }
}

impl StripePaymentMethod {
    /// Maps a domain method string to the provider's kind; an unmapped
    /// string is a transform error, not a default.
    pub fn from_str(s: &str) -> (r: Result<StripePaymentMethod, GatewayAPIError>)
        ensures
            match stripe_method_of_str(s@) {
                Some(m) => r == Ok::<StripePaymentMethod, GatewayAPIError>(m),
                None => r == Err::<StripePaymentMethod, GatewayAPIError>(
                    GatewayAPIError::PaymentMethodTransformError,
                ),
            },
    {
        let x = String::from_str(s);
        if x == String::from_str("credit_card") {
            Ok(StripePaymentMethod::Card)
        } else if x == String::from_str("pix") {
            Ok(StripePaymentMethod::Pix)
        } else {
            Err(GatewayAPIError::PaymentMethodTransformError)
        }
    }

    /// The name under which the provider knows this kind.
    pub fn as_str(&self) -> (r: &'static str)
        ensures
            r@ == stripe_method_str(*self),
    {
        match self {
            StripePaymentMethod::Card => "card",
            StripePaymentMethod::Pix => "pix",
        }
    }
}

// What each gateway call concludes from the provider's answer. The adapter
// reports whether the provider was reached and whether it answered with
// success, plus whatever payload came back; these functions decide the
// port's result. They are total over every combination an answer can show.

/// A charge stands only on a success reply; everything else, a transport
/// failure included, is a charge error.
pub fn charge_outcome(reached: bool, success: bool) -> (r: Result<bool, GatewayAPIError>)
    ensures
        reached && success <==> r == Ok::<bool, GatewayAPIError>(true),
        !(reached && success) <==> r == Err::<bool, GatewayAPIError>(GatewayAPIError::ChargeError),
{
    if reached && success {
        Ok(true)
    } else {
        Err(GatewayAPIError::ChargeError)
    }
}

/// What customer creation concludes: a transport failure or an unreadable
/// payload is a creation error, a non-success reply is reported as such,
/// and a created customer missing its email falls back to the one asked
/// for.
pub fn customer_outcome(
    reached: bool,
    success: bool,
    body: Option<(String, String, Option<String>)>,
    requested_email: &str,
) -> (r: Result<GatewayUser, GatewayAPIError>)
    ensures
        !reached ==> r == Err::<GatewayUser, GatewayAPIError>(
            GatewayAPIError::CustomerCreationError,
        ),
        reached && !success ==> r == Err::<GatewayUser, GatewayAPIError>(
            GatewayAPIError::NotSuccessfulReturn,
        ),
        reached && success ==> match body {
            None => r == Err::<GatewayUser, GatewayAPIError>(
                GatewayAPIError::CustomerCreationError,
            ),
            Some(b) => {
                &&& r is Ok
                &&& r->Ok_0.id@ == b.0@
                &&& r->Ok_0.name@ == b.1@
                &&& r->Ok_0.email@ == match b.2 {
                    Some(e) => e@,
                    None => requested_email@,
                }
            },
        },
{
    if !reached {
        return Err(GatewayAPIError::CustomerCreationError);
    }
    if !success {
        return Err(GatewayAPIError::NotSuccessfulReturn);
    }
    match body {
        None => Err(GatewayAPIError::CustomerCreationError),
        Some((id, name, email)) => Ok(
            GatewayUser {
                id,
                name,
                email: match email {
                    Some(e) => e,
                    None => String::from_str(requested_email),
                },
            },
        ),
    }
}

/// What payment-method creation concludes: a transport failure or an
/// unreadable payload is a creation error, a non-success reply is reported
/// as such, and otherwise the gateway-side record stands.
pub fn payment_method_outcome(reached: bool, success: bool, body: Option<String>) -> (r: Result<
    GatewayPaymentMethod,
    GatewayAPIError,
>)
    ensures
        !reached ==> r == Err::<GatewayPaymentMethod, GatewayAPIError>(
            GatewayAPIError::PaymentMethodCreationError,
        ),
        reached && !success ==> r == Err::<GatewayPaymentMethod, GatewayAPIError>(
            GatewayAPIError::NotSuccessfulReturn,
        ),
        reached && success ==> match body {
            None => r == Err::<GatewayPaymentMethod, GatewayAPIError>(
                GatewayAPIError::PaymentMethodCreationError,
            ),
            Some(id) => r is Ok && r->Ok_0.id@ == id@,
        },
{
    if !reached {
        return Err(GatewayAPIError::PaymentMethodCreationError);
    }
    if !success {
        return Err(GatewayAPIError::NotSuccessfulReturn);
    }
    match body {
        None => Err(GatewayAPIError::PaymentMethodCreationError),
        Some(id) => Ok(GatewayPaymentMethod { id }),
    }
}

} // verus!
