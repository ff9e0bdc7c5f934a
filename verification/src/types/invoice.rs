//! An invoice for a payment.

use crate::errors::DecodeFailure;
use crate::family::check_class;
use crate::family::spec_class_failure;
use crate::family::Class;
use crate::raw::spec_all_objects;
use crate::raw::spec_unboxed;
use crate::raw::RawTaggedObject;
use crate::raw::RawValue;
use vstd::prelude::*;

verus! {

/// One portion of a price. Each field is handed on as it came: `None`
/// where the object did not carry it.
#[derive(Debug, Clone)]
pub struct TGLabeledPricePart {
    /// The label of the portion.
    pub label: Option<String>,
    /// The amount of the portion, in the minor units of the currency.
    pub amount: Option<i64>,
}

impl TGLabeledPricePart {
    /// What the fields of `raw` say of a portion of a price.
    pub open spec fn spec_of(raw: RawTaggedObject) -> TGLabeledPricePart {
        TGLabeledPricePart { label: raw.spec_string("label"@), amount: raw.spec_long("amount"@) }
    }

    /// Reads the fields of a portion of a price from `raw`, whatever its
    /// tag is.
    pub fn of(raw: &RawTaggedObject) -> (r: TGLabeledPricePart)
        ensures
            r == Self::spec_of(*raw),
    {
        let label = match raw.get_text("label") {
            Some(text) => Some(text.clone()),
            None => None,
        };
        TGLabeledPricePart { label, amount: raw.get_long("amount") }
    }
}

/// An invoice, decoded from an object tagged `invoice`. No field of an
/// invoice must be there.
#[derive(Debug)]
pub struct TGInvoice {
    origin: RawTaggedObject,
}

impl View for TGInvoice {
    type V = RawTaggedObject;

    /// The object that the invoice was decoded from.
    closed spec fn view(&self) -> RawTaggedObject {
        self.origin
    }
}

impl TGInvoice {
    #[verifier::type_invariant]
    spec fn well_formed(self) -> bool {
        Self::spec_failure(self.origin) is None
    }

    /// Why `raw` does not decode as an invoice, or `None` where it does.
    pub open spec fn spec_failure(raw: RawTaggedObject) -> Option<DecodeFailure> {
        spec_class_failure(raw.tag@, Class::Invoice)
    }

    /// The portions of the price: one for each object of the array
    /// `price_parts`, in order; none where the field is absent or is not
    /// an array of objects.
    pub open spec fn spec_price_parts(self) -> Seq<TGLabeledPricePart> {
        match self@.spec_objects("price_parts"@) {
            Some(parts) => parts.map_values(|part: RawTaggedObject| TGLabeledPricePart::spec_of(part)),
            None => Seq::empty(),
        }
    }

    /// Decodes a tagged object as an invoice. Succeeds exactly where the
    /// tag is `invoice`.
    pub fn decode(raw: RawTaggedObject) -> (r: Result<TGInvoice, DecodeFailure>)
        ensures
            match r {
                Ok(invoice) => invoice@ == raw && Self::spec_failure(raw) is None,
                Err(e) => Self::spec_failure(raw) == Some(e),
            },
    {
        if let Some(e) = check_class(raw.tag.as_str(), Class::Invoice) {
            return Err(e);
        }
        Ok(TGInvoice { origin: raw })
    }

    /// The object that the invoice was decoded from.
    pub fn td_origin(&self) -> (r: &RawTaggedObject)
        ensures
            *r == self@,
            Self::spec_failure(self@) is None,
    {
        proof {
            use_type_invariant(self);
        }
        &self.origin
    }

    /// The currency of the invoice, as an ISO 4217 code, or `None` where
    /// the backend sent none.
    pub fn currency(&self) -> (r: Option<String>)
        ensures
            r == self@.spec_string("currency"@),
    {
        match self.origin.get_text("currency") {
            Some(code) => Some(code.clone()),
            None => None,
        }
    }

    /// The portions of the price, in order; none where the backend sent no
    /// array of them.
    pub fn price_parts(&self) -> (r: Vec<TGLabeledPricePart>)
        ensures
            r@ == self.spec_price_parts(),
    {
        let mut parts: Vec<TGLabeledPricePart> = Vec::new();
        let values = match self.origin.get_array("price_parts") {
            Some(values) => values,
            None => {
                return parts;
            },
        };
        let mut i: usize = 0;
        while i < values.len()
            invariant
                i <= values.len(),
                parts@.len() == i,
                self@.spec_array("price_parts"@) == Some(values@),
                forall|j: int| 0 <= j < i ==> #[trigger] values@[j] is Object,
                forall|j: int|
                    0 <= j < i ==> #[trigger] parts@[j] == TGLabeledPricePart::spec_of(
                        *values@[j]->Object_0,
                    ),
            decreases values.len() - i,
        {
            match values[i].as_object() {
                Some(part) => {
                    parts.push(TGLabeledPricePart::of(part));
                },
                None => {
                    assert(!(values@[i as int] is Object));
                    return Vec::new();
                },
            }
            i = i + 1;
        }
        assert(spec_all_objects(values@));
        assert(parts@ =~= spec_unboxed(values@).map_values(
            |part: RawTaggedObject| TGLabeledPricePart::spec_of(part),
        ));
        parts
    }

    /// Whether the invoice is a test invoice: the field `is_test`, or `false`
    /// where the backend sent none.
    pub fn is_test(&self) -> (r: bool)
        ensures
            r == self@.spec_flag("is_test"@).unwrap_or(false),
    {
        match self.origin.get_flag("is_test") {
            Some(flag) => flag,
            None => false,
        }
    }

    /// Whether the user's full name is needed for payment: the field
    /// `need_name`, or `false` where the backend sent none.
    pub fn need_name(&self) -> (r: bool)
        ensures
            r == self@.spec_flag("need_name"@).unwrap_or(false),
    {
        match self.origin.get_flag("need_name") {
            Some(flag) => flag,
            None => false,
        }
    }

    /// Whether the user's phone number is needed for payment: the field
    /// `need_phone_number`, or `false` where the backend sent none.
    pub fn need_phone_number(&self) -> (r: bool)
        ensures
            r == self@.spec_flag("need_phone_number"@).unwrap_or(false),
    {
        match self.origin.get_flag("need_phone_number") {
            Some(flag) => flag,
            None => false,
        }
    }

    /// Whether the user's e-mail address is needed for payment: the field
    /// `need_email_address`, or `false` where the backend sent none.
    pub fn need_email_address(&self) -> (r: bool)
        ensures
            r == self@.spec_flag("need_email_address"@).unwrap_or(false),
    {
        match self.origin.get_flag("need_email_address") {
            Some(flag) => flag,
            None => false,
        }
    }

    /// Whether the user's shipping address is needed for payment: the field
    /// `need_shipping_address`, or `false` where the backend sent none.
    pub fn need_shipping_address(&self) -> (r: bool)
        ensures
            r == self@.spec_flag("need_shipping_address"@).unwrap_or(false),
    {
        match self.origin.get_flag("need_shipping_address") {
            Some(flag) => flag,
            None => false,
        }
    }

    /// Whether the user's phone number is sent to the payment provider: the
    /// field `send_phone_number_to_provider`, or `false` where the backend sent
    /// none.
    pub fn send_phone_number_to_provider(&self) -> (r: bool)
        ensures
            r == self@.spec_flag("send_phone_number_to_provider"@).unwrap_or(false),
    {
        match self.origin.get_flag("send_phone_number_to_provider") {
            Some(flag) => flag,
            None => false,
        }
    }

    /// Whether the user's e-mail address is sent to the payment provider: the
    /// field `send_email_address_to_provider`, or `false` where the backend
    /// sent none.
    pub fn send_email_address_to_provider(&self) -> (r: bool)
        ensures
            r == self@.spec_flag("send_email_address_to_provider"@).unwrap_or(false),
    {
        match self.origin.get_flag("send_email_address_to_provider") {
            Some(flag) => flag,
            None => false,
        }
    }

    /// Whether the total price depends on the shipping method: the field
    /// `is_flexible`, or `false` where the backend sent none.
    pub fn is_flexible(&self) -> (r: bool)
        ensures
            r == self@.spec_flag("is_flexible"@).unwrap_or(false),
    {
        match self.origin.get_flag("is_flexible") {
            Some(flag) => flag,
            None => false,
        }
    }
}

} // verus!
