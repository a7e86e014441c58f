//! Subject and issuer names as one line of text: the attributes in a fixed
//! order, each as `Prefix=Value`, joined by a comma and a space.

use crate::native::NameAttribute;
use vstd::prelude::*;
use vstd::string::StringExecFns;

verus! {

impl NameAttribute {
    /// The first attribute that a name string shows.
    pub open spec fn first_spec() -> NameAttribute {
        NameAttribute::Country
    }

    #[verifier::when_used_as_spec(first_spec)]
    pub fn first() -> (attribute: NameAttribute)
        ensures
            attribute == NameAttribute::first_spec(),
    {
        NameAttribute::Country
    }

    /// The attribute that follows this one in a name string, if any does.
    pub open spec fn next_spec(self) -> Option<NameAttribute> {
        match self {
            NameAttribute::Country => Some(NameAttribute::State),
            NameAttribute::State => Some(NameAttribute::Locality),
            NameAttribute::Locality => Some(NameAttribute::Organization),
            NameAttribute::Organization => Some(NameAttribute::OrganizationalUnit),
            NameAttribute::OrganizationalUnit => Some(NameAttribute::CommonName),
            NameAttribute::CommonName => None,
        }
    }

    #[verifier::when_used_as_spec(next_spec)]
    pub fn next(self) -> (following: Option<NameAttribute>)
        ensures
            following == self.next_spec(),
    {
        match self {
            NameAttribute::Country => Some(NameAttribute::State),
            NameAttribute::State => Some(NameAttribute::Locality),
            NameAttribute::Locality => Some(NameAttribute::Organization),
            NameAttribute::Organization => Some(NameAttribute::OrganizationalUnit),
            NameAttribute::OrganizationalUnit => Some(NameAttribute::CommonName),
            NameAttribute::CommonName => None,
        }
    }

    /// What stands before the attribute's value in a name string.
    pub open spec fn prefix_spec(self) -> Seq<char> {
        match self {
            NameAttribute::Country => "C="@,
            NameAttribute::State => "S="@,
            NameAttribute::Locality => "L="@,
            NameAttribute::Organization => "O="@,
            NameAttribute::OrganizationalUnit => "OU="@,
            NameAttribute::CommonName => "CN="@,
        }
    }

    pub fn prefix(self) -> (text: &'static str)
        ensures
            text@ == self.prefix_spec(),
    {
        match self {
            NameAttribute::Country => "C=",
            NameAttribute::State => "S=",
            NameAttribute::Locality => "L=",
            NameAttribute::Organization => "O=",
            NameAttribute::OrganizationalUnit => "OU=",
            NameAttribute::CommonName => "CN=",
        }
    }

    /// The object identifier under which a certificate carries the attribute.
    pub open spec fn oid_spec(self) -> Seq<char> {
        match self {
            NameAttribute::Country => "2.5.4.6"@,
            NameAttribute::State => "2.5.4.8"@,
            NameAttribute::Locality => "2.5.4.7"@,
            NameAttribute::Organization => "2.5.4.10"@,
            NameAttribute::OrganizationalUnit => "2.5.4.11"@,
            NameAttribute::CommonName => "2.5.4.3"@,
        }
    }

    pub fn oid(self) -> (text: &'static str)
        ensures
            text@ == self.oid_spec(),
    {
        match self {
            NameAttribute::Country => "2.5.4.6",
            NameAttribute::State => "2.5.4.8",
            NameAttribute::Locality => "2.5.4.7",
            NameAttribute::Organization => "2.5.4.10",
            NameAttribute::OrganizationalUnit => "2.5.4.11",
            NameAttribute::CommonName => "2.5.4.3",
        }
    }
}

/// A name string with one more attribute: unchanged where the certificate has
/// no value for the attribute, else longer by `Prefix=Value`, after a comma and
/// a space where something stands before it.
pub open spec fn with_attribute(text: Seq<char>, attribute: NameAttribute, value: Seq<char>) -> Seq<
    char,
> {
    if value.len() == 0 {
        text
    } else if text.len() == 0 {
        attribute.prefix_spec() + value
    } else {
        text + ", "@ + attribute.prefix_spec() + value
    }
}

/// The name string of a certificate whose attributes from `attribute` on have
/// the values `values`, where `text` holds the attributes before them.
pub open spec fn name_from(text: Seq<char>, attribute: NameAttribute, values: Seq<Seq<char>>) -> Seq<
    char,
>
    decreases values.len(),
{
    if values.len() == 0 {
        text
    } else {
        let longer = with_attribute(text, attribute, values[0]);
        match attribute.next_spec() {
            Some(following) => name_from(longer, following, values.drop_first()),
            None => longer,
        }
    }
}

/// The name string for the values of the six attributes, in their order; an
/// empty value stands for an attribute that the certificate does not have.
pub open spec fn name_text(values: Seq<Seq<char>>) -> Seq<char> {
    name_from(Seq::empty(), NameAttribute::first_spec(), values)
}

/// Adds one attribute to a name string.
pub fn append_attribute(text: String, attribute: NameAttribute, value: &str) -> (longer: String)
    ensures
        longer@ == with_attribute(text@, attribute, value@),
{
    if value.is_empty() {
        text
    } else {
        let mut longer = text;
        if longer.as_str().is_empty() {
            longer.append(attribute.prefix());
            assert(longer@ =~= attribute.prefix_spec());
        } else {
            longer.append(", ");
            longer.append(attribute.prefix());
        }
        longer.append(value);
        longer
    }
}

} // verus!
