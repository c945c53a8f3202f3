//! Values that never show themselves when displayed.

use vstd::prelude::*;

verus! {

/// A value whose displayed form is always `<redacted>`.
#[derive(Clone, PartialEq, Eq)]
pub struct Redacted<T> {
    value: T,
}

/// What a redacted value displays as.
pub open spec fn spec_redacted_text() -> Seq<char> {
    "<redacted>"@
}

impl<T> Redacted<T> {
    /// The value held.
    pub closed spec fn inner(&self) -> T {
        self.value
    }

    /// Wraps `value`.
    pub fn new(value: T) -> (r: Self)
        ensures
            r.inner() == value,
    {
        Redacted { value }
    }

    /// The value held, for the code that needs it.
    pub fn expose(&self) -> (r: &T)
        ensures
            *r == self.inner(),
    {
        &self.value
    }

    /// The value held, taken out.
    pub fn into_inner(self) -> (r: T)
        ensures
            r == self.inner(),
    {
        self.value
    }

    /// The displayed form, whatever the value: `<redacted>`.
    pub fn to_display_string(&self) -> (r: String)
        ensures
            r@ == spec_redacted_text(),
    {
        "<redacted>".to_owned()
    }

    /// The debug form, whatever the value: `<redacted>`.
    pub fn to_debug_string(&self) -> (r: String)
        ensures
            r@ == spec_redacted_text(),
    {
        "<redacted>".to_owned()
    }
}

/// A redacted string.
pub type SecretString = Redacted<String>;

impl From<String> for Redacted<String> {
    fn from(value: String) -> (r: Self) {
        Redacted { value }
    }
}

impl vstd::std_specs::convert::FromSpecImpl<String> for Redacted<String> {
    open spec fn obeys_from_spec() -> bool {
        true
    }

    closed spec fn from_spec(v: String) -> Self {
        Redacted { value: v }
    }
}

impl<'a> From<&'a str> for Redacted<String> {
    fn from(value: &'a str) -> (r: Self)
        ensures
            r.inner()@ == value@,
    {
        Redacted { value: value.to_owned() }
    }
}

/// Conversion from a string slice is stated by the `ensures` of `from`
/// itself, over the view of the text, rather than by an equation on the
/// owned string.
impl<'a> vstd::std_specs::convert::FromSpecImpl<&'a str> for Redacted<String> {
    open spec fn obeys_from_spec() -> bool {
        false
    }

    closed spec fn from_spec(v: &'a str) -> Self {
        vstd::pervasive::arbitrary()
    }
}

} // verus!
