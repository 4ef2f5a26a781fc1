use vstd::prelude::*;

verus! {

/// What a `Nullable` means as an `Option`: `Present(v)` is `Some(v)` and `Null`
/// is `None`.
pub open spec fn option_of<T>(n: Nullable<T>) -> Option<T> {
    match n {
        Nullable::Present(v) => Some(v),
        Nullable::Null => None,
    }
}

/// The `Nullable` that an `Option` stands for: `Some(v)` is `Present(v)` and
/// `None` is `Null`.
pub open spec fn nullable_of<T>(o: Option<T>) -> Nullable<T> {
    match o {
        Some(v) => Nullable::Present(v),
        None => Nullable::Null,
    }
}

/// What a field declared `Option<Nullable<T>>` holds, given what a document
/// has under its key: `None` where the key is absent, `Some(None)` where it
/// holds the null token, and `Some(Some(v))` where it holds a value that `T`
/// decodes to `v`.
pub open spec fn field_of<T>(entry: Option<Option<T>>) -> Option<Nullable<T>> {
    match entry {
        None => None,
        Some(token) => Some(nullable_of(token)),
    }
}

/// A field value that is either present with a value or explicitly null.
///
/// Absence of a field is not a state of this type: it is the empty state of an
/// `Option` that holds it, so `Option<Nullable<T>>` tells apart an absent key, an
/// explicit null and an explicit value.
#[derive(Debug, Clone, PartialEq, Eq)]
pub enum Nullable<T> {
    Present(T),
    Null,
}

impl<T> Nullable<T> {
    /// Returns the inner value. Calling it on `Null` is a programming error:
    /// callers first establish that the value is present.
    pub fn unwrap(self) -> (r: T)
        requires
            self is Present,
        ensures
            self == Nullable::Present(r),
    {
        match self {
            Nullable::Present(data) => data,
            Nullable::Null => vstd::pervasive::unreached(),
        }
    }

    /// True exactly when the value is `Null`.
    pub fn is_null(&self) -> (r: bool)
        ensures
            r == (*self is Null),
    {
        match self {
            Nullable::Present(_) => false,
            Nullable::Null => true,
        }
    }

    /// Applies `map` to the inner value of `Present`, and leaves `Null` as it is
    /// without calling `map`.
    pub fn map<U, F: FnOnce(T) -> U>(self, map: F) -> (r: Nullable<U>)
        requires
            self matches Nullable::Present(v) ==> map.requires((v,)),
        ensures
            self is Null ==> r is Null,
            self matches Nullable::Present(v) ==> (r matches Nullable::Present(u)
                && map.ensures((v,), u)),
    {
        match self {
            Nullable::Present(d) => Nullable::Present(map(d)),
            Nullable::Null => Nullable::Null,
        }
    }
}

impl<T> Default for Nullable<T> {
    /// The default is `Null`, not an absent field.
    fn default() -> (r: Self)
        ensures
            r is Null,
    {
        Nullable::Null
    }
}

/// Turns `Present(v)` into `Some(v)` and `Null` into `None`; this also gives
/// `Nullable<T>: Into<Option<T>>`. An absent field and an explicit null both
/// come out as `None`.
impl<T> From<Nullable<T>> for Option<T> {
    fn from(data: Nullable<T>) -> (r: Self)
        ensures
            r == option_of(data),
    {
        match data {
            Nullable::Present(data) => Some(data),
            Nullable::Null => None,
        }
    }
}

impl<T> vstd::std_specs::convert::FromSpecImpl<Nullable<T>> for Option<T> {
    open spec fn obeys_from_spec() -> bool {
        true
    }

    open spec fn from_spec(v: Nullable<T>) -> Self {
        option_of(v)
    }
}

impl<T> From<Option<T>> for Nullable<T> {
    fn from(data: Option<T>) -> (r: Self)
        ensures
            r == nullable_of(data),
    {
        match data {
            None => Nullable::Null,
            Some(data) => Nullable::Present(data),
        }
    }
}

impl<T> vstd::std_specs::convert::FromSpecImpl<Option<T>> for Nullable<T> {
    open spec fn obeys_from_spec() -> bool {
        true
    }

    open spec fn from_spec(v: Option<T>) -> Self {
        nullable_of(v)
    }
}

/// Decodes the value found under a key that is present: the null token
/// (`None`) gives `Null`, a value that `T` decoded gives `Present`. The result
/// is always `Some`; only an absent key leaves a field `None`.
pub fn present_field<T>(token: Option<T>) -> (r: Option<Nullable<T>>)
    ensures
        r == Some(nullable_of(token)),
{
    Some(Nullable::from(token))
}

/// Decodes a field declared `Option<Nullable<T>>` from what the document has
/// under its key (see `field_of`).
pub fn decode_field<T>(entry: Option<Option<T>>) -> (r: Option<Nullable<T>>)
    ensures
        r == field_of(entry),
{
    match entry {
        None => None,
        Some(token) => present_field(token),
    }
}

/// Going to the token form and back keeps every value: a `Nullable` turned
/// into its `Option` (`Present(v)` to `Some(v)`, `Null` to the null token
/// `None`) and decoded again is the `Nullable` it was, also as the value of a
/// field whose key is present; and the same holds the other way round.
pub proof fn lemma_token_round_trip<T>(n: Nullable<T>, o: Option<T>)
    ensures
        nullable_of(option_of(n)) == n,
        field_of(Some(option_of(n))) == Some(n),
        option_of(nullable_of(o)) == o,
{
}

/// A field declared `Option<Nullable<T>>` keeps three states apart: an absent
/// key gives `None`, a key holding the null token gives `Some(Null)`, and a key
/// holding a value `v` gives `Some(Present(v))`.
pub proof fn lemma_three_field_states<T>(v: T)
    ensures
        field_of::<T>(None) == None::<Nullable<T>>,
        field_of::<T>(Some(None)) == Some(Nullable::<T>::Null),
        field_of(Some(Some(v))) == Some(Nullable::Present(v)),
        field_of::<T>(None) != field_of::<T>(Some(None)),
        field_of::<T>(Some(None)) != field_of(Some(Some(v))),
{
}

} // verus!
