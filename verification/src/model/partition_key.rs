use vstd::prelude::*;
use vstd::std_specs::cmp::PartialEqSpecImpl;
use vstd::std_specs::convert::TryFromSpecImpl;

verus! {

/// Identifies a group of items. Never empty when built through `try_from`.
#[derive(Debug, Eq, PartialOrd, Ord, Hash)]
pub struct PartitionKey(pub String);

/// The input was not a valid partition key.
#[derive(Debug)]
pub struct InvalidPartitionKey;

impl View for PartitionKey {
    type V = Seq<char>;

    open spec fn view(&self) -> Seq<char> {
        self.0@
    }
}

impl PartitionKey {
    /// A key is valid when its text is not empty.
    pub open spec fn valid(&self) -> bool {
        self@.len() > 0
    }
}

impl Clone for PartitionKey {
    fn clone(&self) -> (r: Self)
        ensures
            r == *self,
    {
        PartitionKey(self.0.clone())
    }
}

impl PartialEq for PartitionKey {
    fn eq(&self, other: &Self) -> (r: bool) {
        self.0 == other.0
    }
}

impl PartialEqSpecImpl for PartitionKey {
    open spec fn obeys_eq_spec() -> bool {
        true
    }

    open spec fn eq_spec(&self, other: &Self) -> bool {
        self@ == other@
    }
}

impl<'a> TryFrom<&'a str> for PartitionKey {
    type Error = InvalidPartitionKey;

    /// Rejects the empty text and keeps every other text as it is.
    fn try_from(value: &'a str) -> (r: Result<Self, Self::Error>)
        ensures
            r is Err <==> value@.len() == 0,
            r is Ok ==> r->Ok_0@ == value@ && r->Ok_0.valid(),
    {
        if value.is_empty() {
            Err(InvalidPartitionKey)
        } else {
            Ok(PartitionKey(value.to_string()))
        }
    }
}

impl<'a> TryFromSpecImpl<&'a str> for PartitionKey {
    /// The result owns a fresh `String`, so it is described by its view in
    /// the `ensures` of `try_from` and not by a value here.
    open spec fn obeys_try_from_spec() -> bool {
        false
    }

    open spec fn try_from_spec(value: &'a str) -> Result<Self, InvalidPartitionKey> {
        Err(InvalidPartitionKey)
    }
}

impl TryFrom<String> for PartitionKey {
    type Error = InvalidPartitionKey;

    /// Rejects the empty text and wraps every other text unchanged.
    fn try_from(value: String) -> (r: Result<Self, Self::Error>)
        ensures
            r is Err <==> value@.len() == 0,
            r is Ok ==> r->Ok_0.0 == value && r->Ok_0.valid(),
    {
        if value.as_str().is_empty() {
            Err(InvalidPartitionKey)
        } else {
            Ok(PartitionKey(value))
        }
    }
}

impl TryFromSpecImpl<String> for PartitionKey {
    open spec fn obeys_try_from_spec() -> bool {
        true
    }

    open spec fn try_from_spec(value: String) -> Result<Self, InvalidPartitionKey> {
        if value@.len() == 0 {
            Err(InvalidPartitionKey)
        } else {
            Ok(PartitionKey(value))
        }
    }
}

} // verus!
