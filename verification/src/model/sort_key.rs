use vstd::prelude::*;
use vstd::std_specs::cmp::PartialEqSpecImpl;
use vstd::std_specs::convert::TryFromSpecImpl;

verus! {

/// Orders the items within a partition. Never empty when built through `try_from`.
#[derive(Debug, Eq, PartialOrd, Ord, Hash)]
pub struct SortKey(pub String);

/// The input was not a valid sort key.
#[derive(Debug)]
pub struct InvalidSortKey;

impl View for SortKey {
    type V = Seq<char>;

    open spec fn view(&self) -> Seq<char> {
        self.0@
    }
}

impl SortKey {
    /// A key is valid when its text is not empty.
    pub open spec fn valid(&self) -> bool {
        self@.len() > 0
    }
}

/// The order of sort keys: text is compared character by character, each
/// character by its code point, and a proper prefix comes before every text
/// that extends it.
pub open spec fn text_lt(a: Seq<char>, b: Seq<char>) -> bool
    decreases a.len(),
{
    if b.len() == 0 {
        false
    } else if a.len() == 0 {
        true
    } else if a[0] != b[0] {
        (a[0] as int) < (b[0] as int)
    } else {
        text_lt(a.drop_first(), b.drop_first())
    }
}

/// `a` comes before `b` or is `b`.
pub open spec fn text_le(a: Seq<char>, b: Seq<char>) -> bool {
    a == b || text_lt(a, b)
}

/// No text comes before itself.
pub proof fn lemma_text_lt_irreflexive(a: Seq<char>)
    ensures
        !text_lt(a, a),
    decreases a.len(),
{
    if a.len() > 0 {
        lemma_text_lt_irreflexive(a.drop_first());
    }
}

/// The order is transitive.
pub proof fn lemma_text_lt_transitive(a: Seq<char>, b: Seq<char>, c: Seq<char>)
    requires
        text_lt(a, b),
        text_lt(b, c),
    ensures
        text_lt(a, c),
    decreases a.len(),
{
    if a.len() > 0 && a[0] == b[0] && b[0] == c[0] {
        lemma_text_lt_transitive(a.drop_first(), b.drop_first(), c.drop_first());
    }
}

/// Of two texts exactly one holds: the first comes before the second, they
/// are the same text, or the second comes before the first.
pub proof fn lemma_text_lt_total(a: Seq<char>, b: Seq<char>)
    ensures
        text_lt(a, b) || a == b || text_lt(b, a),
        !(text_lt(a, b) && text_lt(b, a)),
        !(text_lt(a, b) && a == b),
    decreases a.len(),
{
    lemma_text_lt_irreflexive(a);
    if a.len() > 0 && b.len() > 0 {
        if a[0] == b[0] {
            lemma_text_lt_total(a.drop_first(), b.drop_first());
            if a.drop_first() == b.drop_first() {
                assert(a =~= seq![a[0]] + a.drop_first());
                assert(b =~= seq![b[0]] + b.drop_first());
            }
        }
    } else if a.len() == 0 && b.len() == 0 {
        assert(a =~= b);
    }
}

impl Clone for SortKey {
    fn clone(&self) -> (r: Self)
        ensures
            r == *self,
    {
        SortKey(self.0.clone())
    }
}

impl PartialEq for SortKey {
    fn eq(&self, other: &Self) -> (r: bool) {
        self.0 == other.0
    }
}

impl PartialEqSpecImpl for SortKey {
    open spec fn obeys_eq_spec() -> bool {
        true
    }

    open spec fn eq_spec(&self, other: &Self) -> bool {
        self@ == other@
    }
}

impl<'a> TryFrom<&'a str> for SortKey {
    type Error = InvalidSortKey;

    /// Rejects the empty text and keeps every other text as it is.
    fn try_from(value: &'a str) -> (r: Result<Self, Self::Error>)
        ensures
            r is Err <==> value@.len() == 0,
            r is Ok ==> r->Ok_0@ == value@ && r->Ok_0.valid(),
    {
        if value.is_empty() {
            Err(InvalidSortKey)
        } else {
            Ok(SortKey(value.to_string()))
        }
    }
}

impl<'a> TryFromSpecImpl<&'a str> for SortKey {
    /// The result owns a fresh `String`, so it is described by its view in
    /// the `ensures` of `try_from` and not by a value here.
    open spec fn obeys_try_from_spec() -> bool {
        false
    }

    open spec fn try_from_spec(value: &'a str) -> Result<Self, InvalidSortKey> {
        Err(InvalidSortKey)
    }
}

impl TryFrom<String> for SortKey {
    type Error = InvalidSortKey;

    /// Rejects the empty text and wraps every other text unchanged.
    fn try_from(value: String) -> (r: Result<Self, Self::Error>)
        ensures
            r is Err <==> value@.len() == 0,
            r is Ok ==> r->Ok_0.0 == value && r->Ok_0.valid(),
    {
        if value.as_str().is_empty() {
            Err(InvalidSortKey)
        } else {
            Ok(SortKey(value))
        }
    }
}

impl TryFromSpecImpl<String> for SortKey {
    open spec fn obeys_try_from_spec() -> bool {
        true
    }

    open spec fn try_from_spec(value: String) -> Result<Self, InvalidSortKey> {
        if value@.len() == 0 {
            Err(InvalidSortKey)
        } else {
            Ok(SortKey(value))
        }
    }
}

} // verus!
