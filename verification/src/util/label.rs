//! Labelled values: a payload paired with the key its configuration is read
//! from, and a first-match lookup of a labelled item inside a sequence.

use vstd::prelude::*;
use vstd::string::StrSliceExecFns;

verus! {

/// A payload `inner` paired with a label `L`. The type enforces no
/// uniqueness of labels; when labels double as configuration keys, keeping
/// them unique within a collection is the caller's invariant.
pub struct Labelled<L, T> {
    pub label: L,
    pub inner: T,
}

/// Lets any value be wrapped with a label.
pub trait IntoLabelled: Sized {
    /// Wrap `self` with `label`, taking ownership of both.
    fn labelled<L>(self, label: L) -> (r: Labelled<L, Self>)
        ensures
            r.label == label,
            r.inner == self,
    ;
}

impl<T> IntoLabelled for T {
    fn labelled<L>(self, label: L) -> (r: Labelled<L, T>) {
        Labelled { label, inner: self }
    }
}

impl<L, T> Labelled<L, T> {
    /// Discard the old label and pair the same payload with `new_label`.
    pub fn with_label<NewLabel>(self, new_label: NewLabel) -> (r: Labelled<NewLabel, T>)
        ensures
            r.label == new_label,
            r.inner == self.inner,
    {
        Labelled { label: new_label, inner: self.inner }
    }
}

/// Label equality: a candidate label of type `Self` can be compared against
/// a stored label of type `Rhs`, with `eq_label_spec` saying exactly when the
/// two are equal.
pub trait LabelEq<Rhs> {
    /// When the two labels are equal.
    spec fn eq_label_spec(&self, other: &Rhs) -> bool;

    /// Compare the two labels.
    fn eq_label(&self, other: &Rhs) -> (r: bool)
        ensures
            r == self.eq_label_spec(other),
    ;
}

/// Character-for-character comparison of two string slices.
pub(crate) fn str_chars_eq(a: &str, b: &str) -> (r: bool)
    ensures
        r == (a@ == b@),
{
    let a_len = a.unicode_len();
    let b_len = b.unicode_len();
    if a_len != b_len {
        return false;
    }
    let mut i: usize = 0;
    while i < a_len
        invariant
            0 <= i <= a_len,
            a_len == a@.len(),
            a_len == b@.len(),
            forall|j: int| 0 <= j < i ==> a@[j] == b@[j],
        decreases a_len - i,
    {
        if a.get_char(i) != b.get_char(i) {
            return false;
        }
        i = i + 1;
    }
    proof {
        assert(a@ =~= b@);
    }
    true
}

impl<'a, 'b> LabelEq<&'b str> for &'a str {
    open spec fn eq_label_spec(&self, other: &&'b str) -> bool {
        self@ == other@
    }

    fn eq_label(&self, other: &&'b str) -> (r: bool) {
        str_chars_eq(*self, *other)
    }
}

impl LabelEq<String> for String {
    open spec fn eq_label_spec(&self, other: &String) -> bool {
        self@ == other@
    }

    fn eq_label(&self, other: &String) -> (r: bool) {
        str_chars_eq(self.as_str(), other.as_str())
    }
}

/// The index of the first item of `items` whose label equals `label`, if any.
pub open spec fn find_label_spec<L1, L2, T>(items: Seq<Labelled<L2, T>>, label: L1) -> Option<int>
    where L1: LabelEq<L2>
    decreases items.len(),
{
    if items.len() == 0 {
        None
    } else if label.eq_label_spec(&items[0].label) {
        Some(0)
    } else {
        match find_label_spec::<L1, L2, T>(items.drop_first(), label) {
            Some(i) => Some(i + 1),
            None => None,
        }
    }
}

/// `find_label_spec` returns the first matching index: the item there
/// matches, no earlier item does, and `None` means nothing matches at all.
pub proof fn lemma_find_label_spec_first_match<L1, L2, T>(items: Seq<Labelled<L2, T>>, label: L1)
    where L1: LabelEq<L2>
    ensures
        match find_label_spec::<L1, L2, T>(items, label) {
            Some(i) => 0 <= i < items.len() && label.eq_label_spec(&items[i].label)
                && (forall|j: int| 0 <= j < i ==> !label.eq_label_spec(&(#[trigger] items[j]).label)),
            None => forall|j: int| 0 <= j < items.len()
                ==> !label.eq_label_spec(&(#[trigger] items[j]).label),
        },
    decreases items.len(),
{
    if items.len() == 0 {
    } else if label.eq_label_spec(&items[0].label) {
    } else {
        let rest = items.drop_first();
        lemma_find_label_spec_first_match::<L1, L2, T>(rest, label);
        assert(forall|j: int| 0 <= j < rest.len() ==> #[trigger] rest[j] == items[j + 1]);
        match find_label_spec::<L1, L2, T>(rest, label) {
            Some(i) => {
                assert(rest[i] == items[i + 1]);
                assert forall|j: int| 0 <= j < i + 1 implies !label.eq_label_spec(
                    &(#[trigger] items[j]).label,
                ) by {
                    if j > 0 {
                        assert(rest[j - 1] == items[j]);
                    }
                }
            },
            None => {
                assert forall|j: int| 0 <= j < items.len() implies !label.eq_label_spec(
                    &(#[trigger] items[j]).label,
                ) by {
                    if j > 0 {
                        assert(rest[j - 1] == items[j]);
                    }
                }
            },
        }
    }
}

/// A linear, first-match lookup of a labelled item inside a collection,
/// generic over how the collection stores its items. `labelled_items` is the
/// sequence of items the collection holds, in order.
pub trait FindByLabel<L1, L2, T> where L1: LabelEq<L2> {
    /// The labelled items the collection holds, in order.
    spec fn labelled_items(&self) -> Seq<Labelled<L2, T>>;

    /// The first item whose label equals `label`, or nothing if none
    /// matches. The collection and the matched item are never changed.
    fn find_by_label(&self, label: L1) -> (r: Option<&Labelled<L2, T>>)
        ensures
            match find_label_spec::<L1, L2, T>(self.labelled_items(), label) {
                Some(i) => r matches Some(item) && *item == self.labelled_items()[i],
                None => r is None,
            },
    ;
}

impl<L1, L2, T> FindByLabel<L1, L2, T> for Vec<Labelled<L2, T>> where L1: LabelEq<L2> {
    open spec fn labelled_items(&self) -> Seq<Labelled<L2, T>> {
        self@
    }

    fn find_by_label(&self, label: L1) -> (r: Option<&Labelled<L2, T>>) {
        let mut i: usize = 0;
        while i < self.len()
            invariant
                0 <= i <= self@.len(),
                forall|j: int| 0 <= j < i ==> !label.eq_label_spec(&(#[trigger] self@[j]).label),
            decreases self@.len() - i,
        {
            if label.eq_label(&self[i].label) {
                proof {
                    lemma_find_label_spec_first_match::<L1, L2, T>(self@, label);
                }
                return Some(&self[i]);
            }
            i = i + 1;
        }
        proof {
            lemma_find_label_spec_first_match::<L1, L2, T>(self@, label);
        }
        None
    }
}

impl<'x, L1, L2, T> FindByLabel<L1, L2, T> for Vec<&'x Labelled<L2, T>> where L1: LabelEq<L2> {
    open spec fn labelled_items(&self) -> Seq<Labelled<L2, T>> {
        Seq::new(self@.len(), |i: int| *self@[i])
    }

    fn find_by_label(&self, label: L1) -> (r: Option<&Labelled<L2, T>>) {
        let mut i: usize = 0;
        while i < self.len()
            invariant
                0 <= i <= self@.len(),
                forall|j: int| 0 <= j < i
                    ==> !label.eq_label_spec(
                        &(#[trigger] <Vec<&'x Labelled<L2, T>> as FindByLabel<L1, L2, T>>::labelled_items(self)[j]).label,
                    ),
            decreases self@.len() - i,
        {
            let item: &Labelled<L2, T> = self[i];
            if label.eq_label(&item.label) {
                proof {
                    let items = <Vec<&'x Labelled<L2, T>> as FindByLabel<L1, L2, T>>::labelled_items(
                        self,
                    );
                    assert(item == self@[i as int]);
                    assert(items[i as int] == *self@[i as int]);
                    lemma_find_label_spec_first_match::<L1, L2, T>(items, label);
                    assert(find_label_spec::<L1, L2, T>(items, label) == Some(i as int));
                }
                return Some(item);
            }
            i = i + 1;
        }
        proof {
            lemma_find_label_spec_first_match::<L1, L2, T>(
                <Vec<&'x Labelled<L2, T>> as FindByLabel<L1, L2, T>>::labelled_items(self),
                label,
            );
        }
        None
    }
}

impl<L1, L2, T> FindByLabel<L1, L2, T> for Vec<Box<Labelled<L2, T>>> where L1: LabelEq<L2> {
    open spec fn labelled_items(&self) -> Seq<Labelled<L2, T>> {
        Seq::new(self@.len(), |i: int| *self@[i])
    }

    fn find_by_label(&self, label: L1) -> (r: Option<&Labelled<L2, T>>) {
        let mut i: usize = 0;
        while i < self.len()
            invariant
                0 <= i <= self@.len(),
                forall|j: int| 0 <= j < i
                    ==> !label.eq_label_spec(
                        &(#[trigger] <Vec<Box<Labelled<L2, T>>> as FindByLabel<L1, L2, T>>::labelled_items(self)[j]).label,
                    ),
            decreases self@.len() - i,
        {
            let item: &Labelled<L2, T> = &self[i];
            if label.eq_label(&item.label) {
                proof {
                    let items = <Vec<Box<Labelled<L2, T>>> as FindByLabel<L1, L2, T>>::labelled_items(
                        self,
                    );
                    assert(items[i as int] == *self@[i as int]);
                    lemma_find_label_spec_first_match::<L1, L2, T>(items, label);
                    assert(find_label_spec::<L1, L2, T>(items, label) == Some(i as int));
                }
                return Some(item);
            }
            i = i + 1;
        }
        proof {
            lemma_find_label_spec_first_match::<L1, L2, T>(
                <Vec<Box<Labelled<L2, T>>> as FindByLabel<L1, L2, T>>::labelled_items(self),
                label,
            );
        }
        None
    }
}

impl<L1, L2, T> FindByLabel<L1, L2, T> for Vec<std::sync::Arc<Labelled<L2, T>>> where
    L1: LabelEq<L2>,
 {
    open spec fn labelled_items(&self) -> Seq<Labelled<L2, T>> {
        Seq::new(self@.len(), |i: int| *self@[i])
    }

    fn find_by_label(&self, label: L1) -> (r: Option<&Labelled<L2, T>>) {
        let mut i: usize = 0;
        while i < self.len()
            invariant
                0 <= i <= self@.len(),
                forall|j: int| 0 <= j < i
                    ==> !label.eq_label_spec(
                        &(#[trigger] <Vec<std::sync::Arc<Labelled<L2, T>>> as FindByLabel<L1, L2, T>>::labelled_items(self)[j]).label,
                    ),
            decreases self@.len() - i,
        {
            let item: &Labelled<L2, T> = &self[i];
            if label.eq_label(&item.label) {
                proof {
                    let items = <Vec<std::sync::Arc<Labelled<L2, T>>> as FindByLabel<
                        L1,
                        L2,
                        T,
                    >>::labelled_items(self);
                    assert(items[i as int] == *self@[i as int]);
                    lemma_find_label_spec_first_match::<L1, L2, T>(items, label);
                    assert(find_label_spec::<L1, L2, T>(items, label) == Some(i as int));
                }
                return Some(item);
            }
            i = i + 1;
        }
        proof {
            lemma_find_label_spec_first_match::<L1, L2, T>(
                <Vec<std::sync::Arc<Labelled<L2, T>>> as FindByLabel<L1, L2, T>>::labelled_items(
                    self,
                ),
                label,
            );
        }
        None
    }
}

/// Label round-trip: a single wrapped value, looked up by a label equal to
/// its own, is found at once, and what is found carries the wrapped payload.
pub proof fn lemma_find_single_round_trip<L1, L2, T>(label: L1, item: Labelled<L2, T>)
    where L1: LabelEq<L2>
    requires
        label.eq_label_spec(&item.label),
    ensures
        find_label_spec::<L1, L2, T>(seq![item], label) == Some(0int),
{
}

/// First-match tie-break: of two items whose labels both equal the query,
/// the lookup designates the first, never the second.
pub proof fn lemma_find_first_wins<L1, L2, T>(
    label: L1,
    first: Labelled<L2, T>,
    second: Labelled<L2, T>,
)
    where L1: LabelEq<L2>
    requires
        label.eq_label_spec(&first.label),
    ensures
        find_label_spec::<L1, L2, T>(seq![first, second], label) == Some(0int),
{
}

} // verus!
