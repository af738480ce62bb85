//! Tags as pairs of a category and a value.
use crate::text::same;
use vstd::prelude::*;

verus! {

/// A tag, as contracts see it: its category and its value.
pub type TagPair = (Seq<char>, Seq<char>);

/// Common read access to the category and the value of a tag.
pub trait AsTagPair {
    /// The category of the tag.
    spec fn category_text(&self) -> Seq<char>;

    /// The value of the tag.
    spec fn value_text(&self) -> Seq<char>;

    fn category(&self) -> (r: &str)
        ensures
            r@ == self.category_text(),
    ;

    fn value(&self) -> (r: &str)
        ensures
            r@ == self.value_text(),
    ;
}

/// A tag as a pair.
pub open spec fn pair<T: AsTagPair>(tag: T) -> TagPair {
    (tag.category_text(), tag.value_text())
}

/// Tags as pairs, in order.
pub open spec fn pairs<T: AsTagPair>(tags: Seq<T>) -> Seq<TagPair> {
    tags.map_values(|t: T| pair(t))
}

/// The value of the first tag of a category.
pub open spec fn first_value(tags: Seq<TagPair>, category: Seq<char>) -> Option<Seq<char>>
    decreases tags.len(),
{
    if tags.len() == 0 {
        None
    } else if tags[0].0 == category {
        Some(tags[0].1)
    } else {
        first_value(tags.drop_first(), category)
    }
}

/// The first tag of a category is found by walking past the others.
pub proof fn lemma_first_value(tags: Seq<TagPair>, category: Seq<char>, i: int)
    requires
        0 <= i <= tags.len(),
        forall|j: int| 0 <= j < i ==> (#[trigger] tags[j]).0 != category,
        i < tags.len() ==> tags[i].0 == category,
    ensures
        first_value(tags, category) == (if i < tags.len() {
            Some(tags[i].1)
        } else {
            None
        }),
    decreases i,
{
    if i > 0 {
        let rest = tags.drop_first();
        assert(tags[0].0 != category);
        assert forall|j: int| 0 <= j < i - 1 implies (#[trigger] rest[j]).0 != category by {
            assert(rest[j] == tags[j + 1]);
        }
        lemma_first_value(rest, category, i - 1);
    }
}

/// The value of the first tag of a category.
pub fn first_tag<'a, T: AsTagPair>(tags: &'a [T], category: &str) -> (r: Option<&'a str>)
    ensures
        r.deep_view() == first_value(pairs(tags@), category@),
{
    let mut i: usize = 0;
    while i < tags.len() && !same(tags[i].category(), category)
        invariant
            i <= tags.len(),
            forall|j: int| 0 <= j < i ==> (#[trigger] pairs(tags@)[j]).0 != category@,
        decreases tags.len() - i,
    {
        i = i + 1;
    }
    proof {
        lemma_first_value(pairs(tags@), category@, i as int);
    }
    if i < tags.len() {
        Some(tags[i].value())
    } else {
        None
    }
}

/// Whether a tag of the given category and value is among the tags.
pub fn has_tag<T: AsTagPair>(tags: &[T], category: &str, value: &str) -> (r: bool)
    ensures
        r == pairs(tags@).contains((category@, value@)),
{
    let mut i: usize = 0;
    while i < tags.len()
        invariant
            i <= tags.len(),
            forall|j: int| 0 <= j < i ==> #[trigger] pairs(tags@)[j] != (category@, value@),
        decreases tags.len() - i,
    {
        if same(tags[i].category(), category) && same(tags[i].value(), value) {
            assert(pairs(tags@)[i as int] == (category@, value@));
            return true;
        }
        i = i + 1;
    }
    false
}

} // verus!
