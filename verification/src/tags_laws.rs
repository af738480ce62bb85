//! What holds of every list of tags.
use crate::pdt::types::{CreateTagRequest, PdtTag, PdtTagSummary};
use crate::tags::{self, TagPair};
use vstd::prelude::*;

verus! {

/// The tag at a position is the first of its category, and has the given value.
pub open spec fn is_first(tags: Seq<TagPair>, i: int, category: Seq<char>, value: Seq<char>) -> bool {
    &&& 0 <= i < tags.len()
    &&& tags[i] == (category, value)
    &&& forall|j: int| 0 <= j < i ==> (#[trigger] tags[j]).0 != category
}

/// The value of a category is that of the first tag of the category, and there is
/// none exactly where there is no such tag.
pub proof fn law_first_tag_counts(tags: Seq<TagPair>, category: Seq<char>, value: Seq<char>)
    ensures
        tags::first_value(tags, category) == Some(value) <==> exists|i: int| #[trigger]
            is_first(tags, i, category, value),
        tags::first_value(tags, category) is None <==> forall|i: int|
            0 <= i < tags.len() ==> (#[trigger] tags[i]).0 != category,
{
    if exists|i: int| #[trigger] is_first(tags, i, category, value) {
        let i = choose|i: int| #[trigger] is_first(tags, i, category, value);
        tags::lemma_first_value(tags, category, i);
    }
    let n = lemma_first_of(tags, category);
    tags::lemma_first_value(tags, category, n);
    if tags::first_value(tags, category) == Some(value) {
        assert(is_first(tags, n, category, value));
    }
}

proof fn lemma_first_of(tags: Seq<TagPair>, category: Seq<char>) -> (n: int)
    ensures
        0 <= n <= tags.len(),
        forall|j: int| 0 <= j < n ==> (#[trigger] tags[j]).0 != category,
        n < tags.len() ==> tags[n].0 == category,
    decreases tags.len(),
{
    if tags.len() == 0 {
        0
    } else {
        let init = tags.drop_last();
        let n = lemma_first_of(init, category);
        assert forall|j: int| 0 <= j < init.len() implies init[j] == #[trigger] tags[j] by {}
        if n < init.len() || tags.last().0 == category {
            n
        } else {
            n + 1
        }
    }
}

/// Tags are pairs of their own category and value, in order.
pub proof fn law_tags_are_their_pairs(
    stored: Seq<PdtTag>,
    found: Seq<PdtTagSummary>,
    new: Seq<CreateTagRequest>,
    i: int,
)
    ensures
        tags::pairs(stored).len() == stored.len(),
        tags::pairs(found).len() == found.len(),
        tags::pairs(new).len() == new.len(),
        0 <= i < stored.len() ==> tags::pairs(stored)[i] == (
            stored[i].category@,
            stored[i].value@,
        ),
        0 <= i < found.len() ==> tags::pairs(found)[i] == (found[i].category@, found[i].value@),
        0 <= i < new.len() ==> tags::pairs(new)[i] == (new[i].category@, new[i].value@),
{
}

/// The value of a category among stored tags is that of the first one, and a tag is
/// among them exactly where one has its category and value.
pub proof fn law_stored_tags_are_found(
    list: &[PdtTag],
    category: &str,
    value: &str,
    first: Option<&str>,
    there: bool,
    i: int,
)
    requires
        call_ensures(tags::first_tag::<PdtTag>, (list, category), first),
        call_ensures(tags::has_tag::<PdtTag>, (list, category, value), there),
    ensures
        0 <= i < list@.len() && list@[i].category@ == category@ && (forall|j: int|
            0 <= j < i ==> (#[trigger] list@[j]).category@ != category@) ==> first is Some
            && first->0@ == list@[i].value@,
        (forall|j: int| 0 <= j < list@.len() ==> (#[trigger] list@[j]).category@ != category@)
            ==> first is None,
        there <==> exists|j: int|
            0 <= j < list@.len() && (#[trigger] list@[j]).category@ == category@ && list@[j].value@
                == value@,
{
    let p = tags::pairs(list@);
    assert forall|j: int| 0 <= j < p.len() implies #[trigger] p[j] == (
        list@[j].category@,
        list@[j].value@,
    ) by {}
    law_first_tag_counts(p, category@, p[i].1);
    if 0 <= i < list@.len() && list@[i].category@ == category@ && (forall|j: int|
        0 <= j < i ==> (#[trigger] list@[j]).category@ != category@) {
        assert(is_first(p, i, category@, p[i].1));
    }
    if there {
        let j = choose|j: int| 0 <= j < p.len() && p[j] == (category@, value@);
        assert(list@[j].category@ == category@);
    }
    if exists|j: int|
        0 <= j < list@.len() && (#[trigger] list@[j]).category@ == category@ && list@[j].value@
            == value@ {
        let j = choose|j: int|
            0 <= j < list@.len() && (#[trigger] list@[j]).category@ == category@ && list@[j].value@
                == value@;
        assert(p[j] == (category@, value@));
    }
}

} // verus!
