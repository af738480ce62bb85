//! What holds of every listing and every reading.
use crate::entity_config::{self, EntityConfig};
use crate::entity_handlers::listing::{self, ListEntitiesQuery};
use crate::entity_handlers::mapping;
use crate::json::{self, Members};
use crate::pdt::types::{PdtAsset, PdtRelation, PdtSearchResult};
use crate::tags;
use vstd::prelude::*;

verus! {

/// A text that is before another is before every third text, or the third is
/// before the other.
proof fn lemma_before_splits(a: Seq<char>, b: Seq<char>, c: Seq<char>)
    requires
        listing::before(a, c),
    ensures
        listing::before(a, b) || listing::before(b, c),
    decreases a.len(),
{
    if a.len() > 0 && b.len() > 0 && c.len() > 0 && a[0] == b[0] && b[0] == c[0] {
        lemma_before_splits(a.drop_first(), b.drop_first(), c.drop_first());
    }
}

/// Of two texts at most one is before the other.
proof fn lemma_before_one_way(a: Seq<char>, b: Seq<char>)
    requires
        listing::before(a, b),
    ensures
        !listing::before(b, a),
    decreases a.len(),
{
    if a.len() > 0 && b.len() > 0 && a[0] == b[0] {
        lemma_before_one_way(a.drop_first(), b.drop_first());
    }
}

/// Different texts are one before the other.
proof fn lemma_before_total(a: Seq<char>, b: Seq<char>)
    requires
        a != b,
    ensures
        listing::before(a, b) || listing::before(b, a),
    decreases a.len(),
{
    if a.len() > 0 && b.len() > 0 && a[0] == b[0] {
        if a.drop_first() == b.drop_first() {
            assert(a =~= seq![a[0]] + a.drop_first());
            assert(b =~= seq![b[0]] + b.drop_first());
        } else {
            lemma_before_total(a.drop_first(), b.drop_first());
        }
    } else if a.len() == 0 && b.len() == 0 {
        assert(a =~= b);
    }
}

/// The order of texts is a strict total order: no text is before itself, of two
/// different texts exactly one is before the other, and the order is transitive.
pub proof fn law_texts_are_ordered(a: Seq<char>, b: Seq<char>, c: Seq<char>)
    ensures
        !listing::before(a, a),
        a != b ==> listing::before(a, b) != listing::before(b, a),
        listing::before(a, b) && listing::before(b, c) ==> listing::before(a, c),
{
    if listing::before(a, a) {
        lemma_before_one_way(a, a);
    }
    if a != b {
        lemma_before_total(a, b);
        if listing::before(a, b) {
            lemma_before_one_way(a, b);
        }
    }
    if listing::before(a, b) && listing::before(b, c) {
        lemma_before_splits(a, c, b);
        if listing::before(c, b) {
            lemma_before_one_way(b, c);
        }
    }
}

/// No entity is followed by a later one.
pub open spec fn is_sorted(s: Seq<Members>) -> bool {
    forall|i: int, j: int|
        0 <= i < j < s.len() ==> !listing::before(
            listing::time_of(#[trigger] s[i]),
            listing::time_of(#[trigger] s[j]),
        )
}

/// The entities of one time.
pub open spec fn of_time(s: Seq<Members>, time: Seq<char>) -> Seq<Members> {
    s.filter(|m: Members| listing::time_of(m) == time)
}

proof fn lemma_slot(sorted: Seq<Members>, time: Seq<char>)
    ensures
        0 <= listing::slot(sorted, time) <= sorted.len(),
        forall|k: int|
            listing::slot(sorted, time) <= k < sorted.len() ==> listing::before(
                listing::time_of(#[trigger] sorted[k]),
                time,
            ),
        listing::slot(sorted, time) > 0 ==> !listing::before(
            listing::time_of(sorted[listing::slot(sorted, time) - 1]),
            time,
        ),
    decreases sorted.len(),
{
    if sorted.len() > 0 && listing::before(listing::time_of(sorted.last()), time) {
        let init = sorted.drop_last();
        lemma_slot(init, time);
        let p = listing::slot(sorted, time);
        assert forall|k: int| p <= k < sorted.len() implies listing::before(
            listing::time_of(#[trigger] sorted[k]),
            time,
        ) by {
            if k < init.len() {
                assert(init[k] == sorted[k]);
            }
        }
        if p > 0 {
            assert(init[p - 1] == sorted[p - 1]);
        }
    }
}

/// A listing comes sorted: the entity of a later time first.
pub proof fn law_newest_first_is_sorted(s: Seq<Members>)
    ensures
        is_sorted(listing::newest_first(s)),
    decreases s.len(),
{
    if s.len() > 0 {
        let init = listing::newest_first(s.drop_last());
        let x = s.last();
        let time = listing::time_of(x);
        let p = listing::slot(init, time);
        law_newest_first_is_sorted(s.drop_last());
        lemma_slot(init, time);
        let all = init.insert(p, x);
        assert forall|i: int, j: int| 0 <= i < j < all.len() implies !listing::before(
            listing::time_of(#[trigger] all[i]),
            listing::time_of(#[trigger] all[j]),
        ) by {
            if j == p {
                assert(all[i] == init[i]);
                if listing::before(listing::time_of(init[i]), time) {
                    lemma_before_splits(
                        listing::time_of(init[i]),
                        listing::time_of(init[p - 1]),
                        time,
                    );
                    if i < p - 1 {
                        assert(!listing::before(
                            listing::time_of(init[i]),
                            listing::time_of(init[p - 1]),
                        ));
                    }
                }
            } else if i == p {
                assert(all[j] == init[j - 1]);
                lemma_before_one_way(listing::time_of(init[j - 1]), time);
            } else {
                let a = if i < p {
                    i
                } else {
                    i - 1
                };
                let b = if j < p {
                    j
                } else {
                    j - 1
                };
                assert(all[i] == init[a] && all[j] == init[b]);
            }
        }
    }
}

/// Sorting keeps the entities of one time, and their order.
pub proof fn law_newest_first_keeps_order(s: Seq<Members>, time: Seq<char>)
    ensures
        of_time(listing::newest_first(s), time) == of_time(s, time),
    decreases s.len(),
{
    if s.len() > 0 {
        let init = listing::newest_first(s.drop_last());
        let x = s.last();
        let p = listing::slot(init, listing::time_of(x));
        let pred = |m: Members| listing::time_of(m) == time;
        law_newest_first_keeps_order(s.drop_last(), time);
        lemma_slot(init, listing::time_of(x));
        let front = init.take(p);
        let back = init.skip(p);
        assert(init =~= front + back);
        assert(init.insert(p, x) =~= front.push(x) + back);
        Seq::filter_distributes_over_add(front, back, pred);
        Seq::filter_distributes_over_add(front.push(x), back, pred);
        assert(front.push(x).drop_last() =~= front);
        assert(s.drop_last().push(x) =~= s);
        reveal(Seq::filter);
        if listing::time_of(x) == time {
            assert forall|k: int| 0 <= k < back.len() implies !pred(#[trigger] back[k]) by {
                assert(back[k] == init[p + k]);
                if listing::time_of(init[p + k]) == time {
                    law_texts_are_ordered(time, time, time);
                }
            }
            lemma_filter_none(back, pred);
            assert(front.filter(pred).push(x) + Seq::<Members>::empty() =~= front.filter(pred).push(
                x,
            ));
            assert(front.filter(pred) + Seq::<Members>::empty() =~= front.filter(pred));
        }
    }
}

proof fn lemma_filter_none(s: Seq<Members>, pred: spec_fn(Members) -> bool)
    requires
        forall|k: int| 0 <= k < s.len() ==> !pred(#[trigger] s[k]),
    ensures
        s.filter(pred) == Seq::<Members>::empty(),
    decreases s.len(),
{
    reveal(Seq::filter);
    if s.len() > 0 {
        let init = s.drop_last();
        assert forall|k: int| 0 <= k < init.len() implies !pred(#[trigger] init[k]) by {
            assert(init[k] == s[k]);
        }
        lemma_filter_none(init, pred);
    }
}

/// Sorting neither loses an entity nor adds one.
pub proof fn law_newest_first_keeps_entities(s: Seq<Members>)
    ensures
        listing::newest_first(s).len() == s.len(),
        listing::newest_first(s).to_multiset() == s.to_multiset(),
    decreases s.len(),
{
    broadcast use vstd::seq_lib::group_to_multiset_ensures;

    if s.len() > 0 {
        let init = listing::newest_first(s.drop_last());
        let x = s.last();
        let p = listing::slot(init, listing::time_of(x));
        law_newest_first_keeps_entities(s.drop_last());
        lemma_slot(init, listing::time_of(x));
        assert(s.drop_last().push(x) =~= s);
        vstd::seq_lib::to_multiset_insert(init, p, x);
    }
}

/// What is listed is the entity of a search result that is of the kind, of the
/// instance, and not filtered out; and every such result is listed.
pub proof fn law_listing_is_exact(
    config: EntityConfig,
    instance: Option<Seq<char>>,
    query: ListEntitiesQuery,
    results: Seq<PdtSearchResult>,
    replies: Seq<Option<Vec<PdtRelation>>>,
    m: Members,
)
    ensures
        listing::listed(config, instance, query, results, replies).contains(m) <==> exists|i: int|
            #![trigger results[i]]
            0 <= i < results.len() && listing::is_listed(
                config,
                instance,
                query,
                results[i],
                mapping::reply(replies, i),
            ) && m == mapping::compact_entity_of(results[i], config),
    decreases results.len(),
{
    if results.len() > 0 {
        let init = results.drop_last();
        let last = results.last();
        let n = results.len() - 1;
        let before = listing::listed(config, instance, query, init, replies);
        let all = listing::listed(config, instance, query, results, replies);
        law_listing_is_exact(config, instance, query, init, replies, m);
        assert forall|i: int| 0 <= i < init.len() implies init[i] == #[trigger] results[i] by {}
        let here = listing::is_listed(config, instance, query, last, mapping::reply(replies, n));
        if all.contains(m) {
            let k = choose|k: int| 0 <= k < all.len() && all[k] == m;
            if k < before.len() {
                assert(before[k] == m);
                assert(before.contains(m));
                let i = choose|i: int|
                    #![trigger init[i]]
                    0 <= i < init.len() && listing::is_listed(
                        config,
                        instance,
                        query,
                        init[i],
                        mapping::reply(replies, i),
                    ) && m == mapping::compact_entity_of(init[i], config);
                assert(results[i] == init[i]);
            } else {
                assert(results[n] == last);
            }
        }
        if exists|i: int|
            #![trigger results[i]]
            0 <= i < results.len() && listing::is_listed(
                config,
                instance,
                query,
                results[i],
                mapping::reply(replies, i),
            ) && m == mapping::compact_entity_of(results[i], config) {
            let i = choose|i: int|
                #![trigger results[i]]
                0 <= i < results.len() && listing::is_listed(
                    config,
                    instance,
                    query,
                    results[i],
                    mapping::reply(replies, i),
                ) && m == mapping::compact_entity_of(results[i], config);
            if i < n {
                assert(init[i] == results[i]);
                assert(before.contains(m));
                let k = choose|k: int| 0 <= k < before.len() && before[k] == m;
                assert(all[k] == m);
            } else {
                assert(all[all.len() - 1] == m);
            }
        }
    }
}

/// Every filter of a listing counts, whatever the others are: what is listed has the
/// status that is asked for, goes out to the target that is asked for, and carries
/// every tag that is asked for.
pub proof fn law_every_filter_counts(
    config: EntityConfig,
    instance: Option<Seq<char>>,
    query: ListEntitiesQuery,
    result: PdtSearchResult,
    relations: Option<Seq<PdtRelation>>,
    i: int,
)
    requires
        listing::is_listed(config, instance, query, result, relations),
    ensures
        query.status matches Some(status) ==> json::text_member_of(
            mapping::compact_entity_of(result, config),
            "status"@,
        ) == Some(status@),
        query.attached_to matches Some(target) ==> relations is Some && listing::is_attached(
            relations->0,
            result.id@,
            target@,
            config.relations(),
        ),
        0 <= i < query.tags@.len() ==> tags::pairs(result.tags@).contains(
            (query.tags@[i].0@, query.tags@[i].1@),
        ),
{
}

/// An agent is shown nothing of another: in a listing for an instance, every
/// entity carries the instance as its agent.
pub proof fn law_listing_is_isolated(
    config: EntityConfig,
    agent: Seq<char>,
    query: ListEntitiesQuery,
    result: PdtSearchResult,
    relations: Option<Seq<PdtRelation>>,
)
    requires
        listing::is_listed(config, Some(agent), query, result, relations),
    ensures
        tags::first_value(tags::pairs(result.tags@), "agent"@) == Some(agent),
{
}

/// What is listed or read as an entity of a kind carries every default tag of the
/// kind.
pub proof fn law_only_entities_of_the_kind(
    config: EntityConfig,
    instance: Option<Seq<char>>,
    query: ListEntitiesQuery,
    result: PdtSearchResult,
    relations: Option<Seq<PdtRelation>>,
    id: Seq<char>,
    fetched: Result<PdtAsset, String>,
)
    ensures
        listing::is_listed(config, instance, query, result, relations)
            ==> entity_config::tags_match(config.default_tags@, tags::pairs(result.tags@)),
        fetched is Ok && listing::read_refusal(config, id, fetched) is None
            ==> entity_config::tags_match(
            config.default_tags@,
            tags::pairs(fetched->Ok_0.tags@),
        ),
{
}

} // verus!
