//! Entity definitions.
//!
//! Each kind of entity is described by an [`EntityConfig`]: its slug, the tags
//! every asset of the kind carries, its fields and its views.
use crate::cedar::entity;
use crate::keyed::{self, KeyedList};
use crate::tags::{self, has_tag, AsTagPair, TagPair};
use crate::text::{self, ascii_alnum, ends_with, same, to_ascii_upper};
use vstd::prelude::*;
use vstd::string::*;

verus! {

/// An entity file: one entity.
pub struct EntityFile {
    pub entity: EntityConfig,
}

/// The definition of a kind of entity.
pub struct EntityConfig {
    /// Human-readable name.
    pub name: String,
    /// The kind's part of a URL: `document` is served under `/api/v1/documents`.
    pub slug: String,
    /// What every title of this kind begins with in PDT.
    pub title_prefix: String,
    /// `generic`, or the name of a handler of its own.
    pub handler: String,
    /// The tags of every asset of this kind.
    pub default_tags: KeyedList<String>,
    /// The actions that authorization is asked for.
    pub cedar: CedarActions,
    /// The fields, by name.
    pub fields: KeyedList<FieldConfig>,
    /// The views, by name.
    pub views: KeyedList<ViewConfig>,
}

/// The handler of an entity that names none.
pub fn default_handler() -> (r: String)
    ensures
        r@ == "generic"@,
{
    "generic".to_owned()
}

/// The names of the actions that authorization is asked for.
pub struct CedarActions {
    pub action_create: Option<String>,
    pub action_read: Option<String>,
    pub action_edit: Option<String>,
    pub action_delete: Option<String>,
}

impl Default for CedarActions {
    fn default() -> (r: Self)
        ensures
            r.action_create is None,
            r.action_read is None,
            r.action_edit is None,
            r.action_delete is None,
    {
        CedarActions {
            action_create: None,
            action_read: None,
            action_edit: None,
            action_delete: None,
        }
    }
}

/// What kind of value a field holds.
#[derive(Clone, Copy, PartialEq, Eq, Structural, Debug)]
pub enum FieldType {
    Text,
    Markdown,
    Enum,
    Date,
    TagArray,
    Relation,
    Metadata,
}

impl Default for FieldType {
    fn default() -> (r: Self)
        ensures
            r == FieldType::Text,
    {
        FieldType::Text
    }
}

/// The definition of a field.
pub struct FieldConfig {
    /// What kind of value the field holds.
    pub field_type: FieldType,
    /// Whether a new entity must have the field.
    pub required: bool,
    /// Human-readable label.
    pub label: Option<String>,
    /// Where the value is kept: `title_suffix`, `content`, `tag:X`,
    /// `metadata:X`, `created_at` or `updated_at`.
    pub map: Option<String>,
    /// The values an enum field may have.
    pub values: Option<Vec<String>>,
    /// The value of a field that is not given.
    pub default: Option<String>,
    /// Whether the field is shown as a badge.
    pub badge: bool,
    /// The views the field appears in.
    pub in_views: Vec<String>,
    /// The kind of entity a relation leads to.
    pub target_entity: Option<String>,
    /// The PDT relation type of a relation.
    pub relation_type: Option<String>,
}

/// The layout of a view.
pub struct ViewConfig {
    /// `card`, `detail` or `form`.
    pub layout: String,
    /// The names of the fields shown.
    pub fields: Vec<String>,
    /// How the view is sorted.
    pub sort: Option<SortConfig>,
}

/// How a view is sorted.
pub struct SortConfig {
    /// The field sorted by.
    pub field: String,
    /// `asc` or `desc`.
    pub order: String,
}

/// The order of a view that names none.
pub fn default_sort_order() -> (r: String)
    ensures
        r@ == "desc"@,
{
    "desc".to_owned()
}

/// The Cedar type that a slug stands for: its runs of ASCII letters and digits,
/// each with its first character made a capital, and nothing else.
pub open spec fn cedar_type(slug: Seq<char>) -> Seq<char>
    decreases slug.len(),
{
    if slug.len() == 0 {
        Seq::empty()
    } else if !text::is_ascii_alnum(slug.last()) {
        cedar_type(slug.drop_last())
    } else if slug.len() == 1 || !text::is_ascii_alnum(slug[slug.len() - 2]) {
        cedar_type(slug.drop_last()).push(text::ascii_upper(slug.last()))
    } else {
        cedar_type(slug.drop_last()).push(slug.last())
    }
}

/// The first ASCII letter or digit of a slug is a letter.
pub open spec fn begins_with_letter(slug: Seq<char>) -> bool {
    exists|i: int|
        0 <= i < slug.len() && text::is_ascii_alnum(#[trigger] slug[i]) && !('0' <= slug[i]
            && slug[i] <= '9') && (forall|j: int|
            0 <= j < i ==> !text::is_ascii_alnum(#[trigger] slug[j]))
}

/// Turns a slug into a name that Cedar takes for an entity type.
///
/// `semantic-memory` becomes `SemanticMemory`: characters other than ASCII
/// letters and digits only separate words, and each word is capitalized.  Of a slug
/// that begins with a letter Cedar takes the outcome; it takes no name that begins
/// with a digit, and no empty one.
pub fn slug_to_cedar_type(slug: &str) -> (r: String)
    ensures
        r@ == cedar_type(slug@),
        entity::is_type_name(r@) == begins_with_letter(slug@),
{
    let n: usize = slug.unicode_len();
    let mut r = String::new();
    let mut inside = false;
    let mut i: usize = 0;
    while i < n
        invariant
            i <= n,
            n == slug@.len(),
            r@ == cedar_type(slug@.take(i as int)),
            inside == (i > 0 && text::is_ascii_alnum(slug@[i - 1])),
        decreases n - i,
    {
        let c = slug.get_char(i);
        proof {
            let t = slug@.take(i + 1);
            assert(t.drop_last() =~= slug@.take(i as int));
            assert(t.last() == c);
            if i > 0 {
                assert(t[t.len() - 2] == slug@[i - 1]);
            }
        }
        if ascii_alnum(c) {
            if inside {
                r.push(c);
            } else {
                r.push(to_ascii_upper(c));
            }
            inside = true;
        } else {
            inside = false;
        }
        i = i + 1;
    }
    assert(slug@.take(n as int) =~= slug@);
    proof {
        law_cedar_type_is_a_type_name(slug@);
    }
    r
}

/// A file name that an entity definition is read from: `.toml` behind at least
/// one other character.
pub open spec fn is_entity_file_name(name: Seq<char>) -> bool {
    text::has_suffix(name, ".toml"@) && name != ".toml"@
}

/// Whether an entity definition is read from a file of this name.
pub fn is_entity_file(name: &str) -> (r: bool)
    ensures
        r == is_entity_file_name(name@),
{
    ends_with(name, ".toml") && !same(name, ".toml")
}

/// The definitions among the files of a directory: those of the files that have
/// an entity file's name and could be read and parsed.
pub open spec fn loaded(files: Seq<(String, Option<EntityConfig>)>) -> Seq<EntityConfig>
    decreases files.len(),
{
    if files.len() == 0 {
        Seq::empty()
    } else {
        let init = loaded(files.drop_last());
        match files.last().1 {
            Some(config) if is_entity_file_name(files.last().0@) => init.push(config),
            _ => init,
        }
    }
}

/// Collects the entity definitions of a directory.
///
/// Each file is given with its name and with the definition read from it, if it
/// could be read and parsed.  Other files are passed over, so that one bad file
/// does not keep the rest from being served.
pub fn load_entity_configs(files: Vec<(String, Option<EntityConfig>)>) -> (r: Vec<EntityConfig>)
    ensures
        r@ == loaded(files@),
{
    let ghost all = files@;
    let mut r: Vec<EntityConfig> = Vec::new();
    for file in it: files.into_iter()
        invariant
            it.seq() == all,
            r@ == loaded(all.take(it.index())),
    {
        proof {
            let i = it.index();
            assert(all.take(i + 1).drop_last() =~= all.take(i));
            assert(all.take(i + 1).last() == file);
        }
        if is_entity_file(file.0.as_str()) {
            if let Some(config) = file.1 {
                r.push(config);
            }
        }
    }
    assert(all.take(all.len() as int) =~= all);
    r
}

/// Every default tag is among the tags, with its value.
pub open spec fn tags_match(default_tags: Map<Seq<char>, String>, tags: Seq<TagPair>) -> bool {
    forall|category: Seq<char>| #[trigger]
        default_tags.contains_key(category) ==> tags.contains(
            (category, default_tags[category]@),
        )
}

/// The field appears in the view.
pub open spec fn in_view(field: FieldConfig, view: Seq<char>) -> bool {
    text::views(field.in_views@).contains(view)
}

/// A field and its name.
pub type NamedField = (String, FieldConfig);

/// Fields by reference, as values.
pub open spec fn named_fields(s: Seq<(&String, &FieldConfig)>) -> Seq<NamedField> {
    s.map_values(|e: (&String, &FieldConfig)| (*e.0, *e.1))
}

impl EntityConfig {
    /// The relation fields, in order.
    pub open spec fn relations(&self) -> Seq<NamedField> {
        self.fields.entries().filter(|e: NamedField| e.1.field_type == FieldType::Relation)
    }

    /// The value of the `type` tag, or the slug where there is none.
    pub open spec fn search_value(&self) -> Seq<char> {
        if self.default_tags@.contains_key("type"@) {
            self.default_tags@["type"@]@
        } else {
            self.slug@
        }
    }

    /// The values that the status may have, where they are restricted.
    pub open spec fn allowed_statuses(&self) -> Option<Seq<Seq<char>>> {
        if self.fields@.contains_key("status"@) {
            match self.fields@["status"@].values {
                Some(values) => Some(text::views(values@)),
                None => None,
            }
        } else {
            None
        }
    }

    /// The field of the given name.
    pub fn get_field(&self, name: &str) -> (r: Option<&FieldConfig>)
        ensures
            r == (if self.fields@.contains_key(name@) {
                Some(&self.fields@[name@])
            } else {
                None
            }),
    {
        self.fields.get(name)
    }

    /// The value of the `type` tag.
    pub fn type_tag(&self) -> (r: Option<&str>)
        ensures
            r.deep_view() == (if self.default_tags@.contains_key("type"@) {
                Some(self.default_tags@["type"@]@)
            } else {
                None
            }),
    {
        match self.default_tags.get("type") {
            Some(s) => Some(s.as_str()),
            None => None,
        }
    }

    /// Whether an asset with these tags is of this kind.
    ///
    /// Kinds that share a `type` tag differ in their other default tags, so each
    /// default tag must be there with its exact value.  Other tags are ignored.
    pub fn tags_match<T: AsTagPair>(&self, asset_tags: &[T]) -> (r: bool)
        ensures
            r == tags_match(self.default_tags@, tags::pairs(asset_tags@)),
    {
        let n: usize = self.default_tags.len();
        let ghost entries = self.default_tags.entries();
        let ghost tags = tags::pairs(asset_tags@);
        proof {
            keyed::lemma_map_of(entries);
        }
        let mut i: usize = 0;
        while i < n
            invariant
                i <= n,
                n == entries.len(),
                entries == self.default_tags.entries(),
                tags == tags::pairs(asset_tags@),
                forall|j: int| 0 <= j < i ==> tags.contains(((#[trigger] entries[j]).0@, entries[j].1@)),
                forall|j: int| #![trigger entries[j]]
                    0 <= j < entries.len() ==> self.default_tags@.contains_key(entries[j].0@)
                        && self.default_tags@[entries[j].0@] == entries[j].1,
            decreases n - i,
        {
            let e = self.default_tags.entry(i);
            if !has_tag(asset_tags, e.0.as_str(), e.1.as_str()) {
                assert(entries[i as int] == *e);
                assert(!tags_match(self.default_tags@, tags)) by {
                    assert(self.default_tags@.contains_key(entries[i as int].0@));
                }
                return false;
            }
            i = i + 1;
        }
        proof {
            assert forall|category: Seq<char>| #[trigger]
                self.default_tags@.contains_key(category) implies tags.contains(
                (category, self.default_tags@[category]@),
            ) by {
                let j = choose|j: int|
                    0 <= j < entries.len() && (#[trigger] entries[j]).0@ == category;
                assert(tags.contains((entries[j].0@, entries[j].1@)));
            }
        }
        true
    }

    /// The fields that appear in a view, in order.
    pub fn fields_for_view(&self, view: &str) -> (r: Vec<(&String, &FieldConfig)>)
        ensures
            named_fields(r@) == self.fields.entries().filter(|e: NamedField| in_view(e.1, view@)),
    {
        let n: usize = self.fields.len();
        let mut r: Vec<(&String, &FieldConfig)> = Vec::new();
        let ghost entries = self.fields.entries();
        let ghost wanted = |e: NamedField| in_view(e.1, view@);
        let mut i: usize = 0;
        proof {
            reveal(Seq::filter);
            assert(named_fields(r@) =~= entries.take(0).filter(wanted));
        }
        while i < n
            invariant
                i <= n,
                n == entries.len(),
                entries == self.fields.entries(),
                wanted == (|e: NamedField| in_view(e.1, view@)),
                named_fields(r@) == entries.take(i as int).filter(wanted),
            decreases n - i,
        {
            let e = self.fields.entry(i);
            let ghost before = r@;
            if contains_text(&e.1.in_views, view) {
                r.push((&e.0, &e.1));
            }
            proof {
                lemma_filter_take(entries, i as int, wanted);
                assert(wanted(entries[i as int]) ==> named_fields(r@) =~= named_fields(before).push(
                    entries[i as int],
                ));
            }
            i = i + 1;
        }
        assert(entries.take(n as int) =~= entries);
        r
    }

    /// The status of a new entity: from the default tags, else from the status
    /// field's default.
    pub fn default_status(&self) -> (r: Option<&str>)
        ensures
            r.deep_view() == (if self.default_tags@.contains_key("status"@) {
                Some(self.default_tags@["status"@]@)
            } else if self.fields@.contains_key("status"@) {
                self.fields@["status"@].default.deep_view()
            } else {
                None
            }),
    {
        match self.default_tags.get("status") {
            Some(s) => Some(s.as_str()),
            None => match self.fields.get("status") {
                Some(f) => as_text(&f.default),
                None => None,
            },
        }
    }

    /// The values that the status may have, where they are restricted.
    pub fn status_values(&self) -> (r: Option<&[String]>)
        ensures
            r is Some == self.allowed_statuses() is Some,
            r matches Some(v) ==> v@ == self.fields@["status"@].values->0@,
    {
        match self.fields.get("status") {
            Some(f) => match &f.values {
                Some(v) => Some(v.as_slice()),
                None => None,
            },
            None => None,
        }
    }

    /// The relation fields, in order.
    pub fn relation_fields(&self) -> (r: Vec<(&String, &FieldConfig)>)
        ensures
            named_fields(r@) == self.relations(),
    {
        let n: usize = self.fields.len();
        let mut r: Vec<(&String, &FieldConfig)> = Vec::new();
        let ghost entries = self.fields.entries();
        let ghost wanted = |e: NamedField| e.1.field_type == FieldType::Relation;
        let mut i: usize = 0;
        proof {
            reveal(Seq::filter);
            assert(named_fields(r@) =~= entries.take(0).filter(wanted));
        }
        while i < n
            invariant
                i <= n,
                n == entries.len(),
                entries == self.fields.entries(),
                wanted == (|e: NamedField| e.1.field_type == FieldType::Relation),
                named_fields(r@) == entries.take(i as int).filter(wanted),
            decreases n - i,
        {
            let e = self.fields.entry(i);
            let ghost before = r@;
            if e.1.field_type == FieldType::Relation {
                r.push((&e.0, &e.1));
            }
            proof {
                lemma_filter_take(entries, i as int, wanted);
                assert(wanted(entries[i as int]) ==> named_fields(r@) =~= named_fields(before).push(
                    entries[i as int],
                ));
            }
            i = i + 1;
        }
        assert(entries.take(n as int) =~= entries);
        r
    }
}

/// One more element is kept by a filter, or is not.
pub proof fn lemma_filter_take<A>(s: Seq<A>, i: int, pred: spec_fn(A) -> bool)
    requires
        0 <= i < s.len(),
    ensures
        s.take(i + 1).filter(pred) == (if pred(s[i]) {
            s.take(i).filter(pred).push(s[i])
        } else {
            s.take(i).filter(pred)
        }),
{
    reveal(Seq::filter);
    assert(s.take(i + 1).drop_last() =~= s.take(i));
}

/// An optional text by reference.
pub fn as_text(t: &Option<String>) -> (r: Option<&str>)
    ensures
        r.deep_view() == t.deep_view(),
{
    match t {
        Some(s) => Some(s.as_str()),
        None => None,
    }
}

/// Whether a text is among the items.
pub fn contains_text(items: &[String], t: &str) -> (r: bool)
    ensures
        r == text::views(items@).contains(t@),
{
    let ghost all = text::views(items@);
    let mut i: usize = 0;
    while i < items.len()
        invariant
            i <= items.len(),
            all == text::views(items@),
            forall|j: int| 0 <= j < i ==> #[trigger] all[j] != t@,
        decreases items.len() - i,
    {
        if same(items[i].as_str(), t) {
            assert(all[i as int] == t@);
            return true;
        }
        i = i + 1;
    }
    false
}

/// Kinds that share a tag are told apart by another: where two kinds want
/// different values of one category, tags with one value of it are of at most one
/// of the kinds.
pub proof fn law_kinds_are_told_apart(
    a: Map<Seq<char>, String>,
    b: Map<Seq<char>, String>,
    tags: Seq<TagPair>,
    category: Seq<char>,
)
    requires
        a.contains_key(category),
        b.contains_key(category),
        a[category]@ != b[category]@,
        forall|i: int, j: int|
            0 <= i < tags.len() && 0 <= j < tags.len() && (#[trigger] tags[i]).0 == category && (
            #[trigger] tags[j]).0 == category ==> tags[i].1 == tags[j].1,
    ensures
        !(tags_match(a, tags) && tags_match(b, tags)),
{
    if tags_match(a, tags) && tags_match(b, tags) {
        let i = choose|i: int| 0 <= i < tags.len() && tags[i] == (category, a[category]@);
        let j = choose|j: int| 0 <= j < tags.len() && tags[j] == (category, b[category]@);
        assert(tags[i].1 == tags[j].1);
    }
}

/// A missing default tag, or one with another value, is enough for tags not to be
/// of a kind.
pub proof fn law_every_default_tag_counts(
    default_tags: Map<Seq<char>, String>,
    tags: Seq<TagPair>,
    category: Seq<char>,
)
    requires
        default_tags.contains_key(category),
        !tags.contains((category, default_tags[category]@)),
    ensures
        !tags_match(default_tags, tags),
{
}

/// Tags that a kind does not ask for are ignored.
pub proof fn law_other_tags_are_ignored(
    default_tags: Map<Seq<char>, String>,
    tags: Seq<TagPair>,
    others: Seq<TagPair>,
)
    requires
        tags_match(default_tags, tags),
    ensures
        tags_match(default_tags, tags + others),
        tags_match(default_tags, others + tags),
{
    assert forall|category: Seq<char>| #[trigger] default_tags.contains_key(category) implies (tags
        + others).contains((category, default_tags[category]@)) && (others + tags).contains(
        (category, default_tags[category]@),
    ) by {
        let i = choose|i: int|
            0 <= i < tags.len() && tags[i] == (category, default_tags[category]@);
        assert((tags + others)[i] == tags[i]);
        assert((others + tags)[others.len() + i] == tags[i]);
    }
}

/// A Cedar type is made of ASCII letters and digits alone.
pub proof fn law_cedar_type_is_alphanumeric(slug: Seq<char>)
    ensures
        forall|i: int|
            0 <= i < cedar_type(slug).len() ==> text::is_ascii_alnum(#[trigger] cedar_type(slug)[i]),
    decreases slug.len(),
{
    if slug.len() > 0 {
        let init = cedar_type(slug.drop_last());
        law_cedar_type_is_alphanumeric(slug.drop_last());
        if text::is_ascii_alnum(slug.last()) {
            text::lemma_upper_is_alnum(slug.last());
        }
        assert forall|i: int| 0 <= i < cedar_type(slug).len() implies text::is_ascii_alnum(
            #[trigger] cedar_type(slug)[i],
        ) by {
            if i < init.len() {
                assert(cedar_type(slug)[i] == init[i]);
            }
        }
    }
}

/// Separators before and behind a slug make no difference.
pub proof fn law_outer_separators_are_ignored(slug: Seq<char>, c: char)
    requires
        !text::is_ascii_alnum(c),
    ensures
        cedar_type(slug.push(c)) == cedar_type(slug),
        cedar_type(seq![c] + slug) == cedar_type(slug),
    decreases slug.len(),
{
    assert(slug.push(c).drop_last() =~= slug);
    let led = seq![c] + slug;
    if slug.len() == 0 {
        assert(led.drop_last() =~= Seq::empty());
        assert(led.last() == c);
        assert(cedar_type(led.drop_last()) =~= Seq::empty());
    } else {
        law_outer_separators_are_ignored(slug.drop_last(), c);
        assert(led.drop_last() =~= seq![c] + slug.drop_last());
        assert(led.last() == slug.last());
        if slug.len() == 1 {
            assert(led[led.len() - 2] == c);
        } else {
            assert(led[led.len() - 2] == slug[slug.len() - 2]);
        }
    }
}

proof fn lemma_cedar_type_front(slug: Seq<char>)
    ensures
        slug.len() > 0 && text::is_ascii_alnum(slug.last()) ==> cedar_type(slug).len() > 0,
        cedar_type(slug).len() > 0 ==> text::ascii_upper(cedar_type(slug)[0]) == cedar_type(
            slug,
        )[0],
    decreases slug.len(),
{
    if slug.len() > 0 {
        lemma_cedar_type_front(slug.drop_last());
        if slug.len() > 1 {
            assert(slug.drop_last().last() == slug[slug.len() - 2]);
        }
    }
}

proof fn lemma_one_word(t: Seq<char>)
    requires
        forall|i: int| 0 <= i < t.len() ==> text::is_ascii_alnum(#[trigger] t[i]),
        t.len() > 0 ==> text::ascii_upper(t[0]) == t[0],
    ensures
        cedar_type(t) == t,
    decreases t.len(),
{
    if t.len() > 0 {
        let init = t.drop_last();
        assert forall|i: int| 0 <= i < init.len() implies text::is_ascii_alnum(
            #[trigger] init[i],
        ) by {
            assert(init[i] == t[i]);
        }
        lemma_one_word(init);
        assert(init.push(t.last()) =~= t);
    }
}

/// A Cedar type stands for itself.
pub proof fn law_cedar_type_of_a_cedar_type(slug: Seq<char>)
    ensures
        cedar_type(cedar_type(slug)) == cedar_type(slug),
{
    law_cedar_type_is_alphanumeric(slug);
    lemma_cedar_type_front(slug);
    lemma_one_word(cedar_type(slug));
}

/// The first character of a Cedar type is the first letter or digit of the slug,
/// made a capital.
proof fn lemma_cedar_type_first(slug: Seq<char>, i: int)
    requires
        0 <= i < slug.len(),
        text::is_ascii_alnum(slug[i]),
        forall|j: int| 0 <= j < i ==> !text::is_ascii_alnum(#[trigger] slug[j]),
    ensures
        cedar_type(slug).len() > 0,
        cedar_type(slug)[0] == text::ascii_upper(slug[i]),
    decreases slug.len(),
{
    let init = slug.drop_last();
    if i < init.len() {
        assert(init[i] == slug[i]);
        assert forall|j: int| 0 <= j < i implies !text::is_ascii_alnum(#[trigger] init[j]) by {
            assert(init[j] == slug[j]);
        }
        lemma_cedar_type_first(init, i);
    } else {
        assert forall|j: int| 0 <= j < init.len() implies !text::is_ascii_alnum(
            #[trigger] init[j],
        ) by {
            assert(init[j] == slug[j]);
        }
        lemma_cedar_type_of_separators(init);
        if slug.len() > 1 {
            assert(!text::is_ascii_alnum(slug[slug.len() - 2]));
        }
    }
}

proof fn lemma_cedar_type_of_separators(slug: Seq<char>)
    requires
        forall|j: int| 0 <= j < slug.len() ==> !text::is_ascii_alnum(#[trigger] slug[j]),
    ensures
        cedar_type(slug) == Seq::<char>::empty(),
    decreases slug.len(),
{
    if slug.len() > 0 {
        let init = slug.drop_last();
        assert forall|j: int| 0 <= j < init.len() implies !text::is_ascii_alnum(
            #[trigger] init[j],
        ) by {
            assert(init[j] == slug[j]);
        }
        lemma_cedar_type_of_separators(init);
        assert(!text::is_ascii_alnum(slug[slug.len() - 1]));
    }
}

/// The first letter or digit of a slug, where it has one.
proof fn lemma_first_alnum(slug: Seq<char>) -> (r: Option<int>)
    ensures
        r matches Some(i) ==> 0 <= i < slug.len() && text::is_ascii_alnum(slug[i]) && forall|j: int|
            0 <= j < i ==> !text::is_ascii_alnum(#[trigger] slug[j]),
        r is None ==> forall|j: int|
            0 <= j < slug.len() ==> !text::is_ascii_alnum(#[trigger] slug[j]),
    decreases slug.len(),
{
    if slug.len() == 0 {
        None
    } else {
        let init = slug.drop_last();
        let r = lemma_first_alnum(init);
        assert forall|j: int| 0 <= j < init.len() implies init[j] == #[trigger] slug[j] by {}
        if r is Some {
            r
        } else if text::is_ascii_alnum(slug.last()) {
            Some(slug.len() - 1)
        } else {
            None
        }
    }
}

/// Cedar takes the type of a slug exactly where the slug begins with a letter.
pub proof fn law_cedar_type_is_a_type_name(slug: Seq<char>)
    ensures
        entity::is_type_name(cedar_type(slug)) <==> begins_with_letter(slug),
{
    let t = cedar_type(slug);
    law_cedar_type_is_alphanumeric(slug);
    match lemma_first_alnum(slug) {
        None => {
            lemma_cedar_type_of_separators(slug);
        },
        Some(i) => {
            lemma_cedar_type_first(slug, i);
            let c = slug[i];
            if '0' <= c && c <= '9' {
                assert(t[0] == c);
                assert(!begins_with_letter(slug)) by {
                    assert forall|k: int|
                        0 <= k < slug.len() && text::is_ascii_alnum(#[trigger] slug[k]) && !('0'
                            <= slug[k] && slug[k] <= '9') implies !(forall|j: int|
                        0 <= j < k ==> !text::is_ascii_alnum(#[trigger] slug[j])) by {
                        assert(k > i);
                    }
                }
            } else {
                assert('A' <= t[0] && t[0] <= 'Z');
                assert(!entity::is_reserved(t)) by {
                    reveal_strlit("true");
                    reveal_strlit("false");
                    reveal_strlit("if");
                    reveal_strlit("then");
                    reveal_strlit("else");
                    reveal_strlit("in");
                    reveal_strlit("is");
                    reveal_strlit("like");
                    reveal_strlit("has");
                    reveal_strlit("__cedar");
                }
                assert(entity::is_identifier(t));
                assert(text::is_ascii_alnum(slug[i]));
            }
        },
    }
}

/// One bad file does not keep the others from being served: the definitions are
/// those of the files that have an entity file's name and could be read, each
/// whatever the other files are.
pub proof fn law_bad_files_are_passed_over(
    files: Seq<(String, Option<EntityConfig>)>,
    config: EntityConfig,
)
    ensures
        loaded(files).contains(config) <==> exists|i: int|
            0 <= i < files.len() && is_entity_file_name((#[trigger] files[i]).0@) && files[i].1
                == Some(config),
    decreases files.len(),
{
    if files.len() > 0 {
        let init = files.drop_last();
        let before = loaded(init);
        let all = loaded(files);
        let n = files.len() - 1;
        law_bad_files_are_passed_over(init, config);
        assert(files[n] == files.last());
        if all.contains(config) {
            let k = choose|k: int| 0 <= k < all.len() && all[k] == config;
            if k < before.len() {
                assert(before[k] == config);
                assert(before.contains(config));
                let i = choose|i: int|
                    0 <= i < init.len() && is_entity_file_name((#[trigger] init[i]).0@)
                        && init[i].1 == Some(config);
                assert(files[i] == init[i]);
            }
        }
        if exists|i: int|
            0 <= i < files.len() && is_entity_file_name((#[trigger] files[i]).0@) && files[i].1
                == Some(config) {
            let i = choose|i: int|
                0 <= i < files.len() && is_entity_file_name((#[trigger] files[i]).0@)
                    && files[i].1 == Some(config);
            if i < n {
                assert(init[i] == files[i]);
                assert(before.contains(config));
                let k = choose|k: int| 0 <= k < before.len() && before[k] == config;
                assert(all[k] == config);
            } else {
                assert(all[all.len() - 1] == config);
            }
        }
    }
}

} // verus!
