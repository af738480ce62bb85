//! What every entity definition says.
use crate::cedar::laws;
use crate::entity_config::{
    self, EntityConfig, FieldConfig, FieldType, NamedField,
};
use crate::pdt::types::PdtTag;
use crate::tags;
use crate::text;
use vstd::prelude::*;

verus! {

/// A file name: at least one character, and `.toml` at its end.
pub open spec fn is_toml(name: Seq<char>) -> bool {
    name.len() > 5 && name.skip(name.len() - 5) == seq!['.', 't', 'o', 'm', 'l']
}

proof fn lemma_toml(name: Seq<char>)
    ensures
        entity_config::is_entity_file_name(name) <==> is_toml(name),
{
    reveal_strlit(".toml");
    assert(".toml"@ =~= seq!['.', 't', 'o', 'm', 'l']);
    if name.len() >= 5 {
        assert(name.subrange(name.len() - 5, name.len() as int) =~= name.skip(name.len() - 5));
        if name.len() == 5 {
            assert(name.skip(0) =~= name);
        }
    }
}

/// A definition is read from a file exactly where its name has at least one
/// character before a final `.toml`.
pub proof fn law_definitions_are_toml_files(name: &str, r: bool)
    requires
        call_ensures(entity_config::is_entity_file, (name,), r),
    ensures
        r <==> is_toml(name@),
{
    lemma_toml(name@);
}

/// The definitions of a directory are those of the files that have such a name and
/// could be read, in the order of the files.
pub proof fn law_readable_definitions_are_loaded(
    files: Vec<(String, Option<EntityConfig>)>,
    r: Vec<EntityConfig>,
)
    requires
        call_ensures(entity_config::load_entity_configs, (files,), r),
    ensures
        r@ == files@.filter(
            |f: (String, Option<EntityConfig>)| is_toml(f.0@) && f.1 is Some,
        ).map_values(|f: (String, Option<EntityConfig>)| f.1->0),
{
    lemma_loaded(files@);
}

proof fn lemma_loaded(files: Seq<(String, Option<EntityConfig>)>)
    ensures
        entity_config::loaded(files) == files.filter(
            |f: (String, Option<EntityConfig>)| is_toml(f.0@) && f.1 is Some,
        ).map_values(|f: (String, Option<EntityConfig>)| f.1->0),
    decreases files.len(),
{
    reveal(Seq::filter);
    let wanted = |f: (String, Option<EntityConfig>)| is_toml(f.0@) && f.1 is Some;
    let inner = |f: (String, Option<EntityConfig>)| f.1->0;
    if files.len() == 0 {
        assert(entity_config::loaded(files) =~= files.filter(wanted).map_values(inner));
    } else {
        let init = files.drop_last();
        lemma_loaded(init);
        lemma_toml(files.last().0@);
        if wanted(files.last()) {
            assert(init.filter(wanted).push(files.last()).map_values(inner) =~= init.filter(
                wanted,
            ).map_values(inner).push(files.last().1->0));
        }
    }
}

/// The field of a name, the value of the `type` tag, the status of a new entity and
/// the values that its status may have are those that the definition gives.
pub proof fn law_definition_is_read(
    config: &EntityConfig,
    name: &str,
    field: Option<&FieldConfig>,
    kind: Option<&str>,
    status: Option<&str>,
    values: Option<&[String]>,
)
    requires
        call_ensures(EntityConfig::get_field, (config, name), field),
        call_ensures(EntityConfig::type_tag, (config,), kind),
        call_ensures(EntityConfig::default_status, (config,), status),
        call_ensures(EntityConfig::status_values, (config,), values),
    ensures
        field is Some <==> config.fields@.contains_key(name@),
        field is Some ==> *field->0 == config.fields@[name@],
        kind is Some <==> config.default_tags@.contains_key("type"@),
        kind is Some ==> kind->0@ == config.default_tags@["type"@]@,
        config.default_tags@.contains_key("status"@) ==> status is Some && status->0@
            == config.default_tags@["status"@]@,
        !config.default_tags@.contains_key("status"@) && config.fields@.contains_key("status"@)
            && config.fields@["status"@].default is Some ==> status is Some && status->0@
            == config.fields@["status"@].default->0@,
        !config.default_tags@.contains_key("status"@) && (!config.fields@.contains_key("status"@)
            || config.fields@["status"@].default is None) ==> status is None,
        values is Some <==> config.fields@.contains_key("status"@)
            && config.fields@["status"@].values is Some,
        values is Some ==> values->0@ == config.fields@["status"@].values->0@,
{
}

/// Tags are of a kind exactly where every default tag of the kind is among them,
/// with its value.
pub proof fn law_kind_is_told_by_its_default_tags(
    config: &EntityConfig,
    asset_tags: &[PdtTag],
    r: bool,
)
    requires
        call_ensures(EntityConfig::tags_match::<PdtTag>, (config, asset_tags), r),
    ensures
        r <==> forall|c: Seq<char>| #[trigger]
            config.default_tags@.contains_key(c) ==> has_stored(
                asset_tags@,
                c,
                config.default_tags@[c]@,
            ),
{
    assert forall|c: Seq<char>, v: Seq<char>| #[trigger]
        has_stored(asset_tags@, c, v) <==> tags::pairs(asset_tags@).contains((c, v)) by {
        let ps = tags::pairs(asset_tags@);
        assert forall|i: int| 0 <= i < ps.len() implies #[trigger] ps[i] == (
            asset_tags@[i].category@,
            asset_tags@[i].value@,
        ) by {}
        if has_stored(asset_tags@, c, v) {
            let i = choose|i: int|
                0 <= i < asset_tags@.len() && (#[trigger] asset_tags@[i]).category@ == c
                    && asset_tags@[i].value@ == v;
            assert(ps[i] == (c, v));
        }
        if ps.contains((c, v)) {
            let i = choose|i: int| 0 <= i < ps.len() && ps[i] == (c, v);
            assert(asset_tags@[i].category@ == c);
        }
    }
    if r {
        assert forall|c: Seq<char>| #[trigger] config.default_tags@.contains_key(c) implies
            has_stored(asset_tags@, c, config.default_tags@[c]@) by {
            assert(tags::pairs(asset_tags@).contains((c, config.default_tags@[c]@)));
        }
    } else {
        let c = choose|c: Seq<char>| #[trigger]
            config.default_tags@.contains_key(c) && !tags::pairs(asset_tags@).contains(
                (c, config.default_tags@[c]@),
            );
        assert(!has_stored(asset_tags@, c, config.default_tags@[c]@));
    }
}

/// A stored tag of a category has a value.
pub open spec fn has_stored(tags: Seq<PdtTag>, category: Seq<char>, value: Seq<char>) -> bool {
    exists|i: int|
        0 <= i < tags.len() && (#[trigger] tags[i]).category@ == category && tags[i].value@ == value
}

/// A field appears in a view exactly where it names the view.
pub open spec fn names_view(f: FieldConfig, view: Seq<char>) -> bool {
    exists|i: int| 0 <= i < f.in_views@.len() && (#[trigger] f.in_views@[i])@ == view
}

proof fn lemma_in_view(f: FieldConfig, view: Seq<char>)
    ensures
        entity_config::in_view(f, view) <==> names_view(f, view),
{
    let vs = text::views(f.in_views@);
    if vs.contains(view) {
        let i = choose|i: int| 0 <= i < vs.len() && vs[i] == view;
        assert(f.in_views@[i]@ == view);
    }
    if names_view(f, view) {
        let i = choose|i: int| 0 <= i < f.in_views@.len() && (#[trigger] f.in_views@[i])@ == view;
        assert(vs[i] == view);
    }
}

/// The fields of a view are those that name it, and the relation fields are those of
/// that type, each in the order of the definition.
pub proof fn law_fields_are_picked_in_order(
    config: &EntityConfig,
    view: &str,
    in_view: Vec<(&String, &FieldConfig)>,
    relations: Vec<(&String, &FieldConfig)>,
)
    requires
        call_ensures(EntityConfig::fields_for_view, (config, view), in_view),
        call_ensures(EntityConfig::relation_fields, (config,), relations),
    ensures
        in_view@.map_values(|e: (&String, &FieldConfig)| (*e.0, *e.1))
            == config.fields.entries().filter(|e: NamedField| names_view(e.1, view@)),
        relations@.map_values(|e: (&String, &FieldConfig)| (*e.0, *e.1))
            == config.fields.entries().filter(|e: NamedField| e.1.field_type is Relation),
{
    let a = |e: NamedField| entity_config::in_view(e.1, view@);
    let b = |e: NamedField| names_view(e.1, view@);
    assert forall|e: NamedField| #[trigger] a(e) == b(e) by {
        lemma_in_view(e.1, view@);
    }
    assert(a =~= b);
    let c = |e: NamedField| e.1.field_type == FieldType::Relation;
    let d = |e: NamedField| e.1.field_type is Relation;
    assert(c =~= d);
    assert(entity_config::named_fields(in_view@) =~= in_view@.map_values(
        |e: (&String, &FieldConfig)| (*e.0, *e.1),
    ));
    assert(entity_config::named_fields(relations@) =~= relations@.map_values(
        |e: (&String, &FieldConfig)| (*e.0, *e.1),
    ));
}

/// The Cedar type of a slug without separators is the slug with a capital first, and
/// that of a slug with one is what the types of its two parts make together.
pub proof fn law_slug_becomes_its_cedar_type(
    a: &str,
    c: char,
    b: &str,
    s: &str,
    of_a: String,
    of_b: String,
    of_s: String,
)
    requires
        call_ensures(entity_config::slug_to_cedar_type, (a,), of_a),
        call_ensures(entity_config::slug_to_cedar_type, (b,), of_b),
        call_ensures(entity_config::slug_to_cedar_type, (s,), of_s),
        s@ == a@ + seq![c] + b@,
        !laws::is_word_char(c),
    ensures
        of_s@ == of_a@ + of_b@,
        a@.len() == 0 ==> of_a@.len() == 0,
        a@.len() > 0 && (forall|i: int| 0 <= i < a@.len() ==> laws::is_word_char(#[trigger] a@[i]))
            ==> of_a@ == seq![laws::capital(a@[0])] + a@.drop_first(),
{
    laws::law_cedar_type_is_its_words(a@, c, b@);
    if a@.len() == 0 {
        assert(a@ =~= Seq::empty());
    }
}

/// A text is among the items exactly where one of them is the text.
pub proof fn law_texts_are_found(items: &[String], t: &str, r: bool)
    requires
        call_ensures(entity_config::contains_text, (items, t), r),
    ensures
        r <==> exists|i: int| 0 <= i < items@.len() && (#[trigger] items@[i])@ == t@,
{
    let vs = text::views(items@);
    if vs.contains(t@) {
        let i = choose|i: int| 0 <= i < vs.len() && vs[i] == t@;
        assert(items@[i]@ == t@);
    }
    if exists|i: int| 0 <= i < items@.len() && (#[trigger] items@[i])@ == t@ {
        let i = choose|i: int| 0 <= i < items@.len() && (#[trigger] items@[i])@ == t@;
        assert(vs[i] == t@);
    }
}

} // verus!
