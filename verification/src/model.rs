//! The model catalogue: which ids OpenCode Go serves, over which wire protocol, and under which
//! names they are offered.
use vstd::prelude::*;

use crate::text::{join, same_text, sort_names, strip_prefix, texts, texts_sorted};

verus! {

/// What a provider-qualified model name begins with.
pub const MODEL_PREFIX: &'static str = "opencode-go/";

/// The wire protocol that a model is served over.
#[derive(Debug, Clone, Copy, PartialEq, Eq, Structural)]
pub enum EndpointKind {
    ChatCompletions,
    Messages,
}

/// A model of the catalogue.
#[derive(Debug, Clone, Copy, PartialEq, Eq)]
pub struct ModelSpec {
    pub id: &'static str,
    pub endpoint: EndpointKind,
}

/// The catalogue.
pub open spec fn catalog() -> Seq<ModelSpec> {
    seq![
        ModelSpec { id: "glm-5.2", endpoint: EndpointKind::ChatCompletions },
        ModelSpec { id: "glm-5.1", endpoint: EndpointKind::ChatCompletions },
        ModelSpec { id: "glm-5", endpoint: EndpointKind::ChatCompletions },
        ModelSpec { id: "kimi-k2.7-code", endpoint: EndpointKind::ChatCompletions },
        ModelSpec { id: "kimi-k2.6", endpoint: EndpointKind::ChatCompletions },
        ModelSpec { id: "kimi-k2.5", endpoint: EndpointKind::ChatCompletions },
        ModelSpec { id: "deepseek-v4-pro", endpoint: EndpointKind::ChatCompletions },
        ModelSpec { id: "deepseek-v4-flash", endpoint: EndpointKind::ChatCompletions },
        ModelSpec { id: "mimo-v2.5", endpoint: EndpointKind::ChatCompletions },
        ModelSpec { id: "mimo-v2.5-pro", endpoint: EndpointKind::ChatCompletions },
        ModelSpec { id: "qwen3.5-plus", endpoint: EndpointKind::ChatCompletions },
        ModelSpec { id: "minimax-m3", endpoint: EndpointKind::Messages },
        ModelSpec { id: "minimax-m2.7", endpoint: EndpointKind::Messages },
        ModelSpec { id: "minimax-m2.5", endpoint: EndpointKind::Messages },
        ModelSpec { id: "qwen3.7-max", endpoint: EndpointKind::Messages },
        ModelSpec { id: "qwen3.7-plus", endpoint: EndpointKind::Messages },
        ModelSpec { id: "qwen3.6-plus", endpoint: EndpointKind::Messages },
    ]
}

/// The id whose bare name belongs to another provider.
pub open spec fn shared_id() -> Seq<char> {
    "kimi-k2.6"@
}

/// The name of a model qualified by this provider.
pub open spec fn canonical_name(id: Seq<char>) -> Seq<char> {
    MODEL_PREFIX@ + id
}

/// A model name without its provider prefix; the prefix is taken off once.
pub open spec fn bare_name(raw: Seq<char>) -> Seq<char> {
    if MODEL_PREFIX@.is_prefix_of(raw) {
        raw.skip(MODEL_PREFIX@.len() as int)
    } else {
        raw
    }
}

/// The first model of a list with the given id.
pub open spec fn find_model(models: Seq<ModelSpec>, id: Seq<char>) -> Option<ModelSpec>
    decreases models.len(),
{
    if models.len() == 0 {
        None
    } else if models[0].id@ == id {
        Some(models[0])
    } else {
        find_model(models.drop_first(), id)
    }
}

/// The model that a requested name stands for.
pub open spec fn resolved(raw: Seq<char>) -> Option<ModelSpec> {
    find_model(catalog(), bare_name(raw))
}

/// The names that one model is offered under.
pub open spec fn names_of(model: ModelSpec) -> Seq<Seq<char>> {
    if model.id@ == shared_id() {
        seq![canonical_name(model.id@)]
    } else {
        seq![model.id@, canonical_name(model.id@)]
    }
}

/// The names that a list of models is offered under, in the order of the list.
pub open spec fn names_of_all(models: Seq<ModelSpec>) -> Seq<Seq<char>>
    decreases models.len(),
{
    if models.len() == 0 {
        Seq::empty()
    } else {
        names_of_all(models.drop_last()) + names_of(models.last())
    }
}

/// The number of models of a list that speak the given wire protocol.
pub open spec fn count_endpoint(models: Seq<ModelSpec>, endpoint: EndpointKind) -> nat
    decreases models.len(),
{
    if models.len() == 0 {
        0
    } else {
        count_endpoint(models.drop_last(), endpoint) + if models.last().endpoint == endpoint {
            1nat
        } else {
            0
        }
    }
}

/// The models of the catalogue.
pub fn models() -> (all: [ModelSpec; 17])
    ensures
        all@ == catalog(),
{
    [
        ModelSpec { id: "glm-5.2", endpoint: EndpointKind::ChatCompletions },
        ModelSpec { id: "glm-5.1", endpoint: EndpointKind::ChatCompletions },
        ModelSpec { id: "glm-5", endpoint: EndpointKind::ChatCompletions },
        ModelSpec { id: "kimi-k2.7-code", endpoint: EndpointKind::ChatCompletions },
        ModelSpec { id: "kimi-k2.6", endpoint: EndpointKind::ChatCompletions },
        ModelSpec { id: "kimi-k2.5", endpoint: EndpointKind::ChatCompletions },
        ModelSpec { id: "deepseek-v4-pro", endpoint: EndpointKind::ChatCompletions },
        ModelSpec { id: "deepseek-v4-flash", endpoint: EndpointKind::ChatCompletions },
        ModelSpec { id: "mimo-v2.5", endpoint: EndpointKind::ChatCompletions },
        ModelSpec { id: "mimo-v2.5-pro", endpoint: EndpointKind::ChatCompletions },
        ModelSpec { id: "qwen3.5-plus", endpoint: EndpointKind::ChatCompletions },
        ModelSpec { id: "minimax-m3", endpoint: EndpointKind::Messages },
        ModelSpec { id: "minimax-m2.7", endpoint: EndpointKind::Messages },
        ModelSpec { id: "minimax-m2.5", endpoint: EndpointKind::Messages },
        ModelSpec { id: "qwen3.7-max", endpoint: EndpointKind::Messages },
        ModelSpec { id: "qwen3.7-plus", endpoint: EndpointKind::Messages },
        ModelSpec { id: "qwen3.6-plus", endpoint: EndpointKind::Messages },
    ]
}

/// The model that a requested name stands for: its id, bare or with the provider prefix.
pub fn resolve(raw: &str) -> (found: Option<ModelSpec>)
    ensures
        found == resolved(raw@),
        found matches Some(model) ==> catalog().contains(model) && model.id@ == bare_name(raw@),
        found is None ==> forall|i: int|
            0 <= i < catalog().len() ==> (#[trigger] catalog()[i]).id@ != bare_name(raw@),
        found matches Some(model) ==> raw@ == model.id@ || raw@ == "opencode-go/"@ + model.id@,
{
    let id = match strip_prefix(raw, MODEL_PREFIX) {
        Some(rest) => rest,
        None => raw,
    };
    proof {
        if MODEL_PREFIX@.is_prefix_of(raw@) {
            assert(id@ =~= raw@.skip(MODEL_PREFIX@.len() as int));
        } else {
            assert(raw@ != MODEL_PREFIX@ + id@) by {
                if raw@ == MODEL_PREFIX@ + id@ {
                    assert(MODEL_PREFIX@.is_prefix_of(raw@));
                }
            }
        }
        lemma_find_model(catalog(), id@);
        law_resolved_model_has_the_id_named(raw@);
    }
    let all = models();
    proof {
        assert(all@.skip(0) =~= all@);
    }
    let mut i: usize = 0;
    while i < 17
        invariant
            i <= 17,
            all@ == catalog(),
            all@.len() == 17,
            id@ == bare_name(raw@),
            resolved(raw@) == find_model(all@.skip(i as int), id@),
        decreases 17 - i,
    {
        if same_text(all[i].id, id) {
            return Some(all[i]);
        }
        proof {
            assert(all@.skip(i as int).drop_first() =~= all@.skip(i + 1));
        }
        i += 1;
    }
    None
}

/// Every name that models are offered under, sorted: the bare id and the provider-qualified id
/// of each model, but for the id whose bare name belongs to another provider.
pub fn advertised_models() -> (names: Vec<String>)
    ensures
        texts_sorted(texts(names@)),
        texts(names@).to_multiset() == names_of_all(catalog()).to_multiset(),
        texts(names@).no_duplicates(),
        forall|name: Seq<char>| #[trigger]
            texts(names@).contains(name) <==> resolved(name) is Some && name != shared_id(),
        names@.len() == 33,
{
    let all = models();
    let mut names: Vec<String> = Vec::new();
    proof {
        assert(texts(names@) =~= names_of_all(all@.take(0)));
    }
    let mut i: usize = 0;
    while i < 17
        invariant
            i <= 17,
            all@ == catalog(),
            all@.len() == 17,
            texts(names@) == names_of_all(all@.take(i as int)),
        decreases 17 - i,
    {
        let model = all[i];
        let ghost before = texts(names@);
        if !same_text(model.id, "kimi-k2.6") {
            names.push(model.id.to_owned());
        }
        names.push(join(MODEL_PREFIX, model.id));
        proof {
            assert(all@.take(i + 1).drop_last() =~= all@.take(i as int));
            assert(texts(names@) =~= before + names_of(model));
        }
        i += 1;
    }
    proof {
        assert(all@.take(17) =~= catalog());
    }
    let sorted = sort_names(names);
    proof {
        let listed = texts(sorted@);
        let expected = names_of_all(catalog());
        law_no_name_is_offered_twice();
        broadcast use vstd::seq_lib::group_to_multiset_ensures;

        expected.lemma_multiset_has_no_duplicates();
        listed.lemma_multiset_has_no_duplicates_conv();
        assert(listed.len() == listed.to_multiset().len());
        assert(expected.len() == expected.to_multiset().len());
        assert forall|name: Seq<char>| #[trigger] listed.contains(name) <==> resolved(name) is Some
            && name != shared_id() by {
            lemma_offered_iff_resolved(name);
            assert(listed.contains(name) <==> listed.to_multiset().count(name) > 0);
            assert(expected.contains(name) <==> expected.to_multiset().count(name) > 0);
        }
    }
    sorted
}

proof fn lemma_find_model(models: Seq<ModelSpec>, id: Seq<char>)
    ensures
        match find_model(models, id) {
            Some(model) => models.contains(model) && model.id@ == id,
            None => forall|i: int| 0 <= i < models.len() ==> (#[trigger] models[i]).id@ != id,
        },
    decreases models.len(),
{
    if models.len() > 0 && models[0].id@ != id {
        let rest = models.drop_first();
        lemma_find_model(rest, id);
        match find_model(rest, id) {
            Some(model) => {
                let i = choose|i: int| 0 <= i < rest.len() && rest[i] == model;
                assert(models[i + 1] == model);
            },
            None => {
                assert forall|i: int| 0 <= i < models.len() implies (#[trigger] models[i]).id@ != id by {
                    if i > 0 {
                        assert(rest[i - 1] == models[i]);
                    }
                }
            },
        }
    } else if models.len() > 0 {
        assert(models[0] == models[0]);
    }
}

/// No two models of a list share an id.
pub open spec fn ids_distinct(models: Seq<ModelSpec>) -> bool {
    forall|i: int, j: int|
        0 <= i < j < models.len() ==> (#[trigger] models[i]).id@ != (#[trigger] models[j]).id@
}

/// No id of a list begins with the provider prefix.
pub open spec fn ids_bare(models: Seq<ModelSpec>) -> bool {
    forall|i: int|
        0 <= i < models.len() ==> !MODEL_PREFIX@.is_prefix_of((#[trigger] models[i]).id@)
}

/// No two models share an id, and no id begins with the provider prefix.
pub proof fn law_catalog_ids_are_distinct_and_bare()
    ensures
        ids_distinct(catalog()),
        ids_bare(catalog()),
{
    reveal_strlit("opencode-go/");
    reveal_strlit("glm-5.2");
    reveal_strlit("glm-5.1");
    reveal_strlit("glm-5");
    reveal_strlit("kimi-k2.7-code");
    reveal_strlit("kimi-k2.6");
    reveal_strlit("kimi-k2.5");
    reveal_strlit("deepseek-v4-pro");
    reveal_strlit("deepseek-v4-flash");
    reveal_strlit("mimo-v2.5");
    reveal_strlit("mimo-v2.5-pro");
    reveal_strlit("qwen3.5-plus");
    reveal_strlit("minimax-m3");
    reveal_strlit("minimax-m2.7");
    reveal_strlit("minimax-m2.5");
    reveal_strlit("qwen3.7-max");
    reveal_strlit("qwen3.7-plus");
    reveal_strlit("qwen3.6-plus");
    let models = catalog();
    assert forall|i: int, j: int| 0 <= i < j < models.len() implies (
    #[trigger] models[i]).id@ != (#[trigger] models[j]).id@ by {
        let a = models[i].id@;
        let b = models[j].id@;
        if a == b {
            assert(a.len() == b.len() && a[0] == b[0] && a[6] == b[6] && a.last() == b.last());
        }
    }
    assert forall|i: int| 0 <= i < models.len() implies !MODEL_PREFIX@.is_prefix_of(
        (#[trigger] models[i]).id@,
    ) by {
        let id = models[i].id@;
        if MODEL_PREFIX@.is_prefix_of(id) {
            assert(id.subrange(0, MODEL_PREFIX@.len() as int)[0] == id[0]);
        }
    }
}

/// Each model speaks one of the two wire protocols: eleven speak chat completions, six speak
/// messages, and these are all.
pub proof fn law_catalog_is_partitioned_by_endpoint()
    ensures
        count_endpoint(catalog(), EndpointKind::ChatCompletions) == 11,
        count_endpoint(catalog(), EndpointKind::Messages) == 6,
        catalog().len() == 17,
{
    reveal_with_fuel(count_endpoint, 18);
}

proof fn lemma_canonical_name(id: Seq<char>)
    ensures
        MODEL_PREFIX@.is_prefix_of(canonical_name(id)),
        bare_name(canonical_name(id)) == id,
{
    assert(MODEL_PREFIX@ =~= canonical_name(id).subrange(0, MODEL_PREFIX@.len() as int));
    assert(canonical_name(id).skip(MODEL_PREFIX@.len() as int) =~= id);
}

/// A name resolves to a model of the catalogue exactly where it is that model's id, bare or with
/// the provider prefix.
pub proof fn law_resolution_is_exact(raw: Seq<char>, model: ModelSpec)
    ensures
        resolved(raw) == Some(model) <==> catalog().contains(model) && (raw == model.id@ || raw
            == canonical_name(model.id@)),
{
    law_catalog_ids_are_distinct_and_bare();
    lemma_find_model(catalog(), bare_name(raw));
    lemma_canonical_name(model.id@);
    if resolved(raw) == Some(model) {
        if MODEL_PREFIX@.is_prefix_of(raw) {
            assert(raw =~= canonical_name(bare_name(raw)));
        }
    }
    if catalog().contains(model) && (raw == model.id@ || raw == canonical_name(model.id@)) {
        let i = choose|i: int| 0 <= i < catalog().len() && catalog()[i] == model;
        assert(bare_name(raw) == catalog()[i].id@);
        match resolved(raw) {
            Some(other) => {
                let j = choose|j: int| 0 <= j < catalog().len() && catalog()[j] == other;
                assert(catalog()[i].id@ == catalog()[j].id@);
            },
            None => {},
        }
    }
}

/// The provider prefix changes nothing in front of a name that does not carry it yet.
pub proof fn law_prefix_is_optional(raw: Seq<char>)
    requires
        !MODEL_PREFIX@.is_prefix_of(raw),
    ensures
        resolved(canonical_name(raw)) == resolved(raw),
{
    lemma_canonical_name(raw);
}

/// The provider prefix is taken off once: a name that carries it twice stands for no model.
pub proof fn law_prefix_is_taken_off_once(raw: Seq<char>)
    ensures
        resolved(canonical_name(canonical_name(raw))) is None,
{
    law_catalog_ids_are_distinct_and_bare();
    lemma_canonical_name(raw);
    lemma_canonical_name(canonical_name(raw));
    lemma_find_model(catalog(), canonical_name(raw));
    match resolved(canonical_name(canonical_name(raw))) {
        Some(model) => {
            let i = choose|i: int| 0 <= i < catalog().len() && catalog()[i] == model;
            assert(MODEL_PREFIX@.is_prefix_of(catalog()[i].id@));
        },
        None => {},
    }
}

/// Some model of the list is offered under `name`.
spec fn offered(models: Seq<ModelSpec>, name: Seq<char>) -> bool {
    exists|i: int| 0 <= i < models.len() && names_of(#[trigger] models[i]).contains(name)
}

proof fn lemma_names_of_all(models: Seq<ModelSpec>, name: Seq<char>)
    ensures
        names_of_all(models).contains(name) <==> offered(models, name),
    decreases models.len(),
{
    if models.len() > 0 {
        let init = models.drop_last();
        let head = names_of_all(init);
        let tail = names_of(models.last());
        lemma_names_of_all(init, name);
        if (head + tail).contains(name) {
            let k = choose|k: int| 0 <= k < (head + tail).len() && (head + tail)[k] == name;
            if k < head.len() {
                assert(head[k] == name);
                let i = choose|i: int|
                    0 <= i < init.len() && names_of(#[trigger] init[i]).contains(name);
                assert(names_of(models[i]).contains(name));
            } else {
                assert(tail[k - head.len()] == name);
                assert(names_of(models[models.len() - 1]).contains(name));
            }
        }
        if offered(models, name) {
            let i = choose|i: int|
                0 <= i < models.len() && names_of(#[trigger] models[i]).contains(name);
            if i < init.len() {
                assert(names_of(init[i]).contains(name));
                let k = choose|k: int| 0 <= k < head.len() && head[k] == name;
                assert((head + tail)[k] == name);
            } else {
                let k = choose|k: int| 0 <= k < tail.len() && tail[k] == name;
                assert((head + tail)[head.len() + k] == name);
            }
        }
    }
}

proof fn lemma_names_of(model: ModelSpec, name: Seq<char>)
    ensures
        names_of(model).contains(name) <==> name == canonical_name(model.id@) || (name == model.id@
            && name != shared_id()),
        model.id@ != canonical_name(model.id@),
{
    reveal_strlit("opencode-go/");
    assert(canonical_name(model.id@).len() == model.id@.len() + 12);
    if model.id@ == shared_id() {
        assert(names_of(model)[0] == canonical_name(model.id@));
    } else {
        assert(names_of(model)[0] == model.id@);
        assert(names_of(model)[1] == canonical_name(model.id@));
    }
}

/// The offered names are exactly those that resolve, but for the bare id that belongs to another
/// provider. So every offered name resolves, and that id is offered with its prefix alone.
pub proof fn law_offered_names_are_those_that_resolve(name: Seq<char>)
    ensures
        names_of_all(catalog()).contains(name) <==> resolved(name) is Some && name != shared_id(),
        !names_of_all(catalog()).contains(shared_id()),
        names_of_all(catalog()).contains(canonical_name(shared_id())),
        resolved(shared_id()) is Some,
{
    let models = catalog();
    law_catalog_ids_are_distinct_and_bare();
    assert(models[4].id@ == shared_id());
    assert(models.contains(models[4]));
    lemma_offered_iff_resolved(name);
    lemma_offered_iff_resolved(shared_id());
    lemma_offered_iff_resolved(canonical_name(shared_id()));
    law_resolution_is_exact(shared_id(), models[4]);
    law_resolution_is_exact(canonical_name(shared_id()), models[4]);
    lemma_names_of(models[4], shared_id());
}

proof fn lemma_offered_iff_resolved(name: Seq<char>)
    ensures
        names_of_all(catalog()).contains(name) <==> resolved(name) is Some && name != shared_id(),
{
    let models = catalog();
    law_catalog_ids_are_distinct_and_bare();
    lemma_names_of_all(models, name);
    if offered(models, name) {
        let i = choose|i: int| 0 <= i < models.len() && names_of(#[trigger] models[i]).contains(name);
        lemma_names_of(models[i], name);
        assert(models.contains(models[i]));
        law_resolution_is_exact(name, models[i]);
        if name == shared_id() {
            assert(name == canonical_name(models[i].id@));
            lemma_canonical_name(models[i].id@);
            assert(models[4].id@ == shared_id());
        }
    }
    if resolved(name) is Some && name != shared_id() {
        let model = resolved(name)->0;
        law_resolution_is_exact(name, model);
        let i = choose|i: int| 0 <= i < models.len() && models[i] == model;
        lemma_names_of(models[i], name);
    }
}

proof fn lemma_names_distinct(models: Seq<ModelSpec>)
    requires
        ids_distinct(models),
        ids_bare(models),
    ensures
        names_of_all(models).no_duplicates(),
        names_of_all(models).len() == 2 * models.len() - (if exists|i: int|
            0 <= i < models.len() && (#[trigger] models[i]).id@ == shared_id() {
            1int
        } else {
            0
        }),
    decreases models.len(),
{
    if models.len() > 0 {
        let init = models.drop_last();
        let last = models.last();
        assert forall|i: int, j: int| 0 <= i < j < init.len() implies (#[trigger] init[i]).id@ != (
        #[trigger] init[j]).id@ by {
            assert(models[i].id@ != models[j].id@);
        }
        assert forall|i: int| 0 <= i < init.len() implies !MODEL_PREFIX@.is_prefix_of(
            (#[trigger] init[i]).id@,
        ) by {
            assert(models[i] == init[i]);
        }
        lemma_names_distinct(init);
        let head = names_of_all(init);
        let tail = names_of(last);
        lemma_names_of(last, last.id@);
        assert(tail.no_duplicates());
        assert forall|k: int, l: int| 0 <= k < head.len() && 0 <= l < tail.len() implies head[k]
            != tail[l] by {
            let name = head[k];
            if name == tail[l] {
                lemma_names_of_all(init, name);
                assert(head.contains(name));
                let i = choose|i: int|
                    0 <= i < init.len() && names_of(#[trigger] init[i]).contains(name);
                lemma_names_of(init[i], name);
                assert(tail.contains(name));
                lemma_names_of(last, name);
                lemma_canonical_name(init[i].id@);
                lemma_canonical_name(last.id@);
                assert(models[i].id@ != models[models.len() - 1].id@);
                assert(!MODEL_PREFIX@.is_prefix_of(models[i].id@));
                assert(!MODEL_PREFIX@.is_prefix_of(models[models.len() - 1].id@));
            }
        }
        let all = head + tail;
        assert forall|k: int, l: int| 0 <= k < all.len() && 0 <= l < all.len() && k != l implies all[k]
            != all[l] by {
            if k < head.len() && l >= head.len() {
                assert(head[k] != tail[l - head.len()]);
            } else if l < head.len() && k >= head.len() {
                assert(head[l] != tail[k - head.len()]);
            }
        }
        if last.id@ == shared_id() {
            assert(models[models.len() - 1].id@ == shared_id());
            assert forall|i: int| 0 <= i < init.len() implies (#[trigger] init[i]).id@
                != shared_id() by {
                assert(models[i].id@ != models[models.len() - 1].id@);
            }
        } else if exists|i: int| 0 <= i < models.len() && (#[trigger] models[i]).id@ == shared_id() {
            let i = choose|i: int|
                0 <= i < models.len() && (#[trigger] models[i]).id@ == shared_id();
            assert(init[i].id@ == shared_id());
        } else {
            assert forall|i: int| 0 <= i < init.len() implies (#[trigger] init[i]).id@
                != shared_id() by {
                assert(models[i] == init[i]);
            }
        }
    }
}

/// No name is offered twice: each model has two names, but for the one that has a single name.
pub proof fn law_no_name_is_offered_twice()
    ensures
        names_of_all(catalog()).no_duplicates(),
        names_of_all(catalog()).len() == 2 * catalog().len() - 1,
{
    law_catalog_ids_are_distinct_and_bare();
    assert(catalog()[4].id@ == shared_id());
    lemma_names_distinct(catalog());
}

/// The name is the id, bare or behind `opencode-go/`.
spec fn stands_for(raw: Seq<char>, id: Seq<char>) -> bool {
    raw == id || raw == "opencode-go/"@ + id
}

/// The models of the catalogue by their ids, in its order.
proof fn lemma_catalog_entries()
    ensures
        catalog()[0].id@ == "glm-5.2"@,
        catalog()[1].id@ == "glm-5.1"@,
        catalog()[2].id@ == "glm-5"@,
        catalog()[3].id@ == "kimi-k2.7-code"@,
        catalog()[4].id@ == "kimi-k2.6"@,
        catalog()[5].id@ == "kimi-k2.5"@,
        catalog()[6].id@ == "deepseek-v4-pro"@,
        catalog()[7].id@ == "deepseek-v4-flash"@,
        catalog()[8].id@ == "mimo-v2.5"@,
        catalog()[9].id@ == "mimo-v2.5-pro"@,
        catalog()[10].id@ == "qwen3.5-plus"@,
        catalog()[11].id@ == "minimax-m3"@,
        catalog()[12].id@ == "minimax-m2.7"@,
        catalog()[13].id@ == "minimax-m2.5"@,
        catalog()[14].id@ == "qwen3.7-max"@,
        catalog()[15].id@ == "qwen3.7-plus"@,
        catalog()[16].id@ == "qwen3.6-plus"@,
        catalog().len() == 17,
        forall|i: int|
            0 <= i < 11 ==> (#[trigger] catalog()[i]).endpoint == EndpointKind::ChatCompletions,
        forall|i: int|
            11 <= i < 17 ==> (#[trigger] catalog()[i]).endpoint == EndpointKind::Messages,
{
}

proof fn lemma_entry_resolves(raw: Seq<char>, i: int)
    requires
        0 <= i < catalog().len(),
    ensures
        stands_for(raw, catalog()[i].id@) <==> resolved(raw) == Some(catalog()[i]),
{
    assert(catalog().contains(catalog()[i]));
    law_resolution_is_exact(raw, catalog()[i]);
}

proof fn lemma_entries_resolve(raw: Seq<char>)
    ensures
        forall|i: int|
            0 <= i < catalog().len() ==> (stands_for(raw, (#[trigger] catalog()[i]).id@)
                <==> resolved(raw) == Some(catalog()[i])),
        resolved(raw) matches Some(model) ==> exists|i: int|
            0 <= i < catalog().len() && #[trigger] catalog()[i] == model,
{
    assert forall|i: int| 0 <= i < catalog().len() implies (stands_for(
        raw,
        (#[trigger] catalog()[i]).id@,
    ) <==> resolved(raw) == Some(catalog()[i])) by {
        lemma_entry_resolves(raw, i);
    }
    lemma_find_model(catalog(), bare_name(raw));
}

/// Which names stand for a model that speaks chat completions: these eleven ids, bare or with the
/// provider prefix.
pub proof fn law_chat_models_by_name(raw: Seq<char>)
    ensures
        ({
            let ids = seq![
                "glm-5.2"@,
                "glm-5.1"@,
                "glm-5"@,
                "kimi-k2.7-code"@,
                "kimi-k2.6"@,
                "kimi-k2.5"@,
                "deepseek-v4-pro"@,
                "deepseek-v4-flash"@,
                "mimo-v2.5"@,
                "mimo-v2.5-pro"@,
                "qwen3.5-plus"@,
            ];
            (resolved(raw) is Some && resolved(raw)->0.endpoint == EndpointKind::ChatCompletions) <==> exists|i: int|
                0 <= i < ids.len() && (raw == #[trigger] ids[i] || raw == "opencode-go/"@ + ids[i])
        }),
{
    let ids = seq![
        "glm-5.2"@,
        "glm-5.1"@,
        "glm-5"@,
        "kimi-k2.7-code"@,
        "kimi-k2.6"@,
        "kimi-k2.5"@,
        "deepseek-v4-pro"@,
        "deepseek-v4-flash"@,
        "mimo-v2.5"@,
        "mimo-v2.5-pro"@,
        "qwen3.5-plus"@,
    ];
    lemma_catalog_entries();
    lemma_entries_resolve(raw);
    assert forall|i: int| 0 <= i < ids.len() implies #[trigger] ids[i] == catalog()[i].id@ by {}
    if resolved(raw) is Some && resolved(raw)->0.endpoint == EndpointKind::ChatCompletions {
        let k = choose|k: int|
            0 <= k < catalog().len() && #[trigger] catalog()[k] == resolved(raw)->0;
        assert(stands_for(raw, ids[k]));
    }
    if exists|i: int|
        0 <= i < ids.len() && (raw == #[trigger] ids[i] || raw == "opencode-go/"@ + ids[i]) {
        let i = choose|i: int|
            0 <= i < ids.len() && (raw == #[trigger] ids[i] || raw == "opencode-go/"@ + ids[i]);
        assert(stands_for(raw, catalog()[i].id@));
    }
}

/// Which names stand for a model that speaks messages: these six ids, bare or with the provider
/// prefix.
pub proof fn law_messages_models_by_name(raw: Seq<char>)
    ensures
        ({
            let ids = seq![
                "minimax-m3"@,
                "minimax-m2.7"@,
                "minimax-m2.5"@,
                "qwen3.7-max"@,
                "qwen3.7-plus"@,
                "qwen3.6-plus"@,
            ];
            (resolved(raw) is Some && resolved(raw)->0.endpoint == EndpointKind::Messages) <==> exists|i: int|
                0 <= i < ids.len() && (raw == #[trigger] ids[i] || raw == "opencode-go/"@ + ids[i])
        }),
{
    let ids = seq![
        "minimax-m3"@,
        "minimax-m2.7"@,
        "minimax-m2.5"@,
        "qwen3.7-max"@,
        "qwen3.7-plus"@,
        "qwen3.6-plus"@,
    ];
    lemma_catalog_entries();
    lemma_entries_resolve(raw);
    assert forall|i: int| 0 <= i < ids.len() implies #[trigger] ids[i] == catalog()[i + 11].id@ by {}
    if resolved(raw) is Some && resolved(raw)->0.endpoint == EndpointKind::Messages {
        let k = choose|k: int|
            0 <= k < catalog().len() && #[trigger] catalog()[k] == resolved(raw)->0;
        assert(stands_for(raw, ids[k - 11]));
    }
    if exists|i: int|
        0 <= i < ids.len() && (raw == #[trigger] ids[i] || raw == "opencode-go/"@ + ids[i]) {
        let i = choose|i: int|
            0 <= i < ids.len() && (raw == #[trigger] ids[i] || raw == "opencode-go/"@ + ids[i]);
        assert(stands_for(raw, catalog()[i + 11].id@));
    }
}

/// A name never stands for another model than the one whose id it carries.
pub proof fn law_resolved_model_has_the_id_named(raw: Seq<char>)
    ensures
        resolved(raw) matches Some(model) ==> raw == model.id@ || raw == "opencode-go/"@ + model.id@,
{
    match resolved(raw) {
        Some(model) => law_resolution_is_exact(raw, model),
        None => {},
    }
}

/// A name is offered exactly where it stands for a model, but for `kimi-k2.6`, which is offered
/// as `opencode-go/kimi-k2.6` alone.
pub proof fn law_only_kimi_is_not_offered_bare(name: Seq<char>)
    ensures
        names_of_all(catalog()).contains(name) <==> resolved(name) is Some && name != "kimi-k2.6"@,
        names_of_all(catalog()).contains("opencode-go/"@ + "kimi-k2.6"@),
        resolved("kimi-k2.6"@) is Some,
        names_of_all(catalog()).len() == 33,
{
    law_offered_names_are_those_that_resolve(name);
    law_no_name_is_offered_twice();
}

/// The catalogue lists the models that speak chat completions first and those that speak messages
/// behind them, each in this order.
pub proof fn law_catalog_order()
    ensures
        catalog().len() == 17,
        forall|i: int|
            #![trigger catalog()[i]]
            0 <= i < 17 ==> {
                &&& catalog()[i].id@ == seq![
                    "glm-5.2"@,
                    "glm-5.1"@,
                    "glm-5"@,
                    "kimi-k2.7-code"@,
                    "kimi-k2.6"@,
                    "kimi-k2.5"@,
                    "deepseek-v4-pro"@,
                    "deepseek-v4-flash"@,
                    "mimo-v2.5"@,
                    "mimo-v2.5-pro"@,
                    "qwen3.5-plus"@,
                    "minimax-m3"@,
                    "minimax-m2.7"@,
                    "minimax-m2.5"@,
                    "qwen3.7-max"@,
                    "qwen3.7-plus"@,
                    "qwen3.6-plus"@,
                ][i]
                &&& catalog()[i].endpoint == EndpointKind::ChatCompletions <==> i < 11
            },
{
    lemma_catalog_entries();
}

/// The empty name stands for no model.
pub proof fn law_empty_name_stands_for_no_model(name: Seq<char>)
    requires
        name.len() == 0,
    ensures
        resolved(name) is None,
{
    reveal_strlit("opencode-go/");
    reveal_strlit("glm-5.2");
    reveal_strlit("glm-5.1");
    reveal_strlit("glm-5");
    reveal_strlit("kimi-k2.7-code");
    reveal_strlit("kimi-k2.6");
    reveal_strlit("kimi-k2.5");
    reveal_strlit("deepseek-v4-pro");
    reveal_strlit("deepseek-v4-flash");
    reveal_strlit("mimo-v2.5");
    reveal_strlit("mimo-v2.5-pro");
    reveal_strlit("qwen3.5-plus");
    reveal_strlit("minimax-m3");
    reveal_strlit("minimax-m2.7");
    reveal_strlit("minimax-m2.5");
    reveal_strlit("qwen3.7-max");
    reveal_strlit("qwen3.7-plus");
    reveal_strlit("qwen3.6-plus");
    lemma_catalog_entries();
    lemma_entries_resolve(name);
    assert forall|i: int| 0 <= i < catalog().len() implies (#[trigger] catalog()[i]).id@.len()
        > 0 by {}
    law_resolved_model_has_the_id_named(name);
}

} // verus!
