//! The template store catalog: searching and filtering templates, and what
//! installing one creates.

use vstd::prelude::*;
use crate::runtime::{Runtime, runtime_named};
use crate::text::{contains, str_chars, contains_chars, str_eq, lowercase, to_lowercase};

verus! {

pub struct TemplateCategory {
    pub id: String,
    pub name: String,
    pub icon: String,
}

/// An environment variable a template expects.
pub struct TemplateEnvHint {
    pub key: String,
    pub description: String,
    pub required: bool,
    pub default: Option<String>,
}

pub struct TemplateMeta {
    pub id: String,
    pub name: String,
    pub description: String,
    pub category: String,
    pub runtime: String,
    pub entrypoint: String,
    pub version: String,
    pub author: String,
    pub pro_only: bool,
    pub featured: bool,
    pub env_vars: Vec<TemplateEnvHint>,
    pub tags: Vec<String>,
    pub files: Vec<String>,
}

pub struct StoreCatalog {
    pub version: u32,
    pub updated_at: String,
    pub categories: Vec<TemplateCategory>,
    pub templates: Vec<TemplateMeta>,
}

/// Some string of `v` contains `q`.
pub open spec fn any_contains(v: Seq<Seq<char>>, q: Seq<char>) -> bool {
    exists|i: int| 0 <= i < v.len() && contains(v[i], q)
}

/// A template matches a lower-cased query when its lower-cased name,
/// description, category or one of its tags contains it.
pub open spec fn lowered_match(
    name: Seq<char>,
    description: Seq<char>,
    category: Seq<char>,
    tags: Seq<Seq<char>>,
    q: Seq<char>,
) -> bool {
    contains(name, q) || contains(description, q) || contains(category, q) || any_contains(tags, q)
}

/// The lower-cased tags of a template.
pub open spec fn lowered_tags(tags: Seq<String>) -> Seq<Seq<char>> {
    tags.map_values(|t: String| lowercase(t@))
}

/// A template matches a search query, compared without case.
pub open spec fn matches_query(t: TemplateMeta, query: Seq<char>) -> bool {
    lowered_match(
        lowercase(t.name@),
        lowercase(t.description@),
        lowercase(t.category@),
        lowered_tags(t.tags@),
        lowercase(query),
    )
}

/// Whether lower-cased template fields match a lower-cased query.
pub fn lowered_fields_match(name: &str, description: &str, category: &str, tags: &Vec<String>, q: &str) -> (b: bool)
    ensures
        b == lowered_match(name@, description@, category@, crate::text::strings(tags@), q@),
{
    let qc = str_chars(q);
    if contains_chars(&str_chars(name), &qc) || contains_chars(&str_chars(description), &qc)
        || contains_chars(&str_chars(category), &qc) {
        return true;
    }
    let mut i: usize = 0;
    while i < tags.len()
        invariant
            i <= tags.len(),
            qc@ == q@,
            forall|j: int| 0 <= j < i ==> !contains(#[trigger] tags@[j]@, q@),
        decreases tags.len() - i,
    {
        if contains_chars(&str_chars(tags[i].as_str()), &qc) {
            assert(crate::text::strings(tags@)[i as int] == tags@[i as int]@);
            return true;
        }
        i = i + 1;
    }
    assert(!any_contains(crate::text::strings(tags@), q@)) by {
        assert forall|j: int| 0 <= j < tags@.len() implies !contains(#[trigger] crate::text::strings(tags@)[j], q@) by {
            assert(crate::text::strings(tags@)[j] == tags@[j]@);
        }
    }
    false
}

fn template_matches(t: &TemplateMeta, q: &str) -> (b: bool)
    ensures
        b == lowered_match(lowercase(t.name@), lowercase(t.description@), lowercase(t.category@), lowered_tags(t.tags@), q@),
{
    let mut tags: Vec<String> = Vec::new();
    let mut i: usize = 0;
    while i < t.tags.len()
        invariant
            i <= t.tags.len(),
            crate::text::strings(tags@) == lowered_tags(t.tags@).take(i as int),
        decreases t.tags.len() - i,
    {
        let lt = to_lowercase(t.tags[i].as_str());
        assert(lt@ == lowered_tags(t.tags@)[i as int]);
        let ghost before = tags@;
        tags.push(lt);
        assert(tags@ == before.push(lt));
        assert(crate::text::strings(tags@) =~= crate::text::strings(before).push(lt@));
        assert(lowered_tags(t.tags@).take(i + 1) =~= lowered_tags(t.tags@).take(i as int).push(lt@));
        i = i + 1;
    }
    assert(lowered_tags(t.tags@).take(t.tags.len() as int) == lowered_tags(t.tags@));
    let name = to_lowercase(t.name.as_str());
    let description = to_lowercase(t.description.as_str());
    let category = to_lowercase(t.category.as_str());
    lowered_fields_match(name.as_str(), description.as_str(), category.as_str(), &tags, q)
}

/// The templates of `ts` that satisfy `keep`, in order.
pub open spec fn select(ts: Seq<TemplateMeta>, keep: spec_fn(TemplateMeta) -> bool) -> Seq<TemplateMeta>
    decreases ts.len(),
{
    if ts.len() == 0 {
        seq![]
    } else {
        let prev = select(ts.drop_last(), keep);
        if keep(ts.last()) {
            prev.push(ts.last())
        } else {
            prev
        }
    }
}

/// The templates whose name, description, category or a tag contains the
/// query, ignoring case, in catalog order.
pub fn search_templates<'a>(catalog: &'a StoreCatalog, query: &str) -> (r: Vec<&'a TemplateMeta>)
    ensures
        r@.map_values(|t: &TemplateMeta| *t) == select(catalog.templates@, |t: TemplateMeta| matches_query(t, query@)),
{
    let q = to_lowercase(query);
    let ghost keep = |t: TemplateMeta| matches_query(t, query@);
    let mut r: Vec<&'a TemplateMeta> = Vec::new();
    let mut i: usize = 0;
    while i < catalog.templates.len()
        invariant
            i <= catalog.templates.len(),
            q@ == lowercase(query@),
            keep == (|t: TemplateMeta| matches_query(t, query@)),
            r@.map_values(|t: &TemplateMeta| *t) == select(catalog.templates@.take(i as int), keep),
        decreases catalog.templates.len() - i,
    {
        let ghost ts = catalog.templates@.take(i + 1);
        assert(ts.drop_last() == catalog.templates@.take(i as int));
        let t = &catalog.templates[i];
        if template_matches(t, q.as_str()) {
            r.push(t);
            assert(r@.map_values(|t: &TemplateMeta| *t) =~= select(catalog.templates@.take(i as int), keep).push(*t));
        }
        i = i + 1;
    }
    assert(catalog.templates@.take(catalog.templates.len() as int) == catalog.templates@);
    r
}

proof fn lemma_select_members(ts: Seq<TemplateMeta>, keep: spec_fn(TemplateMeta) -> bool)
    ensures
        forall|i: int| 0 <= i < ts.len() && keep(ts[i]) ==> select(ts, keep).contains(#[trigger] ts[i]),
        forall|x: TemplateMeta| #[trigger] select(ts, keep).contains(x) ==> ts.contains(x) && keep(x),
    decreases ts.len(),
{
    if ts.len() > 0 {
        let init = ts.drop_last();
        lemma_select_members(init, keep);
        let prev = select(init, keep);
        assert forall|i: int| 0 <= i < ts.len() && keep(ts[i]) implies select(ts, keep).contains(#[trigger] ts[i]) by {
            if i < ts.len() - 1 {
                assert(init[i] == ts[i]);
                assert(prev.contains(init[i]));
                if keep(ts.last()) {
                    let k = choose|k: int| 0 <= k < prev.len() && prev[k] == init[i];
                    assert(prev.push(ts.last())[k] == ts[i]);
                }
            } else {
                assert(prev.push(ts.last())[prev.len() as int] == ts[i]);
            }
        }
        assert forall|x: TemplateMeta| #[trigger] select(ts, keep).contains(x) implies ts.contains(x) && keep(x) by {
            if prev.contains(x) {
                let k = choose|k: int| 0 <= k < init.len() && init[k] == x;
                assert(ts[k] == x);
            } else {
                assert(keep(ts.last()) && x == ts.last());
                assert(ts[ts.len() - 1] == x);
            }
        }
    }
}

/// Search is case-blind over the name, description, category and tags: a
/// template whose lower-cased name, description or category, or one of
/// whose lower-cased tags, contains the lower-cased query is found, and
/// every template found is one of the catalog's and matches in one of those
/// places.
pub proof fn search_finds_exactly_the_matching_templates(ts: Seq<TemplateMeta>, query: Seq<char>)
    ensures
        ({
            let found = select(ts, |t: TemplateMeta| matches_query(t, query));
            let q = lowercase(query);
            &&& forall|i: int|
                0 <= i < ts.len() && (contains(lowercase(ts[i].name@), q) || contains(lowercase(ts[i].description@), q)
                    || contains(lowercase(ts[i].category@), q) || exists|j: int|
                    0 <= j < ts[i].tags@.len() && contains(lowercase(#[trigger] ts[i].tags@[j]@), q))
                    ==> found.contains(#[trigger] ts[i])
            &&& forall|t: TemplateMeta| #[trigger] found.contains(t) ==> ts.contains(t) && (contains(lowercase(t.name@), q)
                || contains(lowercase(t.description@), q) || contains(lowercase(t.category@), q) || exists|j: int|
                0 <= j < t.tags@.len() && contains(lowercase(#[trigger] t.tags@[j]@), q))
        }),
{
    let keep = |t: TemplateMeta| matches_query(t, query);
    lemma_select_members(ts, keep);
    let q = lowercase(query);
    assert forall|i: int|
        0 <= i < ts.len() && (contains(lowercase(ts[i].name@), q) || contains(lowercase(ts[i].description@), q)
            || contains(lowercase(ts[i].category@), q) || exists|j: int|
            0 <= j < ts[i].tags@.len() && contains(lowercase(#[trigger] ts[i].tags@[j]@), q))
        implies select(ts, keep).contains(#[trigger] ts[i]) by {
        if exists|j: int| 0 <= j < ts[i].tags@.len() && contains(lowercase(#[trigger] ts[i].tags@[j]@), q) {
            let j = choose|j: int| 0 <= j < ts[i].tags@.len() && contains(lowercase(#[trigger] ts[i].tags@[j]@), q);
            assert(lowered_tags(ts[i].tags@)[j] == lowercase(ts[i].tags@[j]@));
        }
        assert(keep(ts[i]));
    }
    assert forall|t: TemplateMeta| #[trigger] select(ts, keep).contains(t) implies ts.contains(t) && (contains(lowercase(t.name@), q)
        || contains(lowercase(t.description@), q) || contains(lowercase(t.category@), q) || exists|j: int|
        0 <= j < t.tags@.len() && contains(lowercase(#[trigger] t.tags@[j]@), q)) by {
        assert(keep(t));
        if any_contains(lowered_tags(t.tags@), q) {
            let j = choose|j: int| 0 <= j < lowered_tags(t.tags@).len() && contains(lowered_tags(t.tags@)[j], q);
            assert(lowered_tags(t.tags@)[j] == lowercase(t.tags@[j]@));
        }
    }
}

/// Filtering by category keeps exactly the catalog's templates of that
/// category.
pub proof fn filter_keeps_exactly_the_category(ts: Seq<TemplateMeta>, category: Seq<char>)
    ensures
        ({
            let kept = select(ts, |t: TemplateMeta| t.category@ == category);
            &&& forall|i: int| 0 <= i < ts.len() && ts[i].category@ == category ==> kept.contains(#[trigger] ts[i])
            &&& forall|t: TemplateMeta| #[trigger] kept.contains(t) ==> ts.contains(t) && t.category@ == category
        }),
{
    lemma_select_members(ts, |t: TemplateMeta| t.category@ == category);
}

/// The templates of a category, in catalog order.
pub fn filter_by_category<'a>(catalog: &'a StoreCatalog, category: &str) -> (r: Vec<&'a TemplateMeta>)
    ensures
        r@.map_values(|t: &TemplateMeta| *t) == select(catalog.templates@, |t: TemplateMeta| t.category@ == category@),
{
    let ghost keep = |t: TemplateMeta| t.category@ == category@;
    let mut r: Vec<&'a TemplateMeta> = Vec::new();
    let mut i: usize = 0;
    while i < catalog.templates.len()
        invariant
            i <= catalog.templates.len(),
            keep == (|t: TemplateMeta| t.category@ == category@),
            r@.map_values(|t: &TemplateMeta| *t) == select(catalog.templates@.take(i as int), keep),
        decreases catalog.templates.len() - i,
    {
        let ghost ts = catalog.templates@.take(i + 1);
        assert(ts.drop_last() == catalog.templates@.take(i as int));
        let t = &catalog.templates[i];
        if str_eq(t.category.as_str(), category) {
            r.push(t);
            assert(r@.map_values(|t: &TemplateMeta| *t) =~= select(catalog.templates@.take(i as int), keep).push(*t));
        }
        i = i + 1;
    }
    assert(catalog.templates@.take(catalog.templates.len() as int) == catalog.templates@);
    r
}

/// The runtime a template names.
fn parse_runtime_str(s: &str) -> (r: Runtime)
    ensures
        r == runtime_named(s@),
{
    crate::runtime::parse_runtime(s)
}

/// The variables installing a template sets: each hint's default, or an
/// empty value for a required hint without one, in order.
pub open spec fn template_env(hints: Seq<TemplateEnvHint>) -> Seq<(Seq<char>, Seq<char>)>
    decreases hints.len(),
{
    if hints.len() == 0 {
        seq![]
    } else {
        let prev = template_env(hints.drop_last());
        let h = hints.last();
        match h.default {
            Some(d) => prev.push((h.key@, d@)),
            None => if h.required {
                prev.push((h.key@, seq![]))
            } else {
                prev
            },
        }
    }
}

/// What installing a template creates: a project with the template's name,
/// runtime and entrypoint, and its environment variables.
pub struct TemplateInstall {
    pub name: String,
    pub runtime: Runtime,
    pub entrypoint: String,
    pub env_vars: Vec<(String, String)>,
}

/// The pairs of a list of variables, as views.
pub open spec fn pair_views(v: Seq<(String, String)>) -> Seq<(Seq<char>, Seq<char>)> {
    v.map_values(|p: (String, String)| (p.0@, p.1@))
}

/// The project and variables that installing a template records.
pub fn template_install_plan(template: &TemplateMeta) -> (plan: TemplateInstall)
    ensures
        plan.name@ == template.name@,
        plan.runtime == runtime_named(template.runtime@),
        plan.entrypoint@ == template.entrypoint@,
        pair_views(plan.env_vars@) == template_env(template.env_vars@),
{
    let mut env_vars: Vec<(String, String)> = Vec::new();
    let mut i: usize = 0;
    while i < template.env_vars.len()
        invariant
            i <= template.env_vars.len(),
            pair_views(env_vars@) == template_env(template.env_vars@.take(i as int)),
        decreases template.env_vars.len() - i,
    {
        let ghost hs = template.env_vars@.take(i + 1);
        assert(hs.drop_last() == template.env_vars@.take(i as int));
        let h = &template.env_vars[i];
        match &h.default {
            Some(d) => {
                env_vars.push((h.key.clone(), d.clone()));
                assert(pair_views(env_vars@) =~= template_env(template.env_vars@.take(i as int)).push((h.key@, d@)));
            },
            None => {
                if h.required {
                    env_vars.push((h.key.clone(), String::new()));
                    assert(pair_views(env_vars@) =~= template_env(template.env_vars@.take(i as int)).push((h.key@, seq![])));
                }
            },
        }
        i = i + 1;
    }
    assert(template.env_vars@.take(template.env_vars.len() as int) == template.env_vars@);
    TemplateInstall {
        name: template.name.clone(),
        runtime: parse_runtime_str(template.runtime.as_str()),
        entrypoint: template.entrypoint.clone(),
        env_vars,
    }
}

} // verus!
