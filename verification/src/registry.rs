//! The template registry: what is known of each template before any backend
//! has seen it, and the choice of the templates that a backend is to load.

use std::path::PathBuf;
use vstd::prelude::*;

verus! {

/// `std::path::PathBuf`, carried through as an opaque value.
#[verifier::external_type_specification]
#[verifier::external_body]
pub struct ExPathBuf(PathBuf);

/// `str`'s `==`: two string slices are equal exactly when they hold the same
/// characters.
pub assume_specification[ <str as PartialEq>::eq ](a: &str, b: &str) -> (r: bool)
    ensures
        r == (a@ == b@),
;

/// What the registry records of one template.
pub struct TemplateInfo {
    /// The file that holds the template's source, if there is one.
    pub path: Option<PathBuf>,
    /// The extension of the backend that owns the template.
    pub engine_ext: &'static str,
}

/// The name and path under which `entry` is handed to the backend with
/// extension `ext`: `None` if another backend owns it or it has no file.
pub open spec fn named_path(entry: (String, TemplateInfo), ext: Seq<char>) -> Option<
    (Seq<char>, PathBuf),
> {
    if entry.1.engine_ext@ == ext && entry.1.path is Some {
        Some((entry.0@, entry.1.path->0))
    } else {
        None
    }
}

/// The templates of the registry that the backend with extension `ext` is to
/// load, in the registry's order.
pub open spec fn named_templates_of(templates: Seq<(String, TemplateInfo)>, ext: Seq<char>) -> Seq<
    (Seq<char>, PathBuf),
> {
    templates.filter_map(|entry: (String, TemplateInfo)| named_path(entry, ext))
}

/// No name occurs twice in the registry, as in a map from names to what is
/// known of each template.
pub open spec fn names_distinct(templates: Seq<(String, TemplateInfo)>) -> bool {
    forall|i: int, j: int|
        0 <= i < j < templates.len() ==> templates[i].0@ != templates[j].0@
}

/// From a registry in which no name occurs twice, no backend is handed a
/// name twice.
pub proof fn lemma_named_templates_distinct(templates: Seq<(String, TemplateInfo)>, ext: Seq<char>)
    requires
        names_distinct(templates),
    ensures
        forall|i: int, j: int|
            0 <= i < j < named_templates_of(templates, ext).len() ==> named_templates_of(
                templates,
                ext,
            )[i].0 != named_templates_of(templates, ext)[j].0,
    decreases templates.len(),
{
    let choice = |entry: (String, TemplateInfo)| named_path(entry, ext);
    if templates.len() > 0 {
        let rest = templates.drop_last();
        let last = templates.last();
        let chosen = rest.filter_map(choice);
        assert(names_distinct(rest)) by {
            assert forall|i: int, j: int| 0 <= i < j < rest.len() implies rest[i].0@
                != rest[j].0@ by {
                assert(rest[i] == templates[i] && rest[j] == templates[j]);
            }
        }
        lemma_named_templates_distinct(rest, ext);
        assert(chosen == named_templates_of(rest, ext));
        assert(named_templates_of(templates, ext) == match choice(last) {
            Some(named) => chosen + seq![named],
            None => chosen,
        });
        assert forall|i: int| 0 <= i < chosen.len() implies chosen[i].0 != last.0@ by {
            assert(chosen.contains(chosen[i]));
            rest.lemma_filter_map_contains(choice, chosen[i]);
            let entry = choose|entry: (String, TemplateInfo)| #[trigger]
                rest.contains(entry) && choice(entry) == Some(chosen[i]);
            let k = choose|k: int| 0 <= k < rest.len() && rest[k] == entry;
            assert(templates[k] == entry);
        }
    }
}

/// What a list of borrowed names and paths stands for.
pub open spec fn named_view(named: Seq<(&str, &PathBuf)>) -> Seq<(Seq<char>, PathBuf)> {
    named.map_values(|pair: (&str, &PathBuf)| (pair.0@, *pair.1))
}

/// Chooses from the registry the templates that the backend with extension
/// `ext` owns and that have a file, each with its name and its path.
pub fn named_templates<'a>(templates: &'a Vec<(String, TemplateInfo)>, ext: &str) -> (named: Vec<
    (&'a str, &'a PathBuf),
>)
    ensures
        named_view(named@) == named_templates_of(templates@, ext@),
{
    let mut named: Vec<(&'a str, &'a PathBuf)> = Vec::new();
    let ghost choice = |entry: (String, TemplateInfo)| named_path(entry, ext@);
    for i in 0..templates.len()
        invariant
            choice == (|entry: (String, TemplateInfo)| named_path(entry, ext@)),
            named_view(named@) == templates@.take(i as int).filter_map(choice),
    {
        proof {
            templates@.lemma_filter_map_take_succ(choice, i as int);
        }
        let entry = &templates[i];
        let ghost before = named@;
        if *entry.1.engine_ext == *ext {
            if let Some(path) = &entry.1.path {
                named.push((entry.0.as_str(), path));
                assert(named_view(named@) =~= named_view(before).push((entry.0@, *path)));
            }
        }
    }
    proof {
        templates@.lemma_take_len();
    }
    named
}

} // verus!
