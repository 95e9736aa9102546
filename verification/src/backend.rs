//! The templating backends and the capability they share.
//!
//! Both backends are outside libraries. What this crate relies on of them is
//! stated here, once per call, over the set of template names that an
//! instance holds. Rendering itself is not called from this crate: a backend
//! may unwind or exhaust the stack on some templates, and nothing here could
//! rule those out. The crate decides which backend is to be asked and what
//! becomes of its answer; the caller makes the call in between.

use handlebars::Handlebars;
use tera::Tera;
use vstd::prelude::*;

verus! {

/// `tera::Tera`, an instance of the Tera backend.
#[verifier::external_type_specification]
#[verifier::external_body]
pub struct ExTera(Tera);

/// `handlebars::Handlebars`, a registry of the Handlebars backend.
#[verifier::external_type_specification]
#[verifier::external_body]
pub struct ExHandlebars<'reg>(Handlebars<'reg>);

/// The names of the templates that a Tera instance holds.
pub uninterp spec fn tera_names(tera: Tera) -> Set<Seq<char>>;

/// The names of the templates that a Handlebars registry holds.
pub uninterp spec fn handlebars_names(registry: Handlebars<'static>) -> Set<Seq<char>>;

/// The character sequences of a list of strings.
pub open spec fn names_view(names: Seq<String>) -> Seq<Seq<char>> {
    names.map_values(|name: String| name@)
}

/// `names` lists each member of `held` exactly once.
pub open spec fn enumerates(names: Seq<Seq<char>>, held: Set<Seq<char>>) -> bool {
    names.no_duplicates() && names.to_set() == held
}

/// `Tera::get_template`, asked only whether it finds the template: it does
/// exactly when the instance holds a template of that name.
#[verifier::external_body]
fn tera_has_template(tera: &Tera, name: &str) -> (found: bool)
    ensures
        found == tera_names(*tera).contains(name@),
{
    tera.get_template(name).is_ok()
}

/// `Tera::get_template_names`: the names of the templates that the instance
/// holds, each once, in no particular order.
#[verifier::external_body]
pub(crate) fn tera_template_names(tera: &Tera) -> (names: Vec<String>)
    ensures
        enumerates(names_view(names@), tera_names(*tera)),
{
    tera.get_template_names().map(|name| name.to_string()).collect()
}

/// `Handlebars::get_template`, asked only whether it finds the template: it
/// does exactly when the registry holds a template of that name.
#[verifier::external_body]
fn handlebars_has_template(registry: &Handlebars<'static>, name: &str) -> (found: bool)
    ensures
        found == handlebars_names(*registry).contains(name@),
{
    registry.get_template(name).is_some()
}

/// `Handlebars::get_templates`: the names of the templates that the registry
/// holds, each once, in no particular order.
#[verifier::external_body]
pub(crate) fn handlebars_template_names(registry: &Handlebars<'static>) -> (names: Vec<String>)
    ensures
        enumerates(names_view(names@), handlebars_names(*registry)),
{
    registry.get_templates().keys().map(|name| name.clone()).collect()
}

/// What a render call hands back for each outcome of the backend: the text
/// of a successful rendering, and nothing for a failure.
pub fn rendered<E>(outcome: Result<String, E>) -> (text: Option<String>)
    ensures
        text == match outcome {
            Ok(rendered) => Some(rendered),
            Err(_) => None::<String>,
        },
{
    match outcome {
        Ok(rendered) => Some(rendered),
        Err(_) => None,
    }
}

/// The extension of the template files that Tera owns.
pub const TERA_EXT: &'static str = "tera";

/// The extension of the template files that Handlebars owns.
pub const HANDLEBARS_EXT: &'static str = "hbs";

/// The two backends own different extensions.
pub proof fn lemma_extensions_differ()
    ensures
        TERA_EXT@ != HANDLEBARS_EXT@,
{
    reveal_strlit("tera");
    reveal_strlit("hbs");
    assert(TERA_EXT@.len() == 4);
    assert(HANDLEBARS_EXT@.len() == 3);
}

/// What every templating backend offers to this crate.
pub trait Engine: Sized {
    /// The extension of the template files that the backend owns.
    spec fn ext_spec() -> Seq<char>;

    /// The extension of the template files that the backend owns.
    fn ext() -> (ext: &'static str)
        ensures
            ext@ == Self::ext_spec(),
    ;

    /// The names of the templates that the backend holds.
    spec fn names(&self) -> Set<Seq<char>>;

    /// Whether the backend holds a template `name`. A backend is asked to
    /// render only what it holds.
    fn holds(&self, name: &str) -> (held: bool)
        ensures
            held == self.names().contains(name@),
    ;
}

impl Engine for Tera {
    open spec fn ext_spec() -> Seq<char> {
        TERA_EXT@
    }

    fn ext() -> (ext: &'static str) {
        TERA_EXT
    }

    open spec fn names(&self) -> Set<Seq<char>> {
        tera_names(*self)
    }

    fn holds(&self, name: &str) -> (held: bool) {
        tera_has_template(self, name)
    }
}

impl Engine for Handlebars<'static> {
    open spec fn ext_spec() -> Seq<char> {
        HANDLEBARS_EXT@
    }

    fn ext() -> (ext: &'static str) {
        HANDLEBARS_EXT
    }

    open spec fn names(&self) -> Set<Seq<char>> {
        handlebars_names(*self)
    }

    fn holds(&self, name: &str) -> (held: bool) {
        handlebars_has_template(self, name)
    }
}

} // verus!
