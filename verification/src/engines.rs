//! One instance of each backend behind a single interface.

use crate::backend::{
    enumerates, handlebars_template_names, lemma_extensions_differ, names_view,
    tera_template_names, Engine, HANDLEBARS_EXT, TERA_EXT,
};
use crate::registry::TemplateInfo;
use handlebars::Handlebars;
use tera::Tera;
use vstd::prelude::*;

verus! {

/// One of the backends.
#[derive(Clone, Copy, Debug, PartialEq, Eq, Structural)]
pub enum Owner {
    /// The Tera backend.
    Tera,
    /// The Handlebars backend.
    Handlebars,
}

/// The backend that owns the templates with extension `ext`, if there is
/// one.
pub open spec fn owner_of(ext: Seq<char>) -> Option<Owner> {
    if ext == TERA_EXT@ {
        Some(Owner::Tera)
    } else if ext == HANDLEBARS_EXT@ {
        Some(Owner::Handlebars)
    } else {
        None
    }
}

/// The backend that owns the templates with extension `ext`, if there is
/// one.
pub fn owner(ext: &str) -> (owner: Option<Owner>)
    ensures
        owner == owner_of(ext@),
{
    if *ext == *Tera::ext() {
        Some(Owner::Tera)
    } else if *ext == *Handlebars::ext() {
        Some(Owner::Handlebars)
    } else {
        None
    }
}

/// Access to the templating backends.
pub struct Engines {
    /// The Tera backend.
    pub tera: Tera,
    /// The Handlebars backend.
    pub handlebars: Handlebars<'static>,
}

/// Each of `names` together with the extension `ext`, in the same order.
pub open spec fn tagged(names: Seq<Seq<char>>, ext: Seq<char>) -> Seq<(Seq<char>, Seq<char>)> {
    names.map_values(|name: Seq<char>| (name, ext))
}

/// What a list of template names and extensions stands for.
pub open spec fn listing_view(listing: Seq<(String, &'static str)>) -> Seq<
    (Seq<char>, Seq<char>),
> {
    listing.map_values(|entry: (String, &'static str)| (entry.0@, entry.1@))
}

/// Appends to `listing` each of `names` together with the extension `ext`.
pub fn list_templates(
    listing: &mut Vec<(String, &'static str)>,
    names: &Vec<String>,
    ext: &'static str,
)
    ensures
        listing_view(final(listing)@) == listing_view(old(listing)@) + tagged(
            names_view(names@),
            ext@,
        ),
{
    for i in 0..names.len()
        invariant
            listing_view(listing@) == listing_view(old(listing)@) + tagged(
                names_view(names@).take(i as int),
                ext@,
            ),
    {
        let ghost before = listing@;
        listing.push((names[i].clone(), ext));
        assert(listing_view(listing@) =~= listing_view(before).push((names[i as int]@, ext@)));
        assert(names_view(names@).take(i + 1) =~= names_view(names@).take(i as int).push(
            names[i as int]@,
        ));
        assert(listing_view(listing@) =~= listing_view(old(listing)@) + tagged(
            names_view(names@).take(i + 1),
            ext@,
        ));
    }
    assert(names_view(names@).take(names.len() as int) =~= names_view(names@));
}

/// A listing made of an enumeration of each backend's templates, tagged with
/// the backend's extension, names no template twice and holds exactly the
/// pairs of a name and the extension of a backend that holds it.
pub proof fn lemma_listing(
    tera: Seq<Seq<char>>,
    handlebars: Seq<Seq<char>>,
    tera_held: Set<Seq<char>>,
    handlebars_held: Set<Seq<char>>,
)
    requires
        enumerates(tera, tera_held),
        enumerates(handlebars, handlebars_held),
    ensures
        (tagged(tera, TERA_EXT@) + tagged(handlebars, HANDLEBARS_EXT@)).no_duplicates(),
        forall|name: Seq<char>, ext: Seq<char>|
            (tagged(tera, TERA_EXT@) + tagged(handlebars, HANDLEBARS_EXT@)).contains((name, ext))
                <==> (ext == TERA_EXT@ && tera_held.contains(name)) || (ext == HANDLEBARS_EXT@
                && handlebars_held.contains(name)),
{
    lemma_extensions_differ();
    let first = tagged(tera, TERA_EXT@);
    let second = tagged(handlebars, HANDLEBARS_EXT@);
    let all = first + second;
    assert forall|name: Seq<char>, ext: Seq<char>|
        all.contains((name, ext)) <==> (ext == TERA_EXT@ && tera_held.contains(name)) || (ext
            == HANDLEBARS_EXT@ && handlebars_held.contains(name)) by {
        if all.contains((name, ext)) {
            let i = choose|i: int| 0 <= i < all.len() && all[i] == (name, ext);
            if i < first.len() {
                assert(tera[i] == name);
                assert(tera.to_set().contains(name));
            } else {
                assert(handlebars[i - first.len()] == name);
                assert(handlebars.to_set().contains(name));
            }
        }
        if ext == TERA_EXT@ && tera_held.contains(name) {
            assert(tera.to_set().contains(name));
            let i = choose|i: int| 0 <= i < tera.len() && tera[i] == name;
            assert(all[i] == (name, ext));
        }
        if ext == HANDLEBARS_EXT@ && handlebars_held.contains(name) {
            assert(handlebars.to_set().contains(name));
            let i = choose|i: int| 0 <= i < handlebars.len() && handlebars[i] == name;
            assert(all[first.len() + i] == (name, ext));
        }
    }
}

/// Routing goes by the extension: under Tera's extension only Tera is ever
/// asked, under Handlebars' only Handlebars, each exactly when it holds the
/// template and whatever the other backend holds; under any other extension
/// nobody is asked.
pub proof fn lemma_route_by_extension(engines: Engines, name: Seq<char>, ext: Seq<char>)
    ensures
        ext == TERA_EXT@ ==> engines.route_of(name, ext) == if engines.tera.names().contains(
            name,
        ) {
            Some(Owner::Tera)
        } else {
            None
        },
        ext == HANDLEBARS_EXT@ ==> engines.route_of(name, ext)
            == if engines.handlebars.names().contains(name) {
            Some(Owner::Handlebars)
        } else {
            None
        },
        ext != TERA_EXT@ && ext != HANDLEBARS_EXT@ ==> engines.route_of(name, ext) is None,
        engines.route_of(name, ext) is Some ==> engines.route_of(name, ext) == owner_of(ext),
{
    lemma_extensions_differ();
}

impl Engines {
    /// The extensions of the backends, in the order in which the backends
    /// are consulted.
    pub const ENABLED_EXTENSIONS: [&'static str; 2] = [TERA_EXT, HANDLEBARS_EXT];

    /// The backend that is to render the template `name` with extension
    /// `ext`: the owner of the extension, provided that it holds the
    /// template; otherwise nobody.
    pub open spec fn route_of(&self, name: Seq<char>, ext: Seq<char>) -> Option<Owner> {
        match owner_of(ext) {
            Some(Owner::Tera) => if self.tera.names().contains(name) {
                Some(Owner::Tera)
            } else {
                None
            },
            Some(Owner::Handlebars) => if self.handlebars.names().contains(name) {
                Some(Owner::Handlebars)
            } else {
                None
            },
            None => None,
        }
    }

    /// Whether the backend with extension `ext` holds a template `name`.
    pub open spec fn holds(&self, name: Seq<char>, ext: Seq<char>) -> bool {
        self.route_of(name, ext) is Some
    }

    /// Puts the backends together once each has been initialized: there are
    /// engines exactly when no backend failed.
    pub fn assemble(tera: Option<Tera>, handlebars: Option<Handlebars<'static>>) -> (engines:
        Option<Engines>)
        ensures
            engines == match (tera, handlebars) {
                (Some(tera), Some(handlebars)) => Some((Engines { tera, handlebars })),
                _ => None::<Engines>,
            },
    {
        let tera = match tera {
            Some(tera) => tera,
            None => return None,
        };
        let handlebars = match handlebars {
            Some(handlebars) => handlebars,
            None => return None,
        };
        Some(Engines { tera, handlebars })
    }

    /// Decides who renders the template `name` that `info` describes: the
    /// backend that `info` names as the owner, provided that it holds the
    /// template. With `None` nothing is rendered. Otherwise the caller asks
    /// that backend, and no other, for the template `name`, and what the
    /// backend answers goes through [`crate::backend::rendered`].
    pub fn route(&self, name: &str, info: &TemplateInfo) -> (owner: Option<Owner>)
        ensures
            owner == self.route_of(name@, info.engine_ext@),
    {
        match self::owner(info.engine_ext) {
            Some(Owner::Tera) => if self.tera.holds(name) {
                Some(Owner::Tera)
            } else {
                None
            },
            Some(Owner::Handlebars) => if self.handlebars.holds(name) {
                Some(Owner::Handlebars)
            } else {
                None
            },
            None => None,
        }
    }

    /// Lists the templates of all backends, each with the extension of the
    /// backend that holds it: first those of Tera, then those of Handlebars,
    /// each backend's templates once and in the order the backend gives
    /// them.
    pub fn templates(&self) -> (listing: Vec<(String, &'static str)>)
        ensures
            exists|tera: Seq<Seq<char>>, handlebars: Seq<Seq<char>>|
                enumerates(tera, self.tera.names()) && enumerates(
                    handlebars,
                    self.handlebars.names(),
                ) && listing_view(listing@) == tagged(tera, TERA_EXT@) + tagged(
                    handlebars,
                    HANDLEBARS_EXT@,
                ),
            listing_view(listing@).no_duplicates(),
            forall|name: Seq<char>, ext: Seq<char>|
                listing_view(listing@).contains((name, ext)) <==> self.holds(name, ext),
    {
        let mut listing: Vec<(String, &'static str)> = Vec::new();
        let tera = tera_template_names(&self.tera);
        list_templates(&mut listing, &tera, Tera::ext());
        let handlebars = handlebars_template_names(&self.handlebars);
        list_templates(&mut listing, &handlebars, Handlebars::ext());
        proof {
            let t = names_view(tera@);
            let h = names_view(handlebars@);
            assert(listing_view(listing@) =~= tagged(t, TERA_EXT@) + tagged(h, HANDLEBARS_EXT@));
            lemma_listing(t, h, self.tera.names(), self.handlebars.names());
            lemma_extensions_differ();
        }
        listing
    }
}

} // verus!
