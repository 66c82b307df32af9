//! A view for exploring the catalogued components: a sidebar of names and
//! a card per previewed component.

use vstd::prelude::*;

use crate::registry::{
    previewed_of, AllComponents, ComponentMetadata, ComponentMetadataView, PreviewId,
};

verus! {

/// A handle to a focusable node of the UI tree.
#[derive(Clone, Copy, Debug, PartialEq, Eq, Structural)]
pub struct FocusHandle(pub u64);

/// The component-exploring view: it owns a focus handle and renders the
/// catalog it is shown.
pub struct ComponentPreview {
    pub focus_handle: FocusHandle,
}

/// What a component's preview card shows. A component named
/// `path::to::Widget` is titled `Widget` with source `path::to`; a name
/// without `::` yields neither title nor source.
pub struct PreviewCard {
    pub title: Option<String>,
    pub source: Option<String>,
    pub description: Option<String>,
    pub preview: Option<PreviewId>,
}

/// The mathematical form of a preview card.
pub ghost struct PreviewCardView {
    pub title: Option<Seq<char>>,
    pub source: Option<Seq<char>>,
    pub description: Option<Seq<char>>,
    pub preview: Option<PreviewId>,
}

impl View for PreviewCard {
    type V = PreviewCardView;

    open spec fn view(&self) -> PreviewCardView {
        PreviewCardView {
            title: match self.title {
                Some(t) => Some(t@),
                None => None,
            },
            source: match self.source {
                Some(s) => Some(s@),
                None => None,
            },
            description: match self.description {
                Some(d) => Some(d@),
                None => None,
            },
            preview: self.preview,
        }
    }
}

/// The start of the last `::` at or before position `d`.
pub open spec fn last_colons_from(s: Seq<char>, d: int) -> Option<int>
    decreases d + 1,
{
    if d < 0 {
        None
    } else if d + 1 < s.len() && s[d] == ':' && s[d + 1] == ':' {
        Some(d)
    } else {
        last_colons_from(s, d - 1)
    }
}

/// The start of the last `::` in the name, if any.
pub open spec fn last_colons(s: Seq<char>) -> Option<int> {
    last_colons_from(s, s.len() - 2)
}

/// The card a catalogued component renders to.
pub open spec fn card_of(m: ComponentMetadataView) -> PreviewCardView {
    match last_colons(m.name) {
        Some(d) => PreviewCardView {
            title: Some(m.name.subrange(d + 2, m.name.len() as int)),
            source: Some(m.name.subrange(0, d)),
            description: m.description,
            preview: m.preview,
        },
        None => PreviewCardView {
            title: None,
            source: None,
            description: m.description,
            preview: m.preview,
        },
    }
}

/// Copy an optional text.
fn clone_opt_string(o: &Option<String>) -> (r: Option<String>)
    ensures
        r is Some <==> o is Some,
        r matches Some(s) ==> (o matches Some(t) && s@ == t@),
{
    match o {
        Some(s) => Some(s.clone()),
        None => None,
    }
}

/// The start of the last `::` in the text, or its length if there is none.
fn find_last_colons(name: &str) -> (r: Option<usize>)
    ensures
        r is Some <==> last_colons(name@) is Some,
        r matches Some(d) ==> last_colons(name@) == Some(d as int) && d + 2 <= name@.len(),
{
    let n = name.unicode_len();
    if n < 2 {
        return None;
    }
    let mut d = n - 2;
    loop
        invariant
            n == name@.len(),
            n >= 2,
            d <= n - 2,
            last_colons(name@) == last_colons_from(name@, d as int),
        decreases d,
    {
        if name.get_char(d) == ':' && name.get_char(d + 1) == ':' {
            return Some(d);
        }
        if d == 0 {
            proof {
                assert(last_colons_from(name@, -1) is None);
            }
            return None;
        }
        d = d - 1;
    }
}

impl ComponentPreview {
    /// A fresh component-exploring view holding the given focus handle.
    pub fn new(focus_handle: FocusHandle) -> (r: ComponentPreview)
        ensures
            r.focus_handle == focus_handle,
    {
        ComponentPreview { focus_handle }
    }

    /// The view's focus handle.
    pub fn focus_handle(&self) -> (r: FocusHandle)
        ensures
            r == self.focus_handle,
    {
        self.focus_handle
    }

    /// One sidebar row: the component's name.
    pub fn render_sidebar_entry(&self, component: &ComponentMetadata) -> (r: String)
        ensures
            r@ == component@.name,
    {
        component.name().clone()
    }

    /// The sidebar: every catalogued component's name, in catalog order.
    pub fn render_sidebar(&self, all: &AllComponents) -> (r: Vec<String>)
        ensures
            r@.len() == all.0@.len(),
            forall|i: int| 0 <= i < r@.len() ==> (#[trigger] r@[i])@ == all.0@[i].1@.name,
    {
        let entries = all.all();
        let n = entries.len();
        let mut r: Vec<String> = Vec::new();
        let mut i: usize = 0;
        while i < n
            invariant
                i <= n,
                n == entries@.len(),
                entries@.len() == all.0@.len(),
                forall|j: int| 0 <= j < entries@.len() ==> (#[trigger] entries@[j])@ == all.0@[j].1@,
                r@.len() == i,
                forall|j: int| 0 <= j < i ==> (#[trigger] r@[j])@ == all.0@[j].1@.name,
            decreases n - i,
        {
            r.push(self.render_sidebar_entry(entries[i]));
            i = i + 1;
        }
        r
    }

    /// The preview card of one component: its name split at the last `::`
    /// into source and title, with its description and preview.
    pub fn render_preview(&self, component: &ComponentMetadata) -> (r: PreviewCard)
        ensures
            r@ == card_of(component@),
    {
        let name = component.name().as_str();
        let description = clone_opt_string(component.description());
        let preview = component.preview();
        proof {
            if component@.description is Some {
                assert(description matches Some(s) && component@.description == Some(s@));
            } else {
                assert(description is None);
            }
        }
        match find_last_colons(name) {
            Some(d) => {
                let n = name.unicode_len();
                let source = name.substring_char(0, d).to_owned();
                let title = name.substring_char(d + 2, n).to_owned();
                let card = PreviewCard {
                    title: Some(title),
                    source: Some(source),
                    description,
                    preview,
                };
                proof {
                    assert(name@ == component@.name);
                    assert(last_colons(component@.name) == Some(d as int));
                    assert(card@.description == component@.description);
                    assert(card@.title == card_of(component@).title);
                    assert(card@.source == card_of(component@).source);
                    assert(card@ == card_of(component@));
                }
                card
            },
            None => {
                let card = PreviewCard { title: None, source: None, description, preview };
                proof {
                    assert(card@.description == component@.description);
                    assert(card@ == card_of(component@));
                }
                card
            },
        }
    }

    /// A card for every catalogued component that has a preview, in
    /// catalog order.
    pub fn render_previews(&self, all: &AllComponents) -> (r: Vec<PreviewCard>)
        ensures
            r@.map_values(|c: PreviewCard| c@) == previewed_of(all.0@).map_values(
                |m: ComponentMetadataView| card_of(m),
            ),
    {
        let entries = all.all_previews();
        let ghost metas = previewed_of(all.0@);
        let n = entries.len();
        proof {
            assert(entries@.map_values(|m: &ComponentMetadata| m@).len() == metas.len());
        }
        let mut r: Vec<PreviewCard> = Vec::new();
        let mut i: usize = 0;
        while i < n
            invariant
                i <= n,
                n == entries@.len(),
                entries@.map_values(|m: &ComponentMetadata| m@) == metas,
                r@.len() == i,
                forall|j: int| 0 <= j < i ==> (#[trigger] r@[j])@ == card_of(metas[j]),
            decreases n - i,
        {
            proof {
                assert(entries@.map_values(|m: &ComponentMetadata| m@)[i as int] == entries@[i as int]@);
            }
            r.push(self.render_preview(entries[i]));
            i = i + 1;
        }
        proof {
            assert(r@.map_values(|c: PreviewCard| c@) =~= metas.map_values(
                |m: ComponentMetadataView| card_of(m),
            ));
        }
        r
    }
}

} // verus!
