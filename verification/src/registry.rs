//! The component catalog: a registry of UI building blocks and their
//! previews.
//!
//! The registry is an explicit value with an init-once lifecycle: it is
//! built at startup from registration lists and then read. Previews are
//! identified by number; what a preview renders lives outside the harness.

use vstd::prelude::*;

verus! {

/// Stands for a rendered element. The catalog tracks only its identity;
/// rendering happens outside the harness.
#[derive(Clone, Copy, Debug, PartialEq, Eq, Structural)]
pub struct AnyElement {
    pub id: u64,
}

/// Identifies a registered preview function.
#[derive(Clone, Copy, Debug, PartialEq, Eq, Structural)]
pub struct PreviewId(pub u64);

/// A catalogued UI building block.
pub trait Component {
    /// The scope the component is grouped under, if any.
    fn scope() -> Option<String>;

    /// The component's name; the catalog is keyed by it.
    fn name() -> String;

    /// A short description, if any.
    fn description() -> (r: Option<String>)
        ensures
            r is None,
    {
        None
    }
}

/// A catalogued component that also registers a preview.
pub trait ComponentPreview: Component {
    /// The preview registered under the component's name.
    fn preview() -> PreviewId;
}

/// One registered component: what `register_component` records of it.
pub struct ComponentEntry {
    pub scope: Option<String>,
    pub name: String,
    pub description: Option<String>,
}

/// The mathematical form of a registered component.
pub ghost struct ComponentEntryView {
    pub scope: Option<Seq<char>>,
    pub name: Seq<char>,
    pub description: Option<Seq<char>>,
}

impl View for ComponentEntry {
    type V = ComponentEntryView;

    open spec fn view(&self) -> ComponentEntryView {
        ComponentEntryView {
            scope: match self.scope {
                Some(s) => Some(s@),
                None => None,
            },
            name: self.name@,
            description: match self.description {
                Some(d) => Some(d@),
                None => None,
            },
        }
    }
}

/// The registry of components and previews. Registrations accumulate in
/// order; previews are keyed by component name, each name at most once.
pub struct ComponentRegistry {
    pub components: Vec<ComponentEntry>,
    pub previews: Vec<(String, PreviewId)>,
}

/// The map a preview list stands for. Later entries win, though a
/// well-formed registry never holds a name twice.
pub open spec fn previews_map(s: Seq<(String, PreviewId)>) -> Map<Seq<char>, PreviewId>
    decreases s.len(),
{
    if s.len() == 0 {
        Map::empty()
    } else {
        previews_map(s.drop_last()).insert(s.last().0@, s.last().1)
    }
}

/// A name is in the map exactly when some entry holds it.
pub proof fn lemma_previews_map_dom(s: Seq<(String, PreviewId)>, k: Seq<char>)
    ensures
        previews_map(s).dom().contains(k) <==> exists|i: int| 0 <= i < s.len() && s[i].0@ == k,
    decreases s.len(),
{
    if s.len() != 0 {
        lemma_previews_map_dom(s.drop_last(), k);
        if previews_map(s).dom().contains(k) && s.last().0@ != k {
            let i = choose|i: int| 0 <= i < s.drop_last().len() && s.drop_last()[i].0@ == k;
            assert(s[i].0@ == k);
        }
        if exists|i: int| 0 <= i < s.len() && s[i].0@ == k {
            let i = choose|i: int| 0 <= i < s.len() && s[i].0@ == k;
            if i < s.len() - 1 {
                assert(s.drop_last()[i].0@ == k);
            }
        }
    }
}

/// With no name twice, the entry at any index gives the map's value there.
pub proof fn lemma_previews_map_index(s: Seq<(String, PreviewId)>, i: int)
    requires
        forall|p: int, q: int| 0 <= p < q < s.len() ==> s[p].0@ != s[q].0@,
        0 <= i < s.len(),
    ensures
        previews_map(s).dom().contains(s[i].0@),
        previews_map(s)[s[i].0@] == s[i].1,
    decreases s.len(),
{
    if i == s.len() - 1 {
    } else {
        lemma_previews_map_index(s.drop_last(), i);
        assert(s.drop_last()[i] == s[i]);
        assert(s.last().0@ != s[i].0@);
    }
}

/// Replacing the entry that holds a name updates the map there alone.
pub proof fn lemma_previews_map_update(s: Seq<(String, PreviewId)>, i: int, kv: (String, PreviewId))
    requires
        forall|p: int, q: int| 0 <= p < q < s.len() ==> s[p].0@ != s[q].0@,
        0 <= i < s.len(),
        kv.0@ == s[i].0@,
    ensures
        previews_map(s.update(i, kv)) =~= previews_map(s).insert(kv.0@, kv.1),
    decreases s.len(),
{
    let t = s.update(i, kv);
    if i == s.len() - 1 {
        assert(t.drop_last() =~= s.drop_last());
    } else {
        lemma_previews_map_update(s.drop_last(), i, kv);
        assert(t.drop_last() =~= s.drop_last().update(i, kv));
        assert(s.drop_last()[i] == s[i]);
        assert(t.last() == s.last());
        assert(s.last().0@ != s[i].0@);
    }
}

impl ComponentRegistry {
    /// Each preview name occurs at most once.
    pub open spec fn wf(&self) -> bool {
        forall|p: int, q: int|
            0 <= p < q < self.previews@.len() ==> self.previews@[p].0@ != self.previews@[q].0@
    }

    /// The previews, as the map they stand for.
    pub open spec fn previews_view(&self) -> Map<Seq<char>, PreviewId> {
        previews_map(self.previews@)
    }

    /// The registered components, as views, in registration order.
    pub open spec fn components_view(&self) -> Seq<ComponentEntryView> {
        self.components@.map_values(|e: ComponentEntry| e@)
    }

    /// An empty registry.
    pub fn new() -> (r: ComponentRegistry)
        ensures
            r.wf(),
            r.components@.len() == 0,
            r.previews@.len() == 0,
    {
        ComponentRegistry { components: Vec::new(), previews: Vec::new() }
    }

    /// Whether each preview name occurs at most once, as a run-time check
    /// for callers outside the proofs.
    pub fn is_wf(&self) -> (r: bool)
        ensures
            r == self.wf(),
    {
        let n = self.previews.len();
        let mut i: usize = 0;
        while i < n
            invariant
                i <= n,
                n == self.previews@.len(),
                forall|p: int, q: int|
                    0 <= p < q < i ==> self.previews@[p].0@ != self.previews@[q].0@,
            decreases n - i,
        {
            let mut j: usize = 0;
            while j < i
                invariant
                    j <= i < n,
                    n == self.previews@.len(),
                    forall|p: int, q: int|
                        0 <= p < q < i ==> self.previews@[p].0@ != self.previews@[q].0@,
                    forall|p: int| 0 <= p < j ==> self.previews@[p].0@ != self.previews@[i as int].0@,
                decreases i - j,
            {
                if crate::keystroke::str_eq(self.previews[j].0.as_str(), self.previews[i].0.as_str())
                {
                    return false;
                }
                j = j + 1;
            }
            i = i + 1;
        }
        true
    }
}

/// Identifies a catalogued component by its name.
pub struct ComponentId(pub String);

/// What the catalog knows of one component.
pub struct ComponentMetadata {
    pub name: String,
    pub scope: Option<String>,
    pub description: Option<String>,
    pub preview: Option<PreviewId>,
}

/// The mathematical form of a catalogued component.
pub ghost struct ComponentMetadataView {
    pub name: Seq<char>,
    pub scope: Option<Seq<char>>,
    pub description: Option<Seq<char>>,
    pub preview: Option<PreviewId>,
}

impl View for ComponentMetadata {
    type V = ComponentMetadataView;

    open spec fn view(&self) -> ComponentMetadataView {
        ComponentMetadataView {
            name: self.name@,
            scope: match self.scope {
                Some(s) => Some(s@),
                None => None,
            },
            description: match self.description {
                Some(d) => Some(d@),
                None => None,
            },
            preview: self.preview,
        }
    }
}

impl ComponentMetadata {
    /// The component's name.
    pub fn name(&self) -> (r: &String)
        ensures
            r@ == self@.name,
    {
        &self.name
    }

    /// The scope the component is grouped under, if any.
    pub fn scope(&self) -> (r: &Option<String>)
        ensures
            r is Some <==> self@.scope is Some,
            r matches Some(s) ==> self@.scope == Some(s@),
    {
        &self.scope
    }

    /// The component's description, if any.
    pub fn description(&self) -> (r: &Option<String>)
        ensures
            r is Some <==> self@.description is Some,
            r matches Some(d) ==> self@.description == Some(d@),
    {
        &self.description
    }

    /// The component's preview, if one was registered.
    pub fn preview(&self) -> (r: Option<PreviewId>)
        ensures
            r == self@.preview,
    {
        self.preview
    }
}

/// The map a catalog's entry list stands for. Later entries win, though a
/// well-formed catalog never holds a name twice.
pub open spec fn catalog_map(
    s: Seq<(ComponentId, ComponentMetadata)>,
) -> Map<Seq<char>, ComponentMetadataView>
    decreases s.len(),
{
    if s.len() == 0 {
        Map::empty()
    } else {
        catalog_map(s.drop_last()).insert(s.last().0.0@, s.last().1@)
    }
}

/// A name is in the catalog map exactly when some entry holds it.
pub proof fn lemma_catalog_map_dom(s: Seq<(ComponentId, ComponentMetadata)>, k: Seq<char>)
    ensures
        catalog_map(s).dom().contains(k) <==> exists|i: int| 0 <= i < s.len() && s[i].0.0@ == k,
    decreases s.len(),
{
    if s.len() != 0 {
        lemma_catalog_map_dom(s.drop_last(), k);
        if catalog_map(s).dom().contains(k) && s.last().0.0@ != k {
            let i = choose|i: int| 0 <= i < s.drop_last().len() && s.drop_last()[i].0.0@ == k;
            assert(s[i].0.0@ == k);
        }
        if exists|i: int| 0 <= i < s.len() && s[i].0.0@ == k {
            let i = choose|i: int| 0 <= i < s.len() && s[i].0.0@ == k;
            if i < s.len() - 1 {
                assert(s.drop_last()[i].0.0@ == k);
            }
        }
    }
}

/// With no name twice, the entry at any index gives the map's value there.
pub proof fn lemma_catalog_map_index(s: Seq<(ComponentId, ComponentMetadata)>, i: int)
    requires
        forall|p: int, q: int| 0 <= p < q < s.len() ==> s[p].0.0@ != s[q].0.0@,
        0 <= i < s.len(),
    ensures
        catalog_map(s).dom().contains(s[i].0.0@),
        catalog_map(s)[s[i].0.0@] == s[i].1@,
    decreases s.len(),
{
    if i == s.len() - 1 {
    } else {
        lemma_catalog_map_index(s.drop_last(), i);
        assert(s.drop_last()[i] == s[i]);
        assert(s.last().0.0@ != s[i].0.0@);
    }
}

/// Replacing the entry that holds a name updates the map there alone.
pub proof fn lemma_catalog_map_update(
    s: Seq<(ComponentId, ComponentMetadata)>,
    i: int,
    kv: (ComponentId, ComponentMetadata),
)
    requires
        forall|p: int, q: int| 0 <= p < q < s.len() ==> s[p].0.0@ != s[q].0.0@,
        0 <= i < s.len(),
        kv.0.0@ == s[i].0.0@,
    ensures
        catalog_map(s.update(i, kv)) =~= catalog_map(s).insert(kv.0.0@, kv.1@),
    decreases s.len(),
{
    let t = s.update(i, kv);
    if i == s.len() - 1 {
        assert(t.drop_last() =~= s.drop_last());
    } else {
        lemma_catalog_map_update(s.drop_last(), i, kv);
        assert(t.drop_last() =~= s.drop_last().update(i, kv));
        assert(s.drop_last()[i] == s[i]);
        assert(t.last() == s.last());
        assert(s.last().0.0@ != s[i].0.0@);
    }
}

/// The catalog of components, keyed by name.
pub struct AllComponents(pub Vec<(ComponentId, ComponentMetadata)>);

/// The metadata entries of a catalog list that carry a preview, in order.
pub open spec fn previewed_of(
    s: Seq<(ComponentId, ComponentMetadata)>,
) -> Seq<ComponentMetadataView>
    decreases s.len(),
{
    if s.len() == 0 {
        Seq::empty()
    } else {
        let rest = previewed_of(s.subrange(1, s.len() as int));
        if s[0].1@.preview is Some {
            seq![s[0].1@] + rest
        } else {
            rest
        }
    }
}

impl AllComponents {
    /// Each catalogued name occurs at most once.
    pub open spec fn wf(&self) -> bool {
        forall|p: int, q: int| 0 <= p < q < self.0@.len() ==> self.0@[p].0.0@ != self.0@[q].0.0@
    }

    /// The catalog, as the map it stands for.
    pub open spec fn catalog_view(&self) -> Map<Seq<char>, ComponentMetadataView> {
        catalog_map(self.0@)
    }

    /// An empty catalog.
    pub fn new() -> (r: AllComponents)
        ensures
            r.wf(),
            r.0@.len() == 0,
    {
        AllComponents(Vec::new())
    }

    /// Put a component in the catalog, replacing what its id already named.
    pub fn add(&mut self, id: ComponentId, metadata: ComponentMetadata)
        requires
            old(self).wf(),
        ensures
            final(self).wf(),
            final(self).catalog_view() == old(self).catalog_view().insert(id.0@, metadata@),
    {
        let n = self.0.len();
        let mut i: usize = 0;
        while i < n
            invariant
                i <= n,
                n == self.0@.len(),
                *self == *old(self),
                self.wf(),
                forall|j: int| 0 <= j < i ==> self.0@[j].0.0@ != id.0@,
            decreases n - i,
        {
            if crate::keystroke::str_eq(self.0[i].0.0.as_str(), id.0.as_str()) {
                proof {
                    lemma_catalog_map_update(self.0@, i as int, (id, metadata));
                }
                let r = vstd::std_specs::vec::vec_index_mut(&mut self.0, i);
                *r = (id, metadata);
                return ;
            }
            i = i + 1;
        }
        self.0.push((id, metadata));
        proof {
            assert(self.0@.drop_last() =~= old(self).0@);
        }
    }

    /// Look a component up by id.
    pub fn get(&self, id: &ComponentId) -> (r: Option<&ComponentMetadata>)
        requires
            self.wf(),
        ensures
            r is Some <==> self.catalog_view().dom().contains(id.0@),
            r matches Some(m) ==> m@ == self.catalog_view()[id.0@],
    {
        let n = self.0.len();
        let mut i: usize = 0;
        while i < n
            invariant
                i <= n,
                n == self.0@.len(),
                self.wf(),
                forall|j: int| 0 <= j < i ==> self.0@[j].0.0@ != id.0@,
            decreases n - i,
        {
            if crate::keystroke::str_eq(self.0[i].0.0.as_str(), id.0.as_str()) {
                proof {
                    lemma_catalog_map_dom(self.0@, id.0@);
                    lemma_catalog_map_index(self.0@, i as int);
                }
                return Some(&self.0[i].1);
            }
            i = i + 1;
        }
        proof {
            lemma_catalog_map_dom(self.0@, id.0@);
        }
        None
    }

    /// Every catalogued component, in catalog order.
    pub fn all(&self) -> (r: Vec<&ComponentMetadata>)
        ensures
            r@.len() == self.0@.len(),
            forall|i: int| 0 <= i < r@.len() ==> r@[i]@ == self.0@[i].1@,
    {
        let n = self.0.len();
        let mut r: Vec<&ComponentMetadata> = Vec::new();
        let mut i: usize = 0;
        while i < n
            invariant
                i <= n,
                n == self.0@.len(),
                r@.len() == i,
                forall|j: int| 0 <= j < i ==> r@[j]@ == self.0@[j].1@,
            decreases n - i,
        {
            r.push(&self.0[i].1);
            i = i + 1;
        }
        r
    }

    /// Every catalogued component that has a preview, in catalog order.
    pub fn all_previews(&self) -> (r: Vec<&ComponentMetadata>)
        ensures
            r@.map_values(|m: &ComponentMetadata| m@) == previewed_of(self.0@),
    {
        let ghost s = self.0@;
        let n = self.0.len();
        let mut r: Vec<&ComponentMetadata> = Vec::new();
        let mut i: usize = 0;
        proof {
            assert(s.subrange(0, n as int) =~= s);
        }
        while i < n
            invariant
                i <= n,
                n == s.len(),
                s == self.0@,
                r@.map_values(|m: &ComponentMetadata| m@) + previewed_of(
                    s.subrange(i as int, n as int),
                ) == previewed_of(s),
            decreases n - i,
        {
            let ghost done = r@.map_values(|m: &ComponentMetadata| m@);
            let ghost rest = s.subrange(i as int, n as int);
            if self.0[i].1.preview.is_some() {
                r.push(&self.0[i].1);
                proof {
                    assert(r@.map_values(|m: &ComponentMetadata| m@) =~= done.push(s[i as int].1@));
                }
            }
            proof {
                assert(rest[0] == s[i as int]);
                assert(rest.subrange(1, rest.len() as int) =~= s.subrange(i + 1, n as int));
                if s[i as int].1@.preview is Some {
                    assert(previewed_of(rest) == seq![s[i as int].1@] + previewed_of(
                        s.subrange(i + 1, n as int),
                    ));
                    assert(done.push(s[i as int].1@) + previewed_of(s.subrange(i + 1, n as int))
                        =~= done + previewed_of(rest));
                } else {
                    assert(previewed_of(rest) == previewed_of(s.subrange(i + 1, n as int)));
                }
            }
            i = i + 1;
        }
        proof {
            assert(s.subrange(n as int, n as int) =~= Seq::<(ComponentId, ComponentMetadata)>::empty());
            assert(r@.map_values(|m: &ComponentMetadata| m@) + Seq::<
                ComponentMetadataView,
            >::empty() =~= r@.map_values(|m: &ComponentMetadata| m@));
        }
        r
    }
}

/// What the catalog records for a registry entry: its fields, plus the
/// preview registered under its name, if any.
pub open spec fn metadata_of(
    e: ComponentEntry,
    previews: Map<Seq<char>, PreviewId>,
) -> ComponentMetadataView {
    ComponentMetadataView {
        name: e@.name,
        scope: e@.scope,
        description: e@.description,
        preview: if previews.dom().contains(e@.name) {
            Some(previews[e@.name])
        } else {
            None
        },
    }
}

/// The catalog a registry stands for: each registered component under its
/// name, joined with its preview; a name registered twice keeps the later
/// registration.
pub open spec fn catalog_of(
    s: Seq<ComponentEntry>,
    previews: Map<Seq<char>, PreviewId>,
) -> Map<Seq<char>, ComponentMetadataView>
    decreases s.len(),
{
    if s.len() == 0 {
        Map::empty()
    } else {
        catalog_of(s.drop_last(), previews).insert(
            s.last()@.name,
            metadata_of(s.last(), previews),
        )
    }
}

/// Copy an optional text.
fn clone_opt_string(o: &Option<String>) -> (r: Option<String>)
    ensures
        r is Some <==> o is Some,
        r matches Some(s) ==> (o matches Some(t) && s@ == t@),
{
    match o {
        Some(s) => Some(s.clone()),
        None => None,
    }
}

/// Look up the preview registered under a name.
fn lookup_preview(registry: &ComponentRegistry, name: &str) -> (r: Option<PreviewId>)
    requires
        registry.wf(),
    ensures
        r is Some <==> registry.previews_view().dom().contains(name@),
        r matches Some(id) ==> id == registry.previews_view()[name@],
{
    let n = registry.previews.len();
    let mut i: usize = 0;
    while i < n
        invariant
            i <= n,
            n == registry.previews@.len(),
            registry.wf(),
            forall|j: int| 0 <= j < i ==> registry.previews@[j].0@ != name@,
        decreases n - i,
    {
        if crate::keystroke::str_eq(registry.previews[i].0.as_str(), name) {
            proof {
                lemma_previews_map_dom(registry.previews@, name@);
                lemma_previews_map_index(registry.previews@, i as int);
            }
            return Some(registry.previews[i].1);
        }
        i = i + 1;
    }
    proof {
        lemma_previews_map_dom(registry.previews@, name@);
    }
    None
}

/// Read the whole registry out as a catalog: every registered component
/// under its name, joined with its preview.
pub fn components(registry: &ComponentRegistry) -> (r: AllComponents)
    requires
        registry.wf(),
    ensures
        r.wf(),
        r.catalog_view() == catalog_of(registry.components@, registry.previews_view()),
{
    let ghost entries = registry.components@;
    let mut all = AllComponents::new();
    let n = registry.components.len();
    let mut i: usize = 0;
    proof {
        assert(entries.subrange(0, 0) =~= Seq::<ComponentEntry>::empty());
    }
    while i < n
        invariant
            i <= n,
            n == entries.len(),
            entries == registry.components@,
            registry.wf(),
            all.wf(),
            all.catalog_view() == catalog_of(
                entries.subrange(0, i as int),
                registry.previews_view(),
            ),
        decreases n - i,
    {
        let e = &registry.components[i];
        let preview = lookup_preview(registry, e.name.as_str());
        let metadata = ComponentMetadata {
            name: e.name.clone(),
            scope: clone_opt_string(&e.scope),
            description: clone_opt_string(&e.description),
            preview,
        };
        let id = ComponentId(e.name.clone());
        proof {
            assert(metadata@ == metadata_of(entries[i as int], registry.previews_view()));
        }
        all.add(id, metadata);
        proof {
            assert(entries.subrange(0, i + 1).drop_last() =~= entries.subrange(0, i as int));
            assert(entries.subrange(0, i + 1).last() == entries[i as int]);
        }
        i = i + 1;
    }
    proof {
        assert(entries.subrange(0, n as int) =~= entries);
    }
    all
}

/// Which side of the preview an example's label is shown on.
#[derive(Clone, Copy, Debug, PartialEq, Eq, Structural)]
pub enum ExampleLabelSide {
    Left,
    Right,
    Top,
    Bottom,
}

impl Default for ExampleLabelSide {
    /// Labels sit above the example unless asked otherwise.
    fn default() -> (r: ExampleLabelSide)
        ensures
            r == ExampleLabelSide::Top,
    {
        ExampleLabelSide::Top
    }
}

/// A single example of a component.
pub struct ComponentExample {
    pub variant_name: String,
    pub element: AnyElement,
    pub label_side: ExampleLabelSide,
    pub grow: bool,
}

impl ComponentExample {
    /// An example with the given variant name and element, labelled on
    /// top, not growing.
    pub fn new(variant_name: String, element: AnyElement) -> (r: ComponentExample)
        ensures
            r == (ComponentExample {
                variant_name,
                element,
                label_side: ExampleLabelSide::Top,
                grow: false,
            }),
    {
        ComponentExample { variant_name, element, label_side: ExampleLabelSide::Top, grow: false }
    }

    /// The example, set to grow to fill the available horizontal space.
    pub fn grow(self) -> (r: ComponentExample)
        ensures
            r == (ComponentExample { grow: true, ..self }),
    {
        ComponentExample { grow: true, ..self }
    }
}

/// A group of component examples.
pub struct ComponentExampleGroup {
    pub title: Option<String>,
    pub examples: Vec<ComponentExample>,
    pub grow: bool,
}

impl ComponentExampleGroup {
    /// An untitled group of the given examples, not growing.
    pub fn new(examples: Vec<ComponentExample>) -> (r: ComponentExampleGroup)
        ensures
            r == (ComponentExampleGroup { title: None, examples, grow: false }),
    {
        ComponentExampleGroup { title: None, examples, grow: false }
    }

    /// A titled group of the given examples, not growing.
    pub fn with_title(title: String, examples: Vec<ComponentExample>) -> (r: ComponentExampleGroup)
        ensures
            r == (ComponentExampleGroup { title: Some(title), examples, grow: false }),
    {
        ComponentExampleGroup { title: Some(title), examples, grow: false }
    }

    /// The group, set to grow to fill the available horizontal space.
    pub fn grow(self) -> (r: ComponentExampleGroup)
        ensures
            r == (ComponentExampleGroup { grow: true, ..self }),
    {
        ComponentExampleGroup { grow: true, ..self }
    }
}

/// A single example.
pub fn single_example(variant_name: String, example: AnyElement) -> (r: ComponentExample)
    ensures
        r == (ComponentExample {
            variant_name,
            element: example,
            label_side: ExampleLabelSide::Top,
            grow: false,
        }),
{
    ComponentExample::new(variant_name, example)
}

/// A group of examples without a title.
pub fn example_group(examples: Vec<ComponentExample>) -> (r: ComponentExampleGroup)
    ensures
        r == (ComponentExampleGroup { title: None, examples, grow: false }),
{
    ComponentExampleGroup::new(examples)
}

/// A group of examples with a title.
pub fn example_group_with_title(
    title: String,
    examples: Vec<ComponentExample>,
) -> (r: ComponentExampleGroup)
    ensures
        r == (ComponentExampleGroup { title: Some(title), examples, grow: false }),
{
    ComponentExampleGroup::with_title(title, examples)
}

/// Record a registered component: its entry is appended to the catalog.
pub fn register_component_entry(registry: &mut ComponentRegistry, entry: ComponentEntry)
    ensures
        final(registry).components@ == old(registry).components@.push(entry),
        final(registry).previews@ == old(registry).previews@,
{
    registry.components.push(entry);
}

/// Record a component's preview under its name, replacing any previous
/// preview registered under that name.
pub fn register_preview_entry(registry: &mut ComponentRegistry, name: String, preview: PreviewId)
    requires
        old(registry).wf(),
    ensures
        final(registry).wf(),
        final(registry).components@ == old(registry).components@,
        final(registry).previews_view() == old(registry).previews_view().insert(name@, preview),
{
    let n = registry.previews.len();
    let mut i: usize = 0;
    while i < n
        invariant
            i <= n,
            n == registry.previews@.len(),
            *registry == *old(registry),
            registry.wf(),
            forall|j: int| 0 <= j < i ==> registry.previews@[j].0@ != name@,
        decreases n - i,
    {
        if crate::keystroke::str_eq(registry.previews[i].0.as_str(), name.as_str()) {
            proof {
                lemma_previews_map_update(registry.previews@, i as int, (name, preview));
            }
            let r = vstd::std_specs::vec::vec_index_mut(&mut registry.previews, i);
            *r = (name, preview);
            return ;
        }
        i = i + 1;
    }
    registry.previews.push((name, preview));
    proof {
        assert(registry.previews@.drop_last() =~= old(registry).previews@);
    }
}

/// Register a component type in the catalog.
pub fn register_component<T: Component>(registry: &mut ComponentRegistry)
    ensures
        final(registry).components@.len() == old(registry).components@.len() + 1,
        forall|i: int|
            0 <= i < old(registry).components@.len() ==> final(registry).components@[i] == old(
                registry,
            ).components@[i],
        final(registry).previews@ == old(registry).previews@,
{
    let entry = ComponentEntry { scope: T::scope(), name: T::name(), description: T::description() };
    register_component_entry(registry, entry);
}

/// Register a component type's preview under its name.
pub fn register_preview<T: ComponentPreview>(registry: &mut ComponentRegistry)
    requires
        old(registry).wf(),
    ensures
        final(registry).wf(),
        final(registry).components@ == old(registry).components@,
        exists|name: Seq<char>, id: PreviewId|
            final(registry).previews_view() == old(registry).previews_view().insert(name, id),
{
    let name = T::name();
    let id = T::preview();
    register_preview_entry(registry, name, id);
}

/// Build the registry at startup from the collected registration lists:
/// every component entry in order, then every preview under its name.
pub fn init(
    component_entries: Vec<ComponentEntry>,
    preview_entries: Vec<(String, PreviewId)>,
) -> (r: ComponentRegistry)
    ensures
        r.wf(),
        r.components@ == component_entries@,
        r.previews_view() == previews_map(preview_entries@),
{
    let ghost centries = component_entries@;
    let ghost pentries = preview_entries@;
    let mut registry = ComponentRegistry { components: component_entries, previews: Vec::new() };
    let n = preview_entries.len();
    let mut rest = preview_entries;
    let mut i: usize = 0;
    while i < n
        invariant
            i <= n,
            n == pentries.len(),
            rest@ == pentries.subrange(i as int, n as int),
            registry.wf(),
            registry.components@ == centries,
            registry.previews_view() == previews_map(pentries.subrange(0, i as int)),
        decreases n - i,
    {
        let kv = rest.remove(0);
        proof {
            assert(pentries.subrange(i as int, n as int)[0] == pentries[i as int]);
            assert(kv == pentries[i as int]);
            assert(rest@ =~= pentries.subrange(i + 1, n as int));
        }
        let (name, id) = kv;
        register_preview_entry(&mut registry, name, id);
        proof {
            assert(pentries.subrange(0, i + 1).drop_last() =~= pentries.subrange(0, i as int));
            assert(pentries.subrange(0, i + 1).last() == pentries[i as int]);
        }
        i = i + 1;
    }
    proof {
        assert(pentries.subrange(0, n as int) =~= pentries);
    }
    registry
}

} // verus!
