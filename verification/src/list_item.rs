//! The list-row widget's data: its slots, interaction states and children.
//!
//! Only the row's configuration is modelled here — what each builder call
//! records. Turning the configuration into pixels is layout work outside
//! the harness. The children sit in an inline vector from the smallvec
//! crate, as a row usually has one or two.

use vstd::prelude::*;

use crate::registry::AnyElement;

verus! {

/// Holds the row's children in smallvec's inline vector. Verus refuses
/// the vector's own generic declaration — its element type is bound by an
/// outside trait — so this holder is opaque to it, and what the vector
/// holds is named by [`small_vec_elements`].
#[verifier::external_body]
pub struct ChildVec {
    inner: smallvec::SmallVec<[AnyElement; 2]>,
}

/// What a row's inline child vector holds, in order.
pub uninterp spec fn small_vec_elements(v: ChildVec) -> Seq<AnyElement>;

/// Relies on smallvec::SmallVec::new: the fresh vector is empty.
#[verifier::external_body]
fn small_vec_new() -> (v: ChildVec)
    ensures
        small_vec_elements(v) == Seq::<AnyElement>::empty(),
{
    ChildVec { inner: smallvec::SmallVec::new() }
}

/// Relies on smallvec::SmallVec::push: the element joins the back.
#[verifier::external_body]
fn small_vec_push(v: &mut ChildVec, element: AnyElement)
    ensures
        small_vec_elements(*final(v)) == small_vec_elements(*old(v)).push(element),
{
    v.inner.push(element);
}

/// Relies on smallvec::SmallVec::len: how many elements are held.
#[verifier::external_body]
fn small_vec_len(v: &ChildVec) -> (n: usize)
    ensures
        n == small_vec_elements(*v).len(),
{
    v.inner.len()
}

/// Relies on smallvec's slice indexing, through its Deref to a slice.
#[verifier::external_body]
fn small_vec_get(v: &ChildVec, i: usize) -> (element: AnyElement)
    requires
        i < small_vec_elements(*v).len(),
    ensures
        element == small_vec_elements(*v)[i as int],
{
    v.inner[i]
}

/// How tightly a list row is packed.
#[derive(Clone, Copy, Debug, PartialEq, Eq, PartialOrd, Ord, Hash, Structural)]
pub enum ListItemSpacing {
    Dense,
    Sparse,
}

impl Default for ListItemSpacing {
    /// Rows are dense unless asked otherwise.
    fn default() -> (r: ListItemSpacing)
        ensures
            r == ListItemSpacing::Dense,
    {
        ListItemSpacing::Dense
    }
}

/// A reusable list row: its slots and interaction states, as the builder
/// calls record them. Indent sizes are whole pixels.
pub struct ListItem {
    pub id: u64,
    pub disabled: bool,
    pub selected: bool,
    pub spacing: ListItemSpacing,
    pub indent_level: usize,
    pub indent_step_size: i64,
    /// Content that appears before the children, like an icon or avatar.
    pub start_slot: Option<AnyElement>,
    /// Content that appears after the children, on the other side of the
    /// row.
    pub end_slot: Option<AnyElement>,
    /// Content shown on hover after the children; it obscures the end slot
    /// while visible.
    pub end_hover_slot: Option<AnyElement>,
    pub toggle: Option<bool>,
    pub inset: bool,
    pub children: ChildVec,
    pub selectable: bool,
    pub overflow_x: bool,
}

impl ListItem {
    /// The row's children, in order.
    pub open spec fn children_view(&self) -> Seq<AnyElement> {
        small_vec_elements(self.children)
    }

    /// A fresh row: dense, selectable, not selected, not disabled, not
    /// inset, no indent, a twelve-pixel indent step, nothing slotted.
    pub fn new(id: u64) -> (r: ListItem)
        ensures
            r.id == id,
            !r.disabled,
            !r.selected,
            r.spacing == ListItemSpacing::Dense,
            r.indent_level == 0,
            r.indent_step_size == 12,
            r.start_slot is None,
            r.end_slot is None,
            r.end_hover_slot is None,
            r.toggle is None,
            !r.inset,
            r.children_view() == Seq::<AnyElement>::empty(),
            r.selectable,
            !r.overflow_x,
    {
        ListItem {
            id,
            disabled: false,
            selected: false,
            spacing: ListItemSpacing::Dense,
            indent_level: 0,
            indent_step_size: 12,
            start_slot: None,
            end_slot: None,
            end_hover_slot: None,
            toggle: None,
            inset: false,
            children: small_vec_new(),
            selectable: true,
            overflow_x: false,
        }
    }

    /// The row with its packing set.
    pub fn spacing(self, spacing: ListItemSpacing) -> (r: ListItem)
        ensures
            r == (ListItem { spacing, ..self }),
    {
        ListItem { spacing, ..self }
    }

    /// The row with its hover selectability set.
    pub fn selectable(self, has_hover: bool) -> (r: ListItem)
        ensures
            r == (ListItem { selectable: has_hover, ..self }),
    {
        ListItem { selectable: has_hover, ..self }
    }

    /// The row with its inset flag set.
    pub fn inset(self, inset: bool) -> (r: ListItem)
        ensures
            r == (ListItem { inset, ..self }),
    {
        ListItem { inset, ..self }
    }

    /// The row with its indent level set.
    pub fn indent_level(self, indent_level: usize) -> (r: ListItem)
        ensures
            r == (ListItem { indent_level, ..self }),
    {
        ListItem { indent_level, ..self }
    }

    /// The row with its indent step set, in pixels.
    pub fn indent_step_size(self, indent_step_size: i64) -> (r: ListItem)
        ensures
            r == (ListItem { indent_step_size, ..self }),
    {
        ListItem { indent_step_size, ..self }
    }

    /// The row with its disclosure toggle set, open or closed, or removed.
    pub fn toggle(self, toggle: Option<bool>) -> (r: ListItem)
        ensures
            r == (ListItem { toggle, ..self }),
    {
        ListItem { toggle, ..self }
    }

    /// The row with its start slot filled or cleared.
    pub fn start_slot(self, start_slot: Option<AnyElement>) -> (r: ListItem)
        ensures
            r == (ListItem { start_slot, ..self }),
    {
        ListItem { start_slot, ..self }
    }

    /// The row with its end slot filled or cleared.
    pub fn end_slot(self, end_slot: Option<AnyElement>) -> (r: ListItem)
        ensures
            r == (ListItem { end_slot, ..self }),
    {
        ListItem { end_slot, ..self }
    }

    /// The row with its hover end slot filled or cleared.
    pub fn end_hover_slot(self, end_hover_slot: Option<AnyElement>) -> (r: ListItem)
        ensures
            r == (ListItem { end_hover_slot, ..self }),
    {
        ListItem { end_hover_slot, ..self }
    }

    /// The row, allowed to overflow horizontally.
    pub fn overflow_x(self) -> (r: ListItem)
        ensures
            r == (ListItem { overflow_x: true, ..self }),
    {
        ListItem { overflow_x: true, ..self }
    }

    /// The row with its disabled flag set.
    pub fn disabled(self, disabled: bool) -> (r: ListItem)
        ensures
            r == (ListItem { disabled, ..self }),
    {
        ListItem { disabled, ..self }
    }

    /// The row with its selected flag set.
    pub fn selected(self, selected: bool) -> (r: ListItem)
        ensures
            r == (ListItem { selected, ..self }),
    {
        ListItem { selected, ..self }
    }

    /// Append children to the row, in order.
    pub fn extend(&mut self, elements: Vec<AnyElement>)
        ensures
            final(self).children_view() == old(self).children_view() + elements@,
            *final(self) == (ListItem { children: final(self).children, ..*old(self) }),
    {
        let ghost added = elements@;
        let n = elements.len();
        let mut i: usize = 0;
        while i < n
            invariant
                i <= n,
                n == added.len(),
                elements@ == added,
                self.children_view() == old(self).children_view() + added.subrange(0, i as int),
                *self == (ListItem { children: self.children, ..*old(self) }),
            decreases n - i,
        {
            small_vec_push(&mut self.children, elements[i]);
            proof {
                assert(old(self).children_view() + added.subrange(0, i + 1) =~= (old(
                    self,
                ).children_view() + added.subrange(0, i as int)).push(added[i as int]));
            }
            i = i + 1;
        }
        proof {
            assert(added.subrange(0, n as int) =~= added);
        }
    }

    /// The row's children, read out in order.
    pub fn children(&self) -> (r: Vec<AnyElement>)
        ensures
            r@ == self.children_view(),
    {
        let n = small_vec_len(&self.children);
        let mut r: Vec<AnyElement> = Vec::new();
        let mut i: usize = 0;
        while i < n
            invariant
                i <= n,
                n == self.children_view().len(),
                r@ == self.children_view().subrange(0, i as int),
            decreases n - i,
        {
            r.push(small_vec_get(&self.children, i));
            proof {
                assert(self.children_view().subrange(0, i + 1) =~= self.children_view().subrange(
                    0,
                    i as int,
                ).push(self.children_view()[i as int]));
            }
            i = i + 1;
        }
        proof {
            assert(self.children_view().subrange(0, n as int) =~= self.children_view());
        }
        r
    }
}

/// The story showcasing the disclosure control, in its toggled and
/// untoggled states. What it renders is GUI layout outside the harness.
pub struct DisclosureStory;

} // verus!
