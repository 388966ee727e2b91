//! Predicate pipeline deciding whether an accessible node becomes a hint
//! target, from its role, its interaction-state flags, and its screen bounds.

use crate::detection::types::ElementBounds;
use crate::detection::types::Role;
use crate::detection::types::StateFlags;
use vstd::prelude::*;

verus! {

/// Smallest width or height (in pixels) a hint target may have.
pub const MIN_SIZE: i32 = 10;

/// Largest width or height (in pixels) a hint target may have.
pub const MAX_SIZE: i32 = 2000;

/// Roles that are always intended to be interactive.
pub open spec fn spec_is_primary_clickable_role(role: Role) -> bool {
    role == Role::Button || role == Role::ToggleButton || role == Role::RadioButton || role
        == Role::CheckBox || role == Role::Link || role == Role::MenuItem
}

/// Roles that may be interactive depending on their state.
pub open spec fn spec_is_secondary_clickable_role(role: Role) -> bool {
    role == Role::MenuBar || role == Role::Menu || role == Role::PageTab || role == Role::ComboBox
        || role == Role::ListItem
}

/// Roles that are decorative or informational and never get a hint.
pub open spec fn spec_is_non_clickable_role(role: Role) -> bool {
    role == Role::Icon || role == Role::Text || role == Role::Label || role == Role::Heading
        || role == Role::Paragraph || role == Role::StatusBar || role == Role::ToolTip || role
        == Role::Canvas || role == Role::Panel || role == Role::ScrollBar || role == Role::Separator
}

/// Both the Visible and the Showing flag are set.
pub open spec fn spec_is_visible_state(states: StateFlags) -> bool {
    states.visible && states.showing
}

/// Either the Enabled or the Sensitive flag is set.
pub open spec fn spec_is_enabled_state(states: StateFlags) -> bool {
    states.enabled || states.sensitive
}

/// At least one of the Focusable, Selectable or Checkable flags is set.
pub open spec fn spec_has_clickable_state(states: StateFlags) -> bool {
    states.focusable || states.selectable || states.checkable
}

/// Width and height both lie in the inclusive range
/// [`MIN_SIZE`], [`MAX_SIZE`].
pub open spec fn spec_is_reasonable_size(bounds: ElementBounds) -> bool {
    bounds.width >= MIN_SIZE && bounds.height >= MIN_SIZE && bounds.width <= MAX_SIZE
        && bounds.height <= MAX_SIZE
}

/// The complete filter rule: a node gets a hint when its role is not
/// non-clickable, it is visible and enabled, its size is reasonable, and
/// either its role is primary clickable or its state flags show it can take
/// interaction.
pub open spec fn spec_should_process_element(
    role: Role,
    states: StateFlags,
    bounds: ElementBounds,
) -> bool {
    &&& !spec_is_non_clickable_role(role)
    &&& spec_is_visible_state(states)
    &&& spec_is_enabled_state(states)
    &&& spec_is_reasonable_size(bounds)
    &&& (spec_is_primary_clickable_role(role) || spec_has_clickable_state(states))
}

/// A node whose role is in the non-clickable set is rejected, whatever its
/// state flags and bounds say.
pub proof fn lemma_non_clickable_rejected(role: Role, states: StateFlags, bounds: ElementBounds)
    requires
        spec_is_non_clickable_role(role),
    ensures
        !spec_should_process_element(role, states, bounds),
{
}

/// A primary clickable role that is visible, enabled and reasonably sized
/// is accepted, whether or not any extra clickable-state flag is set.
pub proof fn lemma_primary_accepted(role: Role, states: StateFlags, bounds: ElementBounds)
    requires
        spec_is_primary_clickable_role(role),
        spec_is_visible_state(states),
        spec_is_enabled_state(states),
        spec_is_reasonable_size(bounds),
    ensures
        spec_should_process_element(role, states, bounds),
{
}

/// Checks if the role is a primary clickable element.
///
/// Primary clickable roles are elements that are always intended to be
/// interactive, such as buttons, links, and checkboxes.
pub fn is_primary_clickable_role(role: Role) -> (r: bool)
    ensures
        r == spec_is_primary_clickable_role(role),
{
    match role {
        Role::Button | Role::ToggleButton | Role::RadioButton | Role::CheckBox | Role::Link
            | Role::MenuItem => true,
        _ => false,
    }
}

/// Checks if the role is a secondary clickable element.
///
/// Secondary clickable roles may be interactive depending on their state,
/// such as menu items or list items that have action handlers.
pub fn is_secondary_clickable_role(role: Role) -> (r: bool)
    ensures
        r == spec_is_secondary_clickable_role(role),
{
    match role {
        Role::MenuBar | Role::Menu | Role::PageTab | Role::ComboBox | Role::ListItem => true,
        _ => false,
    }
}

/// Checks if the role is typically non-clickable.
///
/// These are usually decorative or informational elements like labels,
/// icons, or static text that should not have hints.
pub fn is_non_clickable_role(role: Role) -> (r: bool)
    ensures
        r == spec_is_non_clickable_role(role),
{
    match role {
        Role::Icon | Role::Text | Role::Label | Role::Heading | Role::Paragraph | Role::StatusBar
            | Role::ToolTip | Role::Canvas | Role::Panel | Role::ScrollBar | Role::Separator => true,
        _ => false,
    }
}

/// Checks if the element is visible on screen.
///
/// An element must have both the Visible and the Showing state to be
/// considered visible.
pub fn is_visible_state(states: &StateFlags) -> (r: bool)
    ensures
        r == spec_is_visible_state(*states),
{
    states.visible && states.showing
}

/// Checks if the element is enabled and can be interacted with.
///
/// An element is considered enabled if it has either the Enabled or the
/// Sensitive state.
pub fn is_enabled_state(states: &StateFlags) -> (r: bool)
    ensures
        r == spec_is_enabled_state(*states),
{
    states.enabled || states.sensitive
}

/// Checks if the element has any clickable-related states.
///
/// Returns `true` if the element is focusable, selectable, or checkable,
/// indicating it can accept user interaction.
pub fn has_clickable_state(states: &StateFlags) -> (r: bool)
    ensures
        r == spec_has_clickable_state(*states),
{
    states.focusable || states.selectable || states.checkable
}

/// Checks if the element size is reasonable for clicking.
///
/// Filters out tiny decorative elements (smaller than 10 pixels in either
/// dimension) and huge containers (over 2000 pixels in any dimension) that
/// are unlikely to be clickable targets.
pub fn is_reasonable_size(bounds: &ElementBounds) -> (r: bool)
    ensures
        r == spec_is_reasonable_size(*bounds),
{
    bounds.width >= MIN_SIZE && bounds.height >= MIN_SIZE && bounds.width <= MAX_SIZE
        && bounds.height <= MAX_SIZE
}

/// Determines if an element should be processed and shown as a hint target.
///
/// This is the main filtering function: a known non-clickable role is
/// rejected outright, whatever the state flags or bounds say; the node must
/// then be visible, enabled and reasonably sized; a primary clickable role
/// is accepted unconditionally, while a secondary or unknown role needs an
/// additional clickable state flag.
pub fn should_process_element(role: Role, states: &StateFlags, bounds: &ElementBounds) -> (r: bool)
    ensures
        r == spec_should_process_element(role, *states, *bounds),
{
    if is_non_clickable_role(role) {
        return false;
    }
    if !is_visible_state(states) || !is_enabled_state(states) {
        return false;
    }
    if !is_reasonable_size(bounds) {
        return false;
    }
    if is_primary_clickable_role(role) {
        return true;
    }
    if is_secondary_clickable_role(role) {
        return has_clickable_state(states);
    }
    has_clickable_state(states)
}

} // verus!
