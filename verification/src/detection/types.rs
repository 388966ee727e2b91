//! Core data types for element detection: roles, state flags, screen bounds,
//! and the immutable snapshot record taken of each accepted element.

use vstd::prelude::*;
use vstd::string::StringExecFns;

verus! {

/// Role tag of an accessible node, as a closed enumeration.
///
/// The accessibility service reports many more roles; every role that the
/// filter rules do not distinguish is collapsed into `Other`.
#[derive(Clone, Copy, Debug, PartialEq, Eq, Structural)]
pub enum Role {
    Button,
    ToggleButton,
    RadioButton,
    CheckBox,
    Link,
    MenuItem,
    MenuBar,
    Menu,
    ListItem,
    PageTab,
    PageTabList,
    ComboBox,
    Entry,
    Text,
    Icon,
    Label,
    Heading,
    Paragraph,
    StatusBar,
    ToolTip,
    Canvas,
    Panel,
    ScrollBar,
    Separator,
    Application,
    Other,
}

/// Printable name of a role, as a character sequence.
pub open spec fn spec_role_name(role: Role) -> Seq<char> {
    match role {
        Role::Button => "Button"@,
        Role::ToggleButton => "ToggleButton"@,
        Role::RadioButton => "RadioButton"@,
        Role::CheckBox => "CheckBox"@,
        Role::Link => "Link"@,
        Role::MenuItem => "MenuItem"@,
        Role::MenuBar => "MenuBar"@,
        Role::Menu => "Menu"@,
        Role::ListItem => "ListItem"@,
        Role::PageTab => "PageTab"@,
        Role::PageTabList => "PageTabList"@,
        Role::ComboBox => "ComboBox"@,
        Role::Entry => "Entry"@,
        Role::Text => "Text"@,
        Role::Icon => "Icon"@,
        Role::Label => "Label"@,
        Role::Heading => "Heading"@,
        Role::Paragraph => "Paragraph"@,
        Role::StatusBar => "StatusBar"@,
        Role::ToolTip => "ToolTip"@,
        Role::Canvas => "Canvas"@,
        Role::Panel => "Panel"@,
        Role::ScrollBar => "ScrollBar"@,
        Role::Separator => "Separator"@,
        Role::Application => "Application"@,
        Role::Other => "Other"@,
    }
}

/// Printable name of a role.
pub fn role_name(role: Role) -> (r: String)
    ensures
        r@ == spec_role_name(role),
{
    match role {
        Role::Button => String::from_str("Button"),
        Role::ToggleButton => String::from_str("ToggleButton"),
        Role::RadioButton => String::from_str("RadioButton"),
        Role::CheckBox => String::from_str("CheckBox"),
        Role::Link => String::from_str("Link"),
        Role::MenuItem => String::from_str("MenuItem"),
        Role::MenuBar => String::from_str("MenuBar"),
        Role::Menu => String::from_str("Menu"),
        Role::ListItem => String::from_str("ListItem"),
        Role::PageTab => String::from_str("PageTab"),
        Role::PageTabList => String::from_str("PageTabList"),
        Role::ComboBox => String::from_str("ComboBox"),
        Role::Entry => String::from_str("Entry"),
        Role::Text => String::from_str("Text"),
        Role::Icon => String::from_str("Icon"),
        Role::Label => String::from_str("Label"),
        Role::Heading => String::from_str("Heading"),
        Role::Paragraph => String::from_str("Paragraph"),
        Role::StatusBar => String::from_str("StatusBar"),
        Role::ToolTip => String::from_str("ToolTip"),
        Role::Canvas => String::from_str("Canvas"),
        Role::Panel => String::from_str("Panel"),
        Role::ScrollBar => String::from_str("ScrollBar"),
        Role::Separator => String::from_str("Separator"),
        Role::Application => String::from_str("Application"),
        Role::Other => String::from_str("Other"),
    }
}

/// Interaction-state flags of an accessible node, reduced to the flags that
/// the filter rules read.
#[derive(Clone, Copy, Debug, PartialEq, Eq, Structural)]
pub struct StateFlags {
    pub visible: bool,
    pub showing: bool,
    pub enabled: bool,
    pub sensitive: bool,
    pub focusable: bool,
    pub selectable: bool,
    pub checkable: bool,
}

/// Bounding box of a UI element in absolute screen pixels; `(0, 0)` is the
/// top-left corner of the screen.
#[derive(Clone, Copy, Debug)]
pub struct ElementBounds {
    /// X coordinate of the element's left edge (pixels from left)
    pub x: i32,
    /// Y coordinate of the element's top edge (pixels from top)
    pub y: i32,
    /// Width of the element in pixels
    pub width: i32,
    /// Height of the element in pixels
    pub height: i32,
}

impl ElementBounds {
    /// Whether the bounds describe a real, positively-sized rectangle.
    pub open spec fn spec_is_valid(self) -> bool {
        self.width > 0 && self.height > 0
    }

    /// Center point of the box, with truncating division.
    pub open spec fn spec_center(self) -> (int, int) {
        (self.x + self.width / 2, self.y + self.height / 2)
    }

    /// Calculates the center point of the bounding box, in screen coordinates.
    pub fn center(&self) -> (r: (i32, i32))
        requires
            self.width >= 0,
            self.height >= 0,
            self.x + self.width / 2 <= i32::MAX,
            self.y + self.height / 2 <= i32::MAX,
        ensures
            (r.0 as int, r.1 as int) == self.spec_center(),
    {
        (self.x + self.width / 2, self.y + self.height / 2)
    }

    /// Checks if the bounds represent a valid, non-zero-sized element:
    /// both width and height must be positive.
    pub fn is_valid(&self) -> (r: bool)
        ensures
            r == self.spec_is_valid(),
    {
        self.width > 0 && self.height > 0
    }

    /// Checks if the element lies entirely within a screen of the given
    /// dimensions. The sums below are only formed once the element's origin
    /// is known to lie on the screen, so only those have to fit.
    pub fn is_on_screen(&self, screen_width: i32, screen_height: i32) -> (r: bool)
        requires
            self.x >= 0 && self.y >= 0 && self.x < screen_width && self.y < screen_height
                ==> self.x + self.width <= i32::MAX,
            self.x >= 0 && self.y >= 0 && self.x < screen_width && self.y < screen_height
                && self.x + self.width <= screen_width ==> self.y + self.height <= i32::MAX,
        ensures
            r == (self.x >= 0 && self.y >= 0 && self.x < screen_width && self.y < screen_height
                && self.x + self.width <= screen_width && self.y + self.height <= screen_height),
    {
        self.x >= 0 && self.y >= 0 && self.x < screen_width && self.y < screen_height
            && self.x + self.width <= screen_width && self.y + self.height <= screen_height
    }
}

/// Mathematical model of a detected element: its bounds and the character
/// sequences behind its string fields.
pub ghost struct ElementView {
    pub bounds: ElementBounds,
    pub role: Seq<char>,
    pub name: Seq<char>,
    pub app_name: Seq<char>,
    pub description: Seq<char>,
}

/// Snapshot of one clickable UI element found during a scan.
///
/// Holds everything needed to identify the element and aim a click at it;
/// created once per detection cycle and immutable afterwards.
#[derive(Debug)]
pub struct DetectedElement {
    /// Screen bounding box of the element
    pub bounds: ElementBounds,
    /// Printable role of the element (e.g. "Button", "Link")
    pub role: String,
    /// Accessible name/label of the element
    pub name: String,
    /// Name of the application containing this element
    pub app_name: String,
    /// Accessible description of the element (may be empty)
    pub description: String,
}

impl View for DetectedElement {
    type V = ElementView;

    open spec fn view(&self) -> ElementView {
        ElementView {
            bounds: self.bounds,
            role: self.role@,
            name: self.name@,
            app_name: self.app_name@,
            description: self.description@,
        }
    }
}

impl DeepView for DetectedElement {
    type V = ElementView;

    open spec fn deep_view(&self) -> ElementView {
        self@
    }
}

impl Clone for DetectedElement {
    /// An element and its clone agree in every field.
    fn clone(&self) -> (r: Self)
        ensures
            r == *self,
    {
        DetectedElement {
            bounds: self.bounds,
            role: self.role.clone(),
            name: self.name.clone(),
            app_name: self.app_name.clone(),
            description: self.description.clone(),
        }
    }
}

impl DetectedElement {
    /// Creates a new detected element from the raw node data; the role is
    /// stored under its printable name.
    pub fn new(
        bounds: ElementBounds,
        role: Role,
        name: String,
        app_name: String,
        description: String,
    ) -> (r: Self)
        ensures
            r@ == (ElementView {
                bounds: bounds,
                role: spec_role_name(role),
                name: name@,
                app_name: app_name@,
                description: description@,
            }),
    {
        DetectedElement { bounds, role: role_name(role), name, app_name, description }
    }

    /// Returns the center point of the element in screen coordinates,
    /// typically used as the click target position.
    pub fn center(&self) -> (r: (i32, i32))
        requires
            self.bounds.width >= 0,
            self.bounds.height >= 0,
            self.bounds.x + self.bounds.width / 2 <= i32::MAX,
            self.bounds.y + self.bounds.height / 2 <= i32::MAX,
        ensures
            (r.0 as int, r.1 as int) == self.bounds.spec_center(),
    {
        self.bounds.center()
    }
}

} // verus!
