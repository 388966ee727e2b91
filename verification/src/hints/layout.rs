//! Keyboard layout configuration: which ordered set of symbols hint labels
//! are drawn from.

use vstd::prelude::*;

verus! {

/// Keyboard layout mode for hint generation.
#[derive(Clone, Copy, Debug, PartialEq, Eq, Structural)]
pub enum LayoutMode {
    /// Standard layout using all home-row keys (asdfjkl;)
    Standard,
    /// Left-handed layout using only left-side keys (asdfg)
    LeftHanded,
    /// Right-handed layout using only right-side keys (hjkl;)
    RightHanded,
    /// Custom layout with user-defined characters
    Custom,
}

impl Default for LayoutMode {
    /// The default layout mode is `Standard`.
    fn default() -> (r: Self)
        ensures
            r == LayoutMode::Standard,
    {
        LayoutMode::Standard
    }
}

/// The home-row alphabet used by the standard layout, and as the fallback of
/// a custom layout without characters.
pub open spec fn spec_standard_chars() -> Seq<char> {
    seq!['a', 's', 'd', 'f', 'j', 'k', 'l', ';']
}

/// Keyboard layout configuration for hint generation.
#[derive(Debug)]
pub struct KeyboardLayout {
    pub mode: LayoutMode,
    pub custom_chars: Option<Vec<char>>,
}

impl KeyboardLayout {
    /// The ordered alphabet this layout denotes.
    pub open spec fn spec_chars(self) -> Seq<char> {
        match self.mode {
            LayoutMode::Standard => spec_standard_chars(),
            LayoutMode::LeftHanded => seq!['a', 's', 'd', 'f', 'g'],
            LayoutMode::RightHanded => seq!['h', 'j', 'k', 'l', ';'],
            LayoutMode::Custom => match self.custom_chars {
                Some(chars) => chars@,
                None => spec_standard_chars(),
            },
        }
    }

    /// Get the character sequence for this layout.
    pub fn chars(&self) -> (r: Vec<char>)
        ensures
            r@ == self.spec_chars(),
    {
        match self.mode {
            LayoutMode::Standard => standard_chars(),
            LayoutMode::LeftHanded => {
                let mut v: Vec<char> = Vec::new();
                v.push('a');
                v.push('s');
                v.push('d');
                v.push('f');
                v.push('g');
                proof {
                    assert(v@ =~= seq!['a', 's', 'd', 'f', 'g']);
                }
                v
            },
            LayoutMode::RightHanded => {
                let mut v: Vec<char> = Vec::new();
                v.push('h');
                v.push('j');
                v.push('k');
                v.push('l');
                v.push(';');
                proof {
                    assert(v@ =~= seq!['h', 'j', 'k', 'l', ';']);
                }
                v
            },
            LayoutMode::Custom => match &self.custom_chars {
                Some(chars) => copy_chars(chars),
                None => standard_chars(),
            },
        }
    }

    /// Create a new standard layout.
    pub fn standard() -> (r: Self)
        ensures
            r.mode == LayoutMode::Standard,
            r.custom_chars is None,
            r.spec_chars() == spec_standard_chars(),
    {
        KeyboardLayout { mode: LayoutMode::Standard, custom_chars: None }
    }

    /// Create a new left-handed layout.
    pub fn left_handed() -> (r: Self)
        ensures
            r.mode == LayoutMode::LeftHanded,
            r.custom_chars is None,
            r.spec_chars() == seq!['a', 's', 'd', 'f', 'g'],
    {
        KeyboardLayout { mode: LayoutMode::LeftHanded, custom_chars: None }
    }

    /// Create a new right-handed layout.
    pub fn right_handed() -> (r: Self)
        ensures
            r.mode == LayoutMode::RightHanded,
            r.custom_chars is None,
            r.spec_chars() == seq!['h', 'j', 'k', 'l', ';'],
    {
        KeyboardLayout { mode: LayoutMode::RightHanded, custom_chars: None }
    }

    /// Create a custom layout with specific characters.
    pub fn custom(chars: Vec<char>) -> (r: Self)
        ensures
            r.mode == LayoutMode::Custom,
            r.custom_chars == Some(chars),
            r.spec_chars() == chars@,
    {
        KeyboardLayout { mode: LayoutMode::Custom, custom_chars: Some(chars) }
    }
}

impl Clone for KeyboardLayout {
    /// A layout and its clone denote the same mode and the same alphabet.
    fn clone(&self) -> (r: Self)
        ensures
            r.mode == self.mode,
            r.spec_chars() == self.spec_chars(),
    {
        KeyboardLayout {
            mode: self.mode,
            custom_chars: match &self.custom_chars {
                Some(chars) => Some(copy_chars(chars)),
                None => None,
            },
        }
    }
}

impl Default for KeyboardLayout {
    /// The default layout is the standard home-row layout.
    fn default() -> (r: Self)
        ensures
            r.mode == LayoutMode::Standard,
            r.custom_chars is None,
            r.spec_chars() == spec_standard_chars(),
    {
        KeyboardLayout { mode: LayoutMode::Standard, custom_chars: None }
    }
}

/// The standard home-row alphabet as a vector.
fn standard_chars() -> (r: Vec<char>)
    ensures
        r@ == spec_standard_chars(),
{
    let mut v: Vec<char> = Vec::new();
    v.push('a');
    v.push('s');
    v.push('d');
    v.push('f');
    v.push('j');
    v.push('k');
    v.push('l');
    v.push(';');
    proof {
        assert(v@ =~= spec_standard_chars());
    }
    v
}

/// An element-for-element copy of a character vector.
fn copy_chars(chars: &Vec<char>) -> (r: Vec<char>)
    ensures
        r@ == chars@,
{
    let mut v: Vec<char> = Vec::new();
    let n = chars.len();
    let mut i: usize = 0;
    while i < n
        invariant
            i <= n,
            n == chars@.len(),
            v@ =~= chars@.subrange(0, i as int),
        decreases n - i,
    {
        v.push(chars[i]);
        i += 1;
    }
    proof {
        assert(v@ =~= chars@);
    }
    v
}

} // verus!
