//! Hint generation and pairing: deterministic, unique, shortest-first labels
//! for detected elements, and the label/element pairs driven by user input.

pub mod generator;
pub mod layout;

use crate::detection::types::DetectedElement;
use crate::hints::generator::HintGenerator;
use crate::hints::generator::HintLabel;
use crate::hints::generator::spec_is_prefix;
use crate::hints::generator::spec_label;
use crate::hints::layout::KeyboardLayout;
use vstd::prelude::*;

verus! {

/// A hint associated with a detected element, created once per detection
/// cycle and discarded with it.
#[derive(Debug)]
pub struct ElementHint {
    pub label: HintLabel,
    pub element: DetectedElement,
}

impl Clone for ElementHint {
    /// A hint and its clone agree in label and element.
    fn clone(&self) -> (r: Self)
        ensures
            r == *self,
    {
        ElementHint { label: self.label.clone(), element: self.element.clone() }
    }
}

impl ElementHint {
    pub fn new(label: HintLabel, element: DetectedElement) -> (r: Self)
        ensures
            r.label == label,
            r.element == element,
    {
        ElementHint { label, element }
    }

    /// Check if this hint matches the given input, i.e. whether its label
    /// starts with the input.
    pub fn matches(&self, input: &str) -> (r: bool)
        ensures
            r == spec_is_prefix(input@, self.label@),
    {
        self.label.matches(input)
    }

    /// Check if this hint is an exact match for the input.
    pub fn is_exact_match(&self, input: &str) -> (r: bool)
        ensures
            r == (self.label@ == input@),
    {
        self.label.is_exact_match(input)
    }
}

/// Generate hints for a list of detected elements.
///
/// The element at index `i` of the scan order receives label `i` of the
/// generation order, so the earliest elements get the shortest labels. An
/// empty alphabet yields no hints; otherwise every element gets exactly one
/// hint.
pub fn generate_hints_for_elements(
    elements: Vec<DetectedElement>,
    layout: &KeyboardLayout,
) -> (r: Vec<ElementHint>)
    ensures
        layout.spec_chars().len() == 0 ==> r@.len() == 0,
        layout.spec_chars().len() >= 1 ==> r@.len() == elements@.len(),
        forall|i: int|
            0 <= i < r@.len() ==> r@[i].element == elements@[i] && r@[i].label@ == spec_label(
                layout.spec_chars(),
                i as nat,
            ),
{
    let generator = HintGenerator::new(layout.clone());
    let labels = generator.generate(elements.len());

    let n = if labels.len() < elements.len() {
        labels.len()
    } else {
        elements.len()
    };
    let mut hints: Vec<ElementHint> = Vec::new();
    let mut i: usize = 0;
    while i < n
        invariant
            i <= n,
            n <= labels@.len(),
            n <= elements@.len(),
            hints@.len() == i,
            forall|j: int|
                0 <= j < i ==> hints@[j].element == elements@[j] && hints@[j].label@
                    == labels@[j]@,
        decreases n - i,
    {
        hints.push(ElementHint::new(labels[i].clone(), elements[i].clone()));
        i += 1;
    }
    hints
}

} // verus!
