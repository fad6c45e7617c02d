//! Reasoning effort levels of a model.

use vstd::prelude::*;
use vstd::string::*;

verus! {

/// How much a model reasons before it answers.
#[derive(Clone, Copy, Debug, PartialEq, Eq, Structural)]
pub enum ReasoningEffort {
    /// No reasoning at all (written "none").
    Off,
    Minimal,
    Low,
    Medium,
    High,
    XHigh,
}

/// The name of an effort level as configuration files and messages write it.
pub open spec fn effort_name(e: ReasoningEffort) -> Seq<char> {
    match e {
        ReasoningEffort::Off => "none"@,
        ReasoningEffort::Minimal => "minimal"@,
        ReasoningEffort::Low => "low"@,
        ReasoningEffort::Medium => "medium"@,
        ReasoningEffort::High => "high"@,
        ReasoningEffort::XHigh => "xhigh"@,
    }
}

/// The label of an effort level in a picker.
pub open spec fn effort_label(e: ReasoningEffort) -> Seq<char> {
    match e {
        ReasoningEffort::Off => "None"@,
        ReasoningEffort::Minimal => "Minimal"@,
        ReasoningEffort::Low => "Low"@,
        ReasoningEffort::Medium => "Medium"@,
        ReasoningEffort::High => "High"@,
        ReasoningEffort::XHigh => "Extra high"@,
    }
}

impl ReasoningEffort {
    /// The name of this effort level, such as "high".
    pub fn name(&self) -> (s: String)
        ensures
            s@ == effort_name(*self),
    {
        match self {
            ReasoningEffort::Off => String::from_str("none"),
            ReasoningEffort::Minimal => String::from_str("minimal"),
            ReasoningEffort::Low => String::from_str("low"),
            ReasoningEffort::Medium => String::from_str("medium"),
            ReasoningEffort::High => String::from_str("high"),
            ReasoningEffort::XHigh => String::from_str("xhigh"),
        }
    }

    /// The label of this effort level in a picker, such as "Extra high".
    pub fn label(&self) -> (s: String)
        ensures
            s@ == effort_label(*self),
    {
        match self {
            ReasoningEffort::Off => String::from_str("None"),
            ReasoningEffort::Minimal => String::from_str("Minimal"),
            ReasoningEffort::Low => String::from_str("Low"),
            ReasoningEffort::Medium => String::from_str("Medium"),
            ReasoningEffort::High => String::from_str("High"),
            ReasoningEffort::XHigh => String::from_str("Extra high"),
        }
    }
}

/// Whether `list` holds `e`.
pub fn efforts_contain(list: &Vec<ReasoningEffort>, e: ReasoningEffort) -> (b: bool)
    ensures
        b == list@.contains(e),
{
    let n = list.len();
    for i in 0..n
        invariant
            n == list@.len(),
            forall|j: int| 0 <= j < i ==> list@[j] != e,
    {
        if list[i] == e {
            return true;
        }
    }
    false
}

} // verus!
