use vstd::prelude::*;

verus! {

/// What a tab of the dock area shows, chosen by its label.
#[derive(Clone, Copy, PartialEq, Eq, Structural, Debug)]
pub enum TabKind {
    /// The asset list ("Assets").
    Assets,
    /// The hierarchy panel ("Hierarchy").
    Hierarchy,
    /// The timeline ("Timeline").
    Timeline,
    /// The scene view, which answers to the lower-case label "scene".
    Scene,
    /// Any other label: a placeholder that names the tab.
    Placeholder,
}

/// The kind of tab that a label selects, by exact equality.
pub open spec fn kind_of(label: Seq<char>) -> TabKind {
    if label == "Assets"@ {
        TabKind::Assets
    } else if label == "Hierarchy"@ {
        TabKind::Hierarchy
    } else if label == "Timeline"@ {
        TabKind::Timeline
    } else if label == "scene"@ {
        TabKind::Scene
    } else {
        TabKind::Placeholder
    }
}

/// Chooses what the tab labelled `label` shows.
pub fn tab_kind(label: &String) -> (r: TabKind)
    ensures
        r == kind_of(label@),
{
    if *label == String::from_str("Assets") {
        TabKind::Assets
    } else if *label == String::from_str("Hierarchy") {
        TabKind::Hierarchy
    } else if *label == String::from_str("Timeline") {
        TabKind::Timeline
    } else if *label == String::from_str("scene") {
        TabKind::Scene
    } else {
        TabKind::Placeholder
    }
}

/// The text that a tab of no known kind shows.
pub fn placeholder_text(label: &str) -> (r: String)
    ensures
        r@ == "Empty "@ + label@ + " contents"@,
{
    String::from_str("Empty ").concat(label).concat(" contents")
}

} // verus!
