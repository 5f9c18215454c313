use vstd::prelude::*;

verus! {

/// Where a split places the new region relative to the one it splits.
#[derive(Clone, Copy, PartialEq, Eq, Structural, Debug)]
pub enum Side {
    Left,
    Right,
    Above,
    Below,
}

/// One split of a region: `target` names the region that is split (0 is the first
/// region, `k + 1` the one that the split at index `k` made), `percent` is the share of
/// its area that the target keeps, and `tabs` are the tabs of the new region.
pub struct Split {
    pub target: usize,
    pub side: Side,
    pub percent: u8,
    pub tabs: Vec<String>,
}

/// The layout of the dock area: the tabs of the first region and the splits that make
/// the others, applied in order.
pub struct DockPlan {
    pub root: Vec<String>,
    pub splits: Vec<Split>,
}

pub struct SplitView {
    pub target: nat,
    pub side: Side,
    pub percent: nat,
    pub tabs: Seq<Seq<char>>,
}

pub struct DockPlanView {
    pub root: Seq<Seq<char>>,
    pub splits: Seq<SplitView>,
}

/// The labels of a list of tabs.
pub open spec fn labels(tabs: Seq<String>) -> Seq<Seq<char>> {
    tabs.map_values(|s: String| s@)
}

impl View for Split {
    type V = SplitView;

    open spec fn view(&self) -> SplitView {
        SplitView {
            target: self.target as nat,
            side: self.side,
            percent: self.percent as nat,
            tabs: labels(self.tabs@),
        }
    }
}

impl View for DockPlan {
    type V = DockPlanView;

    open spec fn view(&self) -> DockPlanView {
        DockPlanView {
            root: labels(self.root@),
            splits: self.splits@.map_values(|s: Split| s@),
        }
    }
}

impl DockPlanView {
    /// Each split names a region made before it, gives a share of at most 100 percent,
    /// and brings at least one tab.
    pub open spec fn wf(self) -> bool {
        forall|k: int|
            0 <= k < self.splits.len() ==> {
                &&& #[trigger] self.splits[k].target <= k
                &&& self.splits[k].percent <= 100
                &&& self.splits[k].tabs.len() > 0
            }
    }

    /// The tabs of each region, the first region first.
    pub open spec fn regions(self) -> Seq<Seq<Seq<char>>> {
        seq![self.root] + self.splits.map_values(|s: SplitView| s.tabs)
    }

    /// The labels of all tabs of the layout.
    pub open spec fn tab_names(self) -> Set<Seq<char>> {
        Set::new(
            |l: Seq<char>|
                exists|i: int, j: int|
                    0 <= i < self.regions().len() && 0 <= j < self.regions()[i].len()
                        && #[trigger] self.regions()[i][j] == l,
        )
    }
}

/// The layout the editor starts with: the timeline; the hierarchy and the assets to its
/// left, the timeline keeping a quarter; the player and the scene above the timeline,
/// which keeps half.
pub open spec fn default_plan_view() -> DockPlanView {
    DockPlanView {
        root: seq!["Timeline"@],
        splits: seq![
            SplitView { target: 0, side: Side::Left, percent: 25, tabs: seq!["Hierarchy"@, "Assets"@] },
            SplitView { target: 0, side: Side::Above, percent: 50, tabs: seq!["Player"@, "Scene"@] },
        ],
    }
}

/// Builds the layout the editor starts with. It takes nothing, so every call yields the
/// same layout.
pub fn default_plan() -> (r: DockPlan)
    ensures
        r@ == default_plan_view(),
{
    let mut root: Vec<String> = Vec::new();
    root.push(String::from_str("Timeline"));

    let mut left: Vec<String> = Vec::new();
    left.push(String::from_str("Hierarchy"));
    left.push(String::from_str("Assets"));

    let mut above: Vec<String> = Vec::new();
    above.push(String::from_str("Player"));
    above.push(String::from_str("Scene"));

    let first = Split { target: 0, side: Side::Left, percent: 25, tabs: left };
    let second = Split { target: 0, side: Side::Above, percent: 50, tabs: above };
    assert(first@.tabs =~= seq!["Hierarchy"@, "Assets"@]);
    assert(second@.tabs =~= seq!["Player"@, "Scene"@]);

    let mut splits: Vec<Split> = Vec::new();
    splits.push(first);
    splits.push(second);

    let r = DockPlan { root, splits };
    assert(r@.root =~= default_plan_view().root);
    assert(r@.splits =~= default_plan_view().splits);
    r
}

/// The starting layout is well formed, and its tabs are exactly the timeline, the
/// hierarchy, the assets, the player and the scene.
pub proof fn default_layout_regions()
    ensures
        default_plan_view().wf(),
        default_plan_view().tab_names() == set!["Timeline"@, "Hierarchy"@, "Assets"@, "Player"@, "Scene"@],
{
    let v = default_plan_view();
    let rs = v.regions();
    assert(rs =~= seq![seq!["Timeline"@], seq!["Hierarchy"@, "Assets"@], seq!["Player"@, "Scene"@]]);
    let expected = set!["Timeline"@, "Hierarchy"@, "Assets"@, "Player"@, "Scene"@];
    assert forall|l: Seq<char>| v.tab_names().contains(l) <==> expected.contains(l) by {
        if l == "Timeline"@ {
            assert(rs[0][0] == l);
        } else if l == "Hierarchy"@ {
            assert(rs[1][0] == l);
        } else if l == "Assets"@ {
            assert(rs[1][1] == l);
        } else if l == "Player"@ {
            assert(rs[2][0] == l);
        } else if l == "Scene"@ {
            assert(rs[2][1] == l);
        }
    }
    assert(v.tab_names() =~= expected);
}

} // verus!
