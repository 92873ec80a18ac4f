//! The order in which the panes of a workspace are drawn.
use crate::layout::{LayoutNode, PaneId, SplitDirection};
use vstd::prelude::*;

verus! {

/// Something to draw.
#[derive(Debug, Clone, Copy, PartialEq, Eq, Structural)]
pub enum DrawStep {
    Pane { id: PaneId, focus_border: bool },
    /// The line between the two halves of a split.
    Separator { direction: SplitDirection },
}

/// The steps that draw a tree: the halves of a split first, then the line
/// between them.
pub open spec fn steps_of(node: LayoutNode, focused: Option<PaneId>, show_focus: bool) -> Seq<
    DrawStep,
>
    decreases node,
{
    match node {
        LayoutNode::Leaf(pane) => seq![
            DrawStep::Pane { id: pane.id, focus_border: focused == Some(pane.id) && show_focus },
        ],
        LayoutNode::Split { direction, first, second, .. } => steps_of(
            *first,
            focused,
            show_focus,
        ) + steps_of(*second, focused, show_focus) + seq![DrawStep::Separator { direction }],
        LayoutNode::Empty => seq![],
    }
}

/// Adds the steps that draw a tree, and counts its panes.
pub fn render_panes_recursive(
    node: &LayoutNode,
    focused: Option<PaneId>,
    show_focus: bool,
    pane_counter: &mut usize,
    steps: &mut Vec<DrawStep>,
)
    requires
        *old(pane_counter) + node.panes().len() <= usize::MAX,
    ensures
        *final(pane_counter) == *old(pane_counter) + node.panes().len(),
        final(steps)@ == old(steps)@ + steps_of(*node, focused, show_focus),
    decreases node,
{
    match node {
        LayoutNode::Leaf(pane) => {
            *pane_counter = *pane_counter + 1;
            steps.push(
                DrawStep::Pane {
                    id: pane.id,
                    focus_border: focused == Some(pane.id) && show_focus,
                },
            );
        },
        LayoutNode::Split { direction, first, second, .. } => {
            render_panes_recursive(first, focused, show_focus, pane_counter, steps);
            render_panes_recursive(second, focused, show_focus, pane_counter, steps);
            steps.push(DrawStep::Separator { direction: *direction });
        },
        LayoutNode::Empty => {},
    }
    assert(steps@ =~= old(steps)@ + steps_of(*node, focused, show_focus));
}

/// The panes among the steps.
pub open spec fn drawn_panes(steps: Seq<DrawStep>) -> Seq<PaneId>
    decreases steps.len(),
{
    if steps.len() == 0 {
        seq![]
    } else {
        let rest = drawn_panes(steps.drop_last());
        match steps.last() {
            DrawStep::Pane { id, .. } => rest.push(id),
            DrawStep::Separator { .. } => rest,
        }
    }
}

proof fn lemma_drawn_concat(a: Seq<DrawStep>, b: Seq<DrawStep>)
    ensures
        drawn_panes(a + b) == drawn_panes(a) + drawn_panes(b),
    decreases b.len(),
{
    if b.len() == 0 {
        assert(a + b =~= a);
        assert(drawn_panes(a) + drawn_panes(b) =~= drawn_panes(a));
    } else {
        assert((a + b).drop_last() =~= a + b.drop_last());
        assert((a + b).last() == b.last());
        lemma_drawn_concat(a, b.drop_last());
        assert(drawn_panes(a + b) =~= drawn_panes(a) + drawn_panes(b));
    }
}

/// Every pane of the tree is drawn, each once, in the order of the tree.
pub proof fn law_every_pane_is_drawn(node: LayoutNode, focused: Option<PaneId>, show_focus: bool)
    ensures
        drawn_panes(steps_of(node, focused, show_focus)) == node.ids(),
    decreases node,
{
    match node {
        LayoutNode::Leaf(pane) => {
            let steps = steps_of(node, focused, show_focus);
            assert(steps.drop_last() =~= Seq::<DrawStep>::empty());
            assert(drawn_panes(steps.drop_last()) =~= Seq::<PaneId>::empty());
            assert(steps.last() == steps[0]);
            assert(drawn_panes(steps) =~= seq![pane.id]);
            assert(node.panes() =~= seq![pane]);
            assert(drawn_panes(steps) =~= node.ids());
        },
        LayoutNode::Split { direction, first, second, .. } => {
            let (a, b) = (
                steps_of(*first, focused, show_focus),
                steps_of(*second, focused, show_focus),
            );
            let line = seq![DrawStep::Separator { direction }];
            law_every_pane_is_drawn(*first, focused, show_focus);
            law_every_pane_is_drawn(*second, focused, show_focus);
            lemma_drawn_concat(a, b);
            assert((a + b + line).drop_last() =~= a + b);
            assert(drawn_panes(a + b + line) =~= node.ids());
        },
        LayoutNode::Empty => {
            assert(drawn_panes(seq![]) =~= node.ids());
        },
    }
}

} // verus!
