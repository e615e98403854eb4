//! The order of the automaton's nodes within a frame.

use vstd::prelude::*;

verus! {

/// A node of the render graph.
#[derive(Clone, Copy, Debug, PartialEq, Eq, Hash, Structural)]
pub enum PipelineNode {
    /// Writes the brush stroke.
    Draw,
    /// Steps the automaton.
    GameOfLife,
    /// Turns cells into colours.
    Color,
    /// Presents the frame. Not a node of this library.
    CameraDriver,
}

impl PipelineNode {
    /// The name the node goes by in the render graph.
    pub open spec fn spec_name(self) -> &'static str {
        match self {
            PipelineNode::Draw => "game_of_life_draw",
            PipelineNode::GameOfLife => "game_of_life",
            PipelineNode::Color => "game_of_life_color",
            PipelineNode::CameraDriver => "camera_driver",
        }
    }

    /// The name the node goes by in the render graph.
    #[verifier::when_used_as_spec(spec_name)]
    pub fn name(self) -> (name: &'static str)
        ensures
            name == self.spec_name(),
    {
        match self {
            PipelineNode::Draw => "game_of_life_draw",
            PipelineNode::GameOfLife => "game_of_life",
            PipelineNode::Color => "game_of_life_color",
            PipelineNode::CameraDriver => "camera_driver",
        }
    }

    /// The node's place in a frame.
    pub open spec fn place(self) -> int {
        match self {
            PipelineNode::Draw => 0,
            PipelineNode::GameOfLife => 1,
            PipelineNode::Color => 2,
            PipelineNode::CameraDriver => 3,
        }
    }
}

/// The edges of the render graph, each from a node to the one that must
/// run after it: the brush, then the automaton, then the colours, then the
/// presentation.
pub open spec fn graph_edges() -> Seq<(PipelineNode, PipelineNode)> {
    seq![
        (PipelineNode::Draw, PipelineNode::GameOfLife),
        (PipelineNode::GameOfLife, PipelineNode::Color),
        (PipelineNode::Color, PipelineNode::CameraDriver),
    ]
}

/// The edges of the render graph.
pub fn node_edges() -> (edges: Vec<(PipelineNode, PipelineNode)>)
    ensures
        edges@ == graph_edges(),
{
    let mut edges: Vec<(PipelineNode, PipelineNode)> = Vec::new();
    edges.push((PipelineNode::Draw, PipelineNode::GameOfLife));
    edges.push((PipelineNode::GameOfLife, PipelineNode::Color));
    edges.push((PipelineNode::Color, PipelineNode::CameraDriver));
    assert(edges@ =~= graph_edges());
    edges
}

/// The edges put the nodes in one order: each edge leads to the node at
/// the next place, and every node but the last has an edge leaving it.
pub proof fn edges_form_a_chain()
    ensures
        forall|i: int|
            0 <= i < graph_edges().len() ==> (#[trigger] graph_edges()[i]).0.place() == i
                && graph_edges()[i].1.place() == i + 1,
{
}

} // verus!
