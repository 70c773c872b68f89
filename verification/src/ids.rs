//! The addressing model: node and pin names, and the source/target ends of
//! directed edges.

use vstd::prelude::*;
use crate::table::KeyEq;

verus! {

/// Unique identity of a node instance within one graph.
pub type NodeId = String;

/// Name of an input or output slot on a node.
pub type PinId = String;

/// Identifies an output producer: a node's parameter or pose output, or a
/// graph-level input.
#[derive(Debug, PartialEq, Eq)]
pub enum SourcePin {
    NodeParameter(NodeId, PinId),
    InputParameter(PinId),
    NodePose(NodeId),
    InputPose(PinId),
}

/// Mathematical model of a source pin, over character sequences.
pub ghost enum SourcePinView {
    NodeParameter(Seq<char>, Seq<char>),
    InputParameter(Seq<char>),
    NodePose(Seq<char>),
    InputPose(Seq<char>),
}

impl View for SourcePin {
    type V = SourcePinView;

    open spec fn view(&self) -> SourcePinView {
        match self {
            SourcePin::NodeParameter(n, p) => SourcePinView::NodeParameter(n@, p@),
            SourcePin::InputParameter(p) => SourcePinView::InputParameter(p@),
            SourcePin::NodePose(n) => SourcePinView::NodePose(n@),
            SourcePin::InputPose(p) => SourcePinView::InputPose(p@),
        }
    }
}

impl Clone for SourcePin {
    fn clone(&self) -> (r: Self)
        ensures
            r == *self,
    {
        match self {
            SourcePin::NodeParameter(n, p) => SourcePin::NodeParameter(n.clone(), p.clone()),
            SourcePin::InputParameter(p) => SourcePin::InputParameter(p.clone()),
            SourcePin::NodePose(n) => SourcePin::NodePose(n.clone()),
            SourcePin::InputPose(p) => SourcePin::InputPose(p.clone()),
        }
    }
}

impl KeyEq for SourcePin {
    fn key_eq(&self, other: &Self) -> (r: bool)
        ensures
            r == (self@ == other@),
    {
        match (self, other) {
            (SourcePin::NodeParameter(n, p), SourcePin::NodeParameter(m, q)) => n.eq(m) && p.eq(q),
            (SourcePin::InputParameter(p), SourcePin::InputParameter(q)) => p.eq(q),
            (SourcePin::NodePose(n), SourcePin::NodePose(m)) => n.eq(m),
            (SourcePin::InputPose(p), SourcePin::InputPose(q)) => p.eq(q),
            _ => false,
        }
    }
}

/// Identifies an input consumer: a node's parameter or pose input, or a
/// graph-level output.  Each target pin has at most one incoming edge.
#[derive(Debug, PartialEq, Eq)]
pub enum TargetPin {
    NodeParameter(NodeId, PinId),
    OutputParameter(PinId),
    NodePose(NodeId, PinId),
    OutputPose,
}

/// Mathematical model of a target pin, over character sequences.
pub ghost enum TargetPinView {
    NodeParameter(Seq<char>, Seq<char>),
    OutputParameter(Seq<char>),
    NodePose(Seq<char>, Seq<char>),
    OutputPose,
}

impl View for TargetPin {
    type V = TargetPinView;

    open spec fn view(&self) -> TargetPinView {
        match self {
            TargetPin::NodeParameter(n, p) => TargetPinView::NodeParameter(n@, p@),
            TargetPin::OutputParameter(p) => TargetPinView::OutputParameter(p@),
            TargetPin::NodePose(n, p) => TargetPinView::NodePose(n@, p@),
            TargetPin::OutputPose => TargetPinView::OutputPose,
        }
    }
}

impl Clone for TargetPin {
    fn clone(&self) -> (r: Self)
        ensures
            r == *self,
    {
        match self {
            TargetPin::NodeParameter(n, p) => TargetPin::NodeParameter(n.clone(), p.clone()),
            TargetPin::OutputParameter(p) => TargetPin::OutputParameter(p.clone()),
            TargetPin::NodePose(n, p) => TargetPin::NodePose(n.clone(), p.clone()),
            TargetPin::OutputPose => TargetPin::OutputPose,
        }
    }
}

impl KeyEq for TargetPin {
    fn key_eq(&self, other: &Self) -> (r: bool)
        ensures
            r == (self@ == other@),
    {
        match (self, other) {
            (TargetPin::NodeParameter(n, p), TargetPin::NodeParameter(m, q)) => n.eq(m) && p.eq(q),
            (TargetPin::OutputParameter(p), TargetPin::OutputParameter(q)) => p.eq(q),
            (TargetPin::NodePose(n, p), TargetPin::NodePose(m, q)) => n.eq(m) && p.eq(q),
            (TargetPin::OutputPose, TargetPin::OutputPose) => true,
            _ => false,
        }
    }
}

} // verus!
