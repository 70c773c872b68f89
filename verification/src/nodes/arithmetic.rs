//! Arithmetic on scalar parameters: a node that adds its two scalar inputs,
//! for assembling derived control values inside the graph.

use vstd::prelude::*;
use crate::context::{InputOverlay, PassContext};
use crate::data::ParamValue;
use crate::errors::GraphError;
use crate::graph::{AnimationGraph, AnimationNode, AnimationNodeType};
use crate::times::sat_add;

verus! {

/// Adds two scalar parameters, saturating.
#[derive(Debug)]
pub struct AddNode {}

impl AddNode {
    pub fn new() -> (r: Self) {
        AddNode {  }
    }

    /// The name of the first scalar input pin.
    pub fn input_pin_1() -> (r: crate::ids::PinId)
        ensures
            r@ == "In 1"@,
    {
        "In 1".to_owned()
    }

    /// The name of the second scalar input pin.
    pub fn input_pin_2() -> (r: crate::ids::PinId)
        ensures
            r@ == "In 2"@,
    {
        "In 2".to_owned()
    }

    /// The name of the scalar output pin.
    pub fn output_pin() -> (r: crate::ids::PinId)
        ensures
            r@ == "Out"@,
    {
        "Out".to_owned()
    }

    /// The label shown for this node kind; behaviourally inert.
    pub fn display_name(&self) -> (r: String)
        ensures
            r@ == "Add"@,
    {
        "Add".to_owned()
    }

    /// Wraps the node under an instance name.
    pub fn wrapped(self, name: String) -> (r: AnimationNode)
        ensures
            r.name == name,
            r.node == AnimationNodeType::Add(self),
    {
        AnimationNode::new_from_nodetype(name, AnimationNodeType::Add(self))
    }

    /// Pulls both scalar inputs and returns their saturating sum; a
    /// non-scalar operand is a missing parameter.
    pub fn parameter_pass(
        &self,
        graph: &AnimationGraph,
        overlay: &InputOverlay,
        pass: &PassContext,
    ) -> (r: Result<ParamValue, GraphError>)
        ensures
            r matches Ok(v) ==> v is Scalar,
            pass.node_context is None ==> r == Err::<ParamValue, GraphError>(
                GraphError::MissingNodeContext,
            ),
            pass.node_context matches Some(nc) ==> (crate::graph::spec_add_parameter(
                *graph,
                *overlay,
                nc.node_id@,
                pass.fuel as nat,
            ) matches Some(v) ==> r == v),
        decreases pass.fuel, 1int,
    {
        let a = match pass.parameter_back(graph, AddNode::input_pin_1(), overlay) {
            Ok(v) => match v.as_scalar() {
                Some(s) => s,
                None => {
                    return Err(GraphError::MissingParameter);
                },
            },
            Err(e) => {
                return Err(e);
            },
        };
        let b = match pass.parameter_back(graph, AddNode::input_pin_2(), overlay) {
            Ok(v) => match v.as_scalar() {
                Some(s) => s,
                None => {
                    return Err(GraphError::MissingParameter);
                },
            },
            Err(e) => {
                return Err(e);
            },
        };
        Ok(ParamValue::Scalar(sat_add(a, b)))
    }
}

} // verus!
