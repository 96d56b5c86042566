use vstd::prelude::*;

use crate::mode::Mode;
use crate::report::Report;

verus! {

/// One of the five independently stored key-mapping profiles, 1-indexed
/// on the wire (byte 2 of a report).
#[derive(Clone, Copy, Debug, PartialEq, Eq, Structural)]
pub enum Layer {
    One,
    Two,
    Three,
    Four,
    Five,
}

impl Layer {
    /// On-wire value of this layer.
    pub open spec fn spec_value(self) -> u8 {
        match self {
            Layer::One => 1,
            Layer::Two => 2,
            Layer::Three => 3,
            Layer::Four => 4,
            Layer::Five => 5,
        }
    }

    #[verifier::when_used_as_spec(spec_value)]
    pub fn value(self) -> (v: u8)
        ensures
            v == self.spec_value(),
    {
        match self {
            Layer::One => 1,
            Layer::Two => 2,
            Layer::Three => 3,
            Layer::Four => 4,
            Layer::Five => 5,
        }
    }

    /// The layer encoded by an on-wire value, if it is one.
    pub open spec fn spec_from_u8(v: u8) -> Option<Layer> {
        if v == 1 {
            Some(Layer::One)
        } else if v == 2 {
            Some(Layer::Two)
        } else if v == 3 {
            Some(Layer::Three)
        } else if v == 4 {
            Some(Layer::Four)
        } else if v == 5 {
            Some(Layer::Five)
        } else {
            None
        }
    }

    #[verifier::when_used_as_spec(spec_from_u8)]
    pub fn from_u8(v: u8) -> (l: Option<Layer>)
        ensures
            l == Layer::spec_from_u8(v),
    {
        if v == 1 {
            Some(Layer::One)
        } else if v == 2 {
            Some(Layer::Two)
        } else if v == 3 {
            Some(Layer::Three)
        } else if v == 4 {
            Some(Layer::Four)
        } else if v == 5 {
            Some(Layer::Five)
        } else {
            None
        }
    }
}

/// Decoding an encoded layer restores the layer.
pub proof fn lemma_layer_code_injective(l: Layer)
    ensures
        Layer::spec_from_u8(l.spec_value()) == Some(l),
{
}

/// The single report that performs a layer switch: a zeroed report
/// carrying only the protocol marker, the `LayerWrite` opcode and the
/// target layer.  Sending it is the whole operation; no read phase and
/// no finalize report follow.
pub fn layer_write_report(layer: Layer) -> (r: Report)
    ensures
        r@ == Report::spec_request(Mode::LayerWrite, layer),
{
    Report::request(Mode::LayerWrite, layer)
}

} // verus!
