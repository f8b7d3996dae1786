//! The plan by which the wrapper classes are registered with the managed
//! runtime when the module loads. Every class is set on the module exports;
//! all but the realtime context class are also recorded in the internal
//! constructor store, so that one wrapper can instantiate another — a context
//! its destination node, a decode call an audio buffer — without reaching
//! back through the public exports.

use vstd::prelude::*;

verus! {

/// The wrapper classes the module registers.
#[derive(Clone, Copy, PartialEq, Eq, Structural, Debug)]
pub enum WrapperClass {
    AudioContext,
    AudioBuffer,
    AudioDestinationNode,
    AudioBufferSourceNode,
    BiquadFilterNode,
    ChannelMergerNode,
    ConstantSourceNode,
    DynamicsCompressorNode,
    GainNode,
    OscillatorNode,
}

/// The order in which the classes are registered: the realtime context first,
/// then the buffer and destination classes, then the node classes.
pub open spec fn registration_order() -> Seq<WrapperClass> {
    seq![
        WrapperClass::AudioContext,
        WrapperClass::AudioBuffer,
        WrapperClass::AudioDestinationNode,
        WrapperClass::AudioBufferSourceNode,
        WrapperClass::BiquadFilterNode,
        WrapperClass::ChannelMergerNode,
        WrapperClass::ConstantSourceNode,
        WrapperClass::DynamicsCompressorNode,
        WrapperClass::GainNode,
        WrapperClass::OscillatorNode,
    ]
}

/// The name under which a wrapper class is registered.
pub fn class_name(c: WrapperClass) -> (r: &'static str)
    ensures
        c == WrapperClass::AudioContext ==> r@ == "AudioContext"@,
        c == WrapperClass::AudioBuffer ==> r@ == "AudioBuffer"@,
        c == WrapperClass::AudioDestinationNode ==> r@ == "AudioDestinationNode"@,
        c == WrapperClass::AudioBufferSourceNode ==> r@ == "AudioBufferSourceNode"@,
        c == WrapperClass::BiquadFilterNode ==> r@ == "BiquadFilterNode"@,
        c == WrapperClass::ChannelMergerNode ==> r@ == "ChannelMergerNode"@,
        c == WrapperClass::ConstantSourceNode ==> r@ == "ConstantSourceNode"@,
        c == WrapperClass::DynamicsCompressorNode ==> r@ == "DynamicsCompressorNode"@,
        c == WrapperClass::GainNode ==> r@ == "GainNode"@,
        c == WrapperClass::OscillatorNode ==> r@ == "OscillatorNode"@,
{
    match c {
        WrapperClass::AudioContext => "AudioContext",
        WrapperClass::AudioBuffer => "AudioBuffer",
        WrapperClass::AudioDestinationNode => "AudioDestinationNode",
        WrapperClass::AudioBufferSourceNode => "AudioBufferSourceNode",
        WrapperClass::BiquadFilterNode => "BiquadFilterNode",
        WrapperClass::ChannelMergerNode => "ChannelMergerNode",
        WrapperClass::ConstantSourceNode => "ConstantSourceNode",
        WrapperClass::DynamicsCompressorNode => "DynamicsCompressorNode",
        WrapperClass::GainNode => "GainNode",
        WrapperClass::OscillatorNode => "OscillatorNode",
    }
}

/// Whether a wrapper class is also recorded in the internal constructor
/// store. The realtime context is only exported: nothing instantiates it
/// internally, and keeping it out of the store keeps its constructor private
/// to the module surface.
pub fn stored_in_constructor_store(c: WrapperClass) -> (r: bool)
    ensures
        r == (c != WrapperClass::AudioContext),
{
    match c {
        WrapperClass::AudioContext => false,
        _ => true,
    }
}

/// The classes to register, in registration order.
pub fn registration_plan() -> (r: Vec<WrapperClass>)
    ensures
        r@ == registration_order(),
{
    let mut plan: Vec<WrapperClass> = Vec::new();
    plan.push(WrapperClass::AudioContext);
    plan.push(WrapperClass::AudioBuffer);
    plan.push(WrapperClass::AudioDestinationNode);
    plan.push(WrapperClass::AudioBufferSourceNode);
    plan.push(WrapperClass::BiquadFilterNode);
    plan.push(WrapperClass::ChannelMergerNode);
    plan.push(WrapperClass::ConstantSourceNode);
    plan.push(WrapperClass::DynamicsCompressorNode);
    plan.push(WrapperClass::GainNode);
    plan.push(WrapperClass::OscillatorNode);
    proof {
        assert(plan@ =~= registration_order());
    }
    plan
}

} // verus!
