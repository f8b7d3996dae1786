use node_web_audio_api::registration::{
    class_name, registration_plan, stored_in_constructor_store, WrapperClass,
};

#[test]
fn plan_registers_every_wrapper_class_once() {
    let plan = registration_plan();
    assert_eq!(plan.len(), 10);
    assert_eq!(plan[0], WrapperClass::AudioContext);
    assert_eq!(plan[1], WrapperClass::AudioBuffer);
    assert_eq!(plan[2], WrapperClass::AudioDestinationNode);
    assert_eq!(plan[9], WrapperClass::OscillatorNode);
    for i in 0..plan.len() {
        for j in (i + 1)..plan.len() {
            assert_ne!(plan[i], plan[j]);
        }
    }
}

#[test]
fn class_names_match_the_exported_spelling() {
    assert_eq!(class_name(WrapperClass::AudioContext), "AudioContext");
    assert_eq!(class_name(WrapperClass::AudioBuffer), "AudioBuffer");
    assert_eq!(
        class_name(WrapperClass::AudioDestinationNode),
        "AudioDestinationNode"
    );
    assert_eq!(
        class_name(WrapperClass::AudioBufferSourceNode),
        "AudioBufferSourceNode"
    );
    assert_eq!(class_name(WrapperClass::BiquadFilterNode), "BiquadFilterNode");
    assert_eq!(
        class_name(WrapperClass::ChannelMergerNode),
        "ChannelMergerNode"
    );
    assert_eq!(
        class_name(WrapperClass::ConstantSourceNode),
        "ConstantSourceNode"
    );
    assert_eq!(
        class_name(WrapperClass::DynamicsCompressorNode),
        "DynamicsCompressorNode"
    );
    assert_eq!(class_name(WrapperClass::GainNode), "GainNode");
    assert_eq!(class_name(WrapperClass::OscillatorNode), "OscillatorNode");
}

#[test]
fn only_the_realtime_context_stays_out_of_the_store() {
    let plan = registration_plan();
    for class in plan {
        let stored = stored_in_constructor_store(class);
        assert_eq!(stored, class != WrapperClass::AudioContext);
    }
}
