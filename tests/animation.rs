use ikari::animation::{
    animation_length_seconds, get_nearby_keyframes, property_write, AnimationState, Channel,
    ChannelPropertyStr, ChannelSample, Interpolation, KeyframeTime, KeyframeValue, LoopType,
    NodeProperty, Property,
};
use ikari::float_bits::{bits_is_nan, bits_le, bits_lt};
use ikari::render_scene::get_gltf_path;
use ikari::scene::GameNodeId;

fn t(x: f32) -> u32 {
    x.to_bits()
}

fn bytes_of(values: &[f32]) -> Vec<u8> {
    values.iter().flat_map(|v| v.to_le_bytes()).collect()
}

fn vector(x: f32, y: f32, z: f32) -> KeyframeValue {
    KeyframeValue::Vector([t(x), t(y), t(z)])
}

fn channel(property: Property, interpolation: Interpolation, times: &[f32], values: &[f32]) -> Channel {
    Channel {
        node_id: GameNodeId(0, 0),
        property,
        interpolation_type: interpolation,
        keyframe_timings: times.iter().map(|x| t(*x)).collect(),
        keyframe_values_u8: bytes_of(values),
    }
}

fn as_vector(value: KeyframeValue) -> [u32; 3] {
    match value {
        KeyframeValue::Vector(v) => v,
        KeyframeValue::Quaternion(_) => panic!("expected a vector"),
    }
}

#[test]
fn float_order_on_bit_patterns() {
    assert!(bits_le(t(-1.0), t(0.5)));
    assert!(bits_lt(t(-2.0), t(-1.0)));
    assert!(bits_le(t(-0.0), t(0.0)) && bits_le(t(0.0), t(-0.0)));
    assert!(!bits_lt(t(-0.0), t(0.0)));
    assert!(bits_is_nan(t(f32::NAN)));
    assert!(!bits_le(t(f32::NAN), t(1.0)) && !bits_le(t(1.0), t(f32::NAN)));
    assert!(bits_lt(t(1.0e30), t(f32::INFINITY)));
    assert!(bits_lt(t(f32::NEG_INFINITY), t(-1.0e30)));
}

#[test]
fn nearby_keyframes_around_a_time() {
    let times: Vec<u32> = [0.0f32, 1.0, 2.0].iter().map(|x| t(*x)).collect();
    assert_eq!(
        get_nearby_keyframes(&times, t(1.5)),
        (Some(KeyframeTime { index: 1, time: t(1.0) }), Some(KeyframeTime { index: 2, time: t(2.0) }))
    );
    assert_eq!(
        get_nearby_keyframes(&times, t(1.0)),
        (Some(KeyframeTime { index: 1, time: t(1.0) }), Some(KeyframeTime { index: 2, time: t(2.0) }))
    );
    assert_eq!(get_nearby_keyframes(&times, t(-1.0)), (None, Some(KeyframeTime { index: 0, time: t(0.0) })));
    assert_eq!(get_nearby_keyframes(&times, t(5.0)), (Some(KeyframeTime { index: 2, time: t(2.0) }), None));
    assert_eq!(get_nearby_keyframes(&[], t(0.0)), (None, None));
    let ties: Vec<u32> = [0.0f32, 1.0, 1.0].iter().map(|x| t(*x)).collect();
    assert_eq!(get_nearby_keyframes(&ties, t(1.0)).0, Some(KeyframeTime { index: 2, time: t(1.0) }));
}

#[test]
fn linear_sample_between_two_keyframes() {
    let c = channel(Property::Translation, Interpolation::Linear, &[0.0, 1.0], &[0.0, 0.0, 0.0, 10.0, 0.0, 0.0]);
    assert!(c.is_well_formed());
    match c.sample(t(0.5)).unwrap() {
        ChannelSample::Linear { previous, next, span } => {
            assert_eq!(as_vector(previous), [t(0.0); 3]);
            assert_eq!(as_vector(next), [t(10.0), t(0.0), t(0.0)]);
            assert_eq!((span.time, span.previous_time, span.next_time), (t(0.5), t(0.0), Some(t(1.0))));
            let factor = (0.5f32 - 0.0) / (1.0 - 0.0);
            let x = 10.0f32 * factor + 0.0 * (1.0 - factor);
            assert_eq!(x, 5.0);
        }
        other => panic!("unexpected sample {:?}", other),
    }
}

#[test]
fn sample_before_first_keyframe_is_first_value() {
    for interpolation in [Interpolation::Step, Interpolation::Linear] {
        let c = channel(Property::Scale, interpolation, &[1.0, 2.0], &[3.0, 4.0, 5.0, 6.0, 7.0, 8.0]);
        match c.sample(t(0.25)).unwrap() {
            ChannelSample::Value(v) => assert_eq!(as_vector(v), as_vector(vector(3.0, 4.0, 5.0))),
            other => panic!("unexpected sample {:?}", other),
        }
    }
    let cubic = channel(
        Property::Translation,
        Interpolation::CubicSpline,
        &[1.0, 2.0],
        &[9.0, 9.0, 9.0, 1.0, 2.0, 3.0, 8.0, 8.0, 8.0, 7.0, 7.0, 7.0, 4.0, 5.0, 6.0, 7.0, 7.0, 7.0],
    );
    assert!(cubic.is_well_formed());
    match cubic.sample(t(0.0)).unwrap() {
        ChannelSample::Value(v) => assert_eq!(as_vector(v), as_vector(vector(1.0, 2.0, 3.0))),
        other => panic!("unexpected sample {:?}", other),
    }
}

#[test]
fn sample_after_last_keyframe_is_last_value() {
    for interpolation in [Interpolation::Step, Interpolation::Linear] {
        let c = channel(Property::Translation, interpolation, &[0.0, 1.0], &[1.0, 1.0, 1.0, 2.0, 3.0, 4.0]);
        for time in [1.0f32, 7.5] {
            match c.sample(t(time)).unwrap() {
                ChannelSample::Value(v) => assert_eq!(as_vector(v), as_vector(vector(2.0, 3.0, 4.0))),
                other => panic!("unexpected sample {:?}", other),
            }
        }
    }
}

#[test]
fn step_sample_holds_previous_value() {
    let c = channel(Property::Translation, Interpolation::Step, &[0.0, 1.0], &[1.0, 1.0, 1.0, 2.0, 3.0, 4.0]);
    match c.sample(t(0.9)).unwrap() {
        ChannelSample::Value(v) => assert_eq!(as_vector(v), as_vector(vector(1.0, 1.0, 1.0))),
        other => panic!("unexpected sample {:?}", other),
    }
}

#[test]
fn cubic_sample_picks_tangents_and_values() {
    let c = channel(
        Property::Translation,
        Interpolation::CubicSpline,
        &[0.0, 2.0],
        &[1.0, 1.0, 1.0, 2.0, 2.0, 2.0, 3.0, 3.0, 3.0, 4.0, 4.0, 4.0, 5.0, 5.0, 5.0, 6.0, 6.0, 6.0],
    );
    match c.sample(t(1.0)).unwrap() {
        ChannelSample::CubicSpline { previous_value, previous_out_tangent, next_in_tangent, next_value, span } => {
            assert_eq!(as_vector(previous_value), [t(2.0); 3]);
            assert_eq!(as_vector(previous_out_tangent), [t(3.0); 3]);
            assert_eq!(as_vector(next_in_tangent), [t(4.0); 3]);
            assert_eq!(as_vector(next_value), [t(5.0); 3]);
            assert_eq!((span.previous_time, span.next_time), (t(0.0), Some(t(2.0))));
        }
        other => panic!("unexpected sample {:?}", other),
    }
}

#[test]
fn rotation_channels_yield_quaternions() {
    let c = channel(Property::Rotation, Interpolation::Step, &[0.0], &[0.0, 0.0, 0.0, 1.0]);
    match c.sample(t(3.0)).unwrap() {
        ChannelSample::Value(KeyframeValue::Quaternion(q)) => {
            assert_eq!(q, [t(0.0), t(0.0), t(0.0), t(1.0)]);
            assert!(matches!(
                property_write(Property::Rotation, KeyframeValue::Quaternion(q)),
                Some(NodeProperty::Rotation(_))
            ));
        }
        other => panic!("unexpected sample {:?}", other),
    }
    let morph = channel(Property::MorphTargetWeights, Interpolation::Step, &[0.0], &[]);
    assert!(morph.sample(t(0.0)).is_none());
    let short = channel(Property::Translation, Interpolation::Step, &[0.0, 1.0], &[0.0; 3]);
    assert!(!short.is_well_formed());
    assert!(property_write(Property::Scale, KeyframeValue::Quaternion([0; 4])).is_none());
}

#[test]
fn play_once_rewinds_and_stops_past_the_end() {
    let mut state = AnimationState { current_time_seconds: t(0.0), is_playing: true, loop_type: LoopType::Once };
    state.advance_to(t(1.5), t(2.0));
    assert_eq!(state.current_time_seconds, t(1.5));
    assert!(state.is_playing);
    state.advance_to(t(2.5), t(2.0));
    assert_eq!(state.current_time_seconds, t(0.0));
    assert!(!state.is_playing);
    state.advance_to(t(1.0), t(2.0));
    assert_eq!(state.current_time_seconds, t(0.0));

    let mut wrap = AnimationState { current_time_seconds: t(0.0), is_playing: true, loop_type: LoopType::PingPong };
    wrap.advance_to(t(3.0), t(2.0));
    assert_eq!(wrap.current_time_seconds, t(3.0));
    assert!(wrap.is_playing);
}

#[test]
fn animation_length_is_largest_last_time() {
    let timings = vec![vec![t(0.0), t(1.5)], vec![t(0.5), t(2.5)], vec![t(1.0)]];
    assert_eq!(animation_length_seconds(&timings), Some(t(2.5)));
    assert_eq!(animation_length_seconds(&vec![]), None);
    assert_eq!(animation_length_seconds(&vec![vec![t(1.0)], vec![]]), None);
    assert_eq!(animation_length_seconds(&vec![vec![t(f32::NAN)]]), None);
}

#[test]
fn property_names_and_asset_path() {
    assert_eq!(ChannelPropertyStr::from(Property::Translation).0, "Translation");
    assert_eq!(ChannelPropertyStr::from(Property::MorphTargetWeights).0, "MorphTargetWeights");
    assert!(get_gltf_path().ends_with("BrainStem.gltf"));
}

#[test]
fn cubic_sample_at_keyframe_times_starts_the_span() {
    let c = channel(
        Property::Translation,
        Interpolation::CubicSpline,
        &[0.0, 2.0],
        &[1.0, 1.0, 1.0, 2.0, 2.0, 2.0, 3.0, 3.0, 3.0, 4.0, 4.0, 4.0, 5.0, 5.0, 5.0, 6.0, 6.0, 6.0],
    );
    match c.sample(t(0.0)).unwrap() {
        ChannelSample::CubicSpline { previous_value, span, .. } => {
            assert_eq!(as_vector(previous_value), [t(2.0); 3]);
            assert_eq!((span.time, span.previous_time, span.next_time), (t(0.0), t(0.0), Some(t(2.0))));
        }
        other => panic!("unexpected sample {:?}", other),
    }
    match c.sample(t(2.0)).unwrap() {
        ChannelSample::CubicSpline { previous_value, next_value, span, .. } => {
            assert_eq!(as_vector(previous_value), [t(5.0); 3]);
            assert_eq!(as_vector(next_value), [t(5.0); 3]);
            assert_eq!((span.time, span.previous_time, span.next_time), (t(2.0), t(2.0), None));
        }
        other => panic!("unexpected sample {:?}", other),
    }
}
