//! Animations: channels of keyframes that drive node properties, the
//! keyframe search, and the play-head state machine.
use vstd::prelude::*;
use crate::float_bits::{le, lt, bits_le, bits_lt};
use crate::scene::GameNodeId;

verus! {

/// The node property that a channel animates.
#[derive(Clone, Copy, Debug, PartialEq, Eq, Structural)]
pub enum Property {
    Translation,
    Rotation,
    Scale,
    MorphTargetWeights,
}

/// How values between two keyframes are obtained.
#[derive(Clone, Copy, Debug, PartialEq, Eq, Structural)]
pub enum Interpolation {
    Linear,
    Step,
    CubicSpline,
}

/// What happens when the play-head passes the end of the clip.
#[derive(Clone, Copy, Debug, PartialEq, Eq, Structural)]
pub enum LoopType {
    Once,
    Wrap,
    PingPong,
}

/// The play-head of one animation. `current_time_seconds` is an IEEE-754
/// bit pattern.
#[derive(Clone, Copy, Debug)]
pub struct AnimationState {
    pub current_time_seconds: u32,
    pub is_playing: bool,
    pub loop_type: LoopType,
}

impl Default for AnimationState {
    fn default() -> (r: AnimationState)
        ensures
            r.current_time_seconds == 0,
            !r.is_playing,
            r.loop_type == LoopType::Once,
    {
        AnimationState { current_time_seconds: 0, is_playing: false, loop_type: LoopType::Once }
    }
}

/// One animated property of one node. Keyframe times are IEEE-754 bit
/// patterns in ascending order; the values are little-endian `f32`s, three
/// per keyframe for translation and scale, four for rotation, and for cubic
/// splines three such values per keyframe (in-tangent, value, out-tangent).
#[derive(Clone, Debug)]
pub struct Channel {
    pub node_id: GameNodeId,
    pub property: Property,
    pub interpolation_type: Interpolation,
    pub keyframe_timings: Vec<u32>,
    pub keyframe_values_u8: Vec<u8>,
}

/// A named clip: its length and speed are IEEE-754 bit patterns.
#[derive(Clone, Debug)]
pub struct Animation {
    pub name: Option<String>,
    pub length_seconds: u32,
    pub speed: u32,
    pub channels: Vec<Channel>,
    pub state: AnimationState,
}


/// A keyframe found by the search: its index and its time.
#[derive(Clone, Copy, Debug, PartialEq, Eq, Structural)]
pub struct KeyframeTime {
    pub index: usize,
    pub time: u32,
}

/// The last keyframe whose time is `<= t` (ties go to the later index).
pub open spec fn previous_keyframe(times: Seq<u32>, t: u32) -> Option<KeyframeTime>
    decreases times.len(),
{
    if times.len() == 0 {
        None
    } else if le(times.last(), t) {
        Some(KeyframeTime { index: (times.len() - 1) as usize, time: times.last() })
    } else {
        previous_keyframe(times.drop_last(), t)
    }
}

/// The first keyframe whose time is `> t`.
pub open spec fn next_keyframe(times: Seq<u32>, t: u32) -> Option<KeyframeTime>
    decreases times.len(),
{
    if times.len() == 0 {
        None
    } else {
        match next_keyframe(times.drop_last(), t) {
            Some(k) => Some(k),
            None => if lt(t, times.last()) {
                Some(KeyframeTime { index: (times.len() - 1) as usize, time: times.last() })
            } else {
                None
            },
        }
    }
}

/// The keyframes around `t`: the last one at or before it and the first
/// one after it. Either may be absent.
pub fn get_nearby_keyframes(keyframe_times: &[u32], animation_time_seconds: u32) -> (r: (
    Option<KeyframeTime>,
    Option<KeyframeTime>,
))
    ensures
        r.0 == previous_keyframe(keyframe_times@, animation_time_seconds),
        r.1 == next_keyframe(keyframe_times@, animation_time_seconds),
{
    let t = animation_time_seconds;
    let mut previous: Option<KeyframeTime> = None;
    let mut next: Option<KeyframeTime> = None;
    let mut i: usize = 0;
    while i < keyframe_times.len()
        invariant
            i <= keyframe_times@.len(),
            previous == previous_keyframe(keyframe_times@.take(i as int), t),
            next == next_keyframe(keyframe_times@.take(i as int), t),
        decreases keyframe_times@.len() - i,
    {
        let time = keyframe_times[i];
        assert(keyframe_times@.take(i + 1).drop_last() =~= keyframe_times@.take(i as int));
        if bits_le(time, t) {
            previous = Some(KeyframeTime { index: i, time });
        }
        if next.is_none() && bits_lt(t, time) {
            next = Some(KeyframeTime { index: i, time });
        }
        i = i + 1;
    }
    assert(keyframe_times@.take(i as int) =~= keyframe_times@);
    (previous, next)
}


/// A value that a channel produces: a vector (translation, scale) or a
/// quaternion `(x, y, z, w)` (rotation), as IEEE-754 bit patterns.
#[derive(Clone, Copy, Debug)]
pub enum KeyframeValue {
    Vector([u32; 3]),
    Quaternion([u32; 4]),
}

/// The little-endian `u32` stored at element `e` of `bytes`.
pub open spec fn element(bytes: Seq<u8>, e: int) -> u32 {
    (bytes[4 * e] as int + bytes[4 * e + 1] as int * 0x100 + bytes[4 * e + 2] as int * 0x1_0000
        + bytes[4 * e + 3] as int * 0x100_0000) as u32
}

impl Property {
    /// The number of components of a value of this property.
    pub open spec fn width(self) -> nat {
        match self {
            Property::Rotation => 4,
            _ => 3,
        }
    }
}

impl Interpolation {
    /// How many values each keyframe stores.
    pub open spec fn values_per_keyframe(self) -> nat {
        match self {
            Interpolation::CubicSpline => 3,
            _ => 1,
        }
    }
}

/// Value number `slot` of a buffer of values of `property`.
pub open spec fn keyframe_value(property: Property, bytes: Seq<u8>, slot: int) -> KeyframeValue {
    match property {
        Property::Rotation => KeyframeValue::Quaternion(
            [
                element(bytes, 4 * slot),
                element(bytes, 4 * slot + 1),
                element(bytes, 4 * slot + 2),
                element(bytes, 4 * slot + 3),
            ],
        ),
        _ => KeyframeValue::Vector(
            [element(bytes, 3 * slot), element(bytes, 3 * slot + 1), element(bytes, 3 * slot + 2)],
        ),
    }
}

/// Where the sampling time lies between two keyframes. Without a next
/// keyframe the span has length zero and the blend factor is 1.
#[derive(Clone, Copy, Debug)]
pub struct KeyframeSpan {
    pub time: u32,
    pub previous_time: u32,
    pub next_time: Option<u32>,
}

/// What sampling a channel at a time comes to.
#[derive(Clone, Copy, Debug)]
pub enum ChannelSample {
    /// A keyframe's value, taken as it is.
    Value(KeyframeValue),
    /// A linear blend (a spherical one for rotations) from `previous` to
    /// `next` by `(time - previous_time) / (next_time - previous_time)`.
    Linear { previous: KeyframeValue, next: KeyframeValue, span: KeyframeSpan },
    /// A cubic Hermite blend of the previous keyframe's value and out-tangent
    /// with the next keyframe's in-tangent and value.
    CubicSpline {
        previous_value: KeyframeValue,
        previous_out_tangent: KeyframeValue,
        next_in_tangent: KeyframeValue,
        next_value: KeyframeValue,
        span: KeyframeSpan,
    },
}

impl Channel {
    /// The value buffer holds exactly the values that the keyframes need,
    /// and there is at least one keyframe.
    pub open spec fn wf(&self) -> bool {
        &&& self.keyframe_timings@.len() > 0
        &&& self.property != Property::MorphTargetWeights ==> self.keyframe_values_u8@.len()
            == self.keyframe_timings@.len() * self.interpolation_type.values_per_keyframe()
            * self.property.width() * 4
    }

    /// Value number `slot` of the buffer.
    pub open spec fn value_at(&self, slot: int) -> KeyframeValue {
        keyframe_value(self.property, self.keyframe_values_u8@, slot)
    }

    /// The value of keyframe `k` as a step or linear channel stores it.
    pub open spec fn basic_value(&self, k: int) -> KeyframeValue {
        self.value_at(k)
    }

    /// In a cubic-spline channel: keyframe `k`'s in-tangent, value and
    /// out-tangent.
    pub open spec fn cubic_in_tangent(&self, k: int) -> KeyframeValue {
        self.value_at(3 * k)
    }

    pub open spec fn cubic_value(&self, k: int) -> KeyframeValue {
        self.value_at(3 * k + 1)
    }

    pub open spec fn cubic_out_tangent(&self, k: int) -> KeyframeValue {
        self.value_at(3 * k + 2)
    }

    /// The first keyframe's value (for cubic splines its middle slot).
    pub open spec fn first_value(&self) -> KeyframeValue {
        match self.interpolation_type {
            Interpolation::CubicSpline => self.cubic_value(0),
            _ => self.basic_value(0),
        }
    }

    /// What sampling at `t` comes to. Before the first keyframe it is the
    /// first keyframe's value. Otherwise, with `p` the previous keyframe and
    /// `n` the next one (`p` itself after the last keyframe): step takes
    /// `p`'s value; linear blends `p` into `n`, which after the last
    /// keyframe is `p`'s value itself; cubic splines blend `p` into `n`.
    /// Morph-target weights are not sampled.
    pub open spec fn sample_spec(&self, t: u32) -> Option<ChannelSample> {
        if self.property == Property::MorphTargetWeights {
            None
        } else {
            let times = self.keyframe_timings@;
            Some(
                match previous_keyframe(times, t) {
                    None => ChannelSample::Value(self.first_value()),
                    Some(p) => {
                        let next = next_keyframe(times, t);
                        let n = match next {
                            Some(n) => n,
                            None => p,
                        };
                        let span = KeyframeSpan {
                            time: t,
                            previous_time: p.time,
                            next_time: match next {
                                Some(n) => Some(n.time),
                                None => None,
                            },
                        };
                        match self.interpolation_type {
                            Interpolation::Step => ChannelSample::Value(
                                self.basic_value(p.index as int),
                            ),
                            Interpolation::Linear => if next is None {
                                ChannelSample::Value(self.basic_value(p.index as int))
                            } else {
                                ChannelSample::Linear {
                                    previous: self.basic_value(p.index as int),
                                    next: self.basic_value(n.index as int),
                                    span,
                                }
                            },
                            Interpolation::CubicSpline => ChannelSample::CubicSpline {
                                previous_value: self.cubic_value(p.index as int),
                                previous_out_tangent: self.cubic_out_tangent(p.index as int),
                                next_in_tangent: self.cubic_in_tangent(n.index as int),
                                next_value: self.cubic_value(n.index as int),
                                span,
                            },
                        }
                    },
                },
            )
        }
    }
}


/// A keyframe that the search returns lies in the array.
pub proof fn lemma_found_keyframes_in_range(times: Seq<u32>, t: u32)
    requires
        times.len() <= usize::MAX,
    ensures
        previous_keyframe(times, t) matches Some(k) ==> k.index < times.len() && k.time
            == times[k.index as int],
        next_keyframe(times, t) matches Some(k) ==> k.index < times.len() && k.time
            == times[k.index as int],
    decreases times.len(),
{
    if times.len() > 0 {
        let d = times.drop_last();
        lemma_found_keyframes_in_range(d, t);
        assert(forall|i: int| 0 <= i < d.len() ==> d[i] == times[i]);
    }
}

/// The little-endian `u32` at element `e` of `bytes`.
fn read_element(bytes: &Vec<u8>, e: usize) -> (r: u32)
    requires
        4 * e + 3 < bytes@.len(),
    ensures
        r == element(bytes@, e as int),
{
    let len = bytes.len();
    assert(4 * e + 3 < len);
    let b0 = bytes[4 * e] as u32;
    let b1 = bytes[4 * e + 1] as u32;
    let b2 = bytes[4 * e + 2] as u32;
    let b3 = bytes[4 * e + 3] as u32;
    b0 + b1 * 0x100 + b2 * 0x1_0000 + b3 * 0x100_0000
}

impl Channel {
    /// Value number `slot` of the buffer.
    fn value(&self, slot: usize) -> (r: KeyframeValue)
        requires
            self.wf(),
            self.property != Property::MorphTargetWeights,
            slot < self.keyframe_timings@.len() * self.interpolation_type.values_per_keyframe(),
        ensures
            r == self.value_at(slot as int),
    {
        let ghost n = self.keyframe_timings@.len() * self.interpolation_type.values_per_keyframe();
        let ghost w = self.property.width();
        assert((slot + 1) * w * 4 <= n * w * 4) by (nonlinear_arith)
            requires
                slot + 1 <= n,
                w >= 0,
        ;
        let bytes = &self.keyframe_values_u8;
        let len = bytes.len();
        assert((slot + 1) * w * 4 <= len);
        match self.property {
            Property::Rotation => {
                assert((slot + 1) * 4 * 4 == 16 * slot + 16) by (nonlinear_arith);
                KeyframeValue::Quaternion(
                    [
                        read_element(bytes, 4 * slot),
                        read_element(bytes, 4 * slot + 1),
                        read_element(bytes, 4 * slot + 2),
                        read_element(bytes, 4 * slot + 3),
                    ],
                )
            },
            _ => {
                assert((slot + 1) * 3 * 4 == 12 * slot + 12) by (nonlinear_arith);
                KeyframeValue::Vector(
                    [
                        read_element(bytes, 3 * slot),
                        read_element(bytes, 3 * slot + 1),
                        read_element(bytes, 3 * slot + 2),
                    ],
                )
            },
        }
    }

    /// Whether the channel's data has the shape that sampling needs.
    pub fn is_well_formed(&self) -> (r: bool)
        ensures
            r == self.wf(),
    {
        let n = self.keyframe_timings.len();
        if n == 0 {
            return false;
        }
        if self.property == Property::MorphTargetWeights {
            return true;
        }
        let per: u64 = match self.interpolation_type {
            Interpolation::CubicSpline => 3,
            _ => 1,
        };
        let width: u64 = match self.property {
            Property::Rotation => 4,
            _ => 3,
        };
        let needed = (n as u128) * (per as u128) * (width as u128) * 4;
        assert(needed == n * per * width * 4) by (nonlinear_arith)
            requires
                n <= usize::MAX,
                per <= 3,
                width <= 4,
                needed == (n as u128) * (per as u128) * (width as u128) * 4,
        ;
        (self.keyframe_values_u8.len() as u128) == needed
    }

    /// Samples the channel at `t` (see `sample_spec`); `None` for
    /// morph-target weights, which are not animated.
    pub fn sample(&self, t: u32) -> (r: Option<ChannelSample>)
        requires
            self.wf(),
        ensures
            r == self.sample_spec(t),
    {
        if self.property == Property::MorphTargetWeights {
            return None;
        }
        let ghost times = self.keyframe_timings@;
        let n_bytes = self.keyframe_values_u8.len();
        let n_keys = self.keyframe_timings.len();
        assert(n_keys * 3 <= n_bytes) by (nonlinear_arith)
            requires
                n_bytes == n_keys
                    * self.interpolation_type.values_per_keyframe() * self.property.width() * 4,
                self.interpolation_type.values_per_keyframe() >= 1,
                self.property.width() >= 3,
        ;
        let (previous, next) = get_nearby_keyframes(self.keyframe_timings.as_slice(), t);
        proof {
            lemma_found_keyframes_in_range(times, t);
        }
        let sample = match previous {
            None => match self.interpolation_type {
                Interpolation::CubicSpline => ChannelSample::Value(self.value(1)),
                _ => ChannelSample::Value(self.value(0)),
            },
            Some(p) => {
                let n = match next {
                    Some(n) => n,
                    None => p,
                };
                let span = KeyframeSpan {
                    time: t,
                    previous_time: p.time,
                    next_time: match next {
                        Some(n) => Some(n.time),
                        None => None,
                    },
                };
                match self.interpolation_type {
                    Interpolation::Step => ChannelSample::Value(self.value(p.index)),
                    Interpolation::Linear => if next.is_none() {
                        ChannelSample::Value(self.value(p.index))
                    } else {
                        ChannelSample::Linear {
                            previous: self.value(p.index),
                            next: self.value(n.index),
                            span,
                        }
                    },
                    Interpolation::CubicSpline => ChannelSample::CubicSpline {
                        previous_value: self.value(3 * p.index + 1),
                        previous_out_tangent: self.value(3 * p.index + 2),
                        next_in_tangent: self.value(3 * n.index),
                        next_value: self.value(3 * n.index + 1),
                        span,
                    },
                }
            },
        };
        Some(sample)
    }
}


/// Keyframe times in non-decreasing order.
pub open spec fn is_sorted(times: Seq<u32>) -> bool {
    forall|i: int, j: int| 0 <= i < j < times.len() ==> le(#[trigger] times[i], #[trigger] times[j])
}

proof fn lemma_no_previous_keyframe(times: Seq<u32>, t: u32)
    requires
        forall|j: int| 0 <= j < times.len() ==> !le(#[trigger] times[j], t),
    ensures
        previous_keyframe(times, t) is None,
    decreases times.len(),
{
    if times.len() > 0 {
        let d = times.drop_last();
        assert(forall|j: int| 0 <= j < d.len() ==> d[j] == times[j]);
        lemma_no_previous_keyframe(d, t);
    }
}

proof fn lemma_no_next_keyframe(times: Seq<u32>, t: u32)
    requires
        forall|j: int| 0 <= j < times.len() ==> !lt(t, #[trigger] times[j]),
    ensures
        next_keyframe(times, t) is None,
    decreases times.len(),
{
    if times.len() > 0 {
        let d = times.drop_last();
        assert(forall|j: int| 0 <= j < d.len() ==> d[j] == times[j]);
        lemma_no_next_keyframe(d, t);
    }
}

/// Before every keyframe, sampling gives the first keyframe's value (for
/// cubic splines, its middle slot), whatever the interpolation.
pub proof fn lemma_sample_before_first_keyframe(channel: Channel, t: u32)
    requires
        channel.property != Property::MorphTargetWeights,
        forall|j: int|
            0 <= j < channel.keyframe_timings@.len() ==> lt(t, #[trigger] channel.keyframe_timings@[j]),
    ensures
        channel.sample_spec(t) == Some(ChannelSample::Value(channel.first_value())),
{
    let times = channel.keyframe_timings@;
    assert forall|j: int| 0 <= j < times.len() implies !le(#[trigger] times[j], t) by {
        assert(lt(t, times[j]));
    }
    lemma_no_previous_keyframe(times, t);
}

/// At or after the last keyframe of a sorted channel, step and linear
/// sampling give the last keyframe's value.
pub proof fn lemma_sample_after_last_keyframe(channel: Channel, t: u32)
    requires
        channel.property != Property::MorphTargetWeights,
        channel.interpolation_type != Interpolation::CubicSpline,
        channel.keyframe_timings@.len() > 0,
        channel.keyframe_timings@.len() <= usize::MAX,
        is_sorted(channel.keyframe_timings@),
        le(channel.keyframe_timings@.last(), t),
    ensures
        channel.sample_spec(t) == Some(
            ChannelSample::Value(channel.basic_value(channel.keyframe_timings@.len() - 1)),
        ),
{
    let times = channel.keyframe_timings@;
    let last = times.len() - 1;
    assert forall|j: int| 0 <= j < times.len() implies !lt(t, #[trigger] times[j]) by {
        if j < last {
            assert(le(times[j], times[last]));
        }
    }
    lemma_no_next_keyframe(times, t);
}


impl AnimationState {
    /// One tick of the play-head, given `advanced_time`, the current time
    /// plus the elapsed time scaled by the animation's speed. A paused
    /// animation does not move. A clip that plays once and has run past
    /// `length_seconds` rewinds to 0 and stops; otherwise the play-head
    /// moves to `advanced_time`.
    pub fn advance_to(&mut self, advanced_time: u32, length_seconds: u32)
        ensures
            final(self).loop_type == old(self).loop_type,
            !old(self).is_playing ==> *final(self) == *old(self),
            old(self).is_playing && old(self).loop_type == LoopType::Once && lt(
                length_seconds,
                advanced_time,
            ) ==> final(self).current_time_seconds == 0 && !final(self).is_playing,
            old(self).is_playing && !(old(self).loop_type == LoopType::Once && lt(
                length_seconds,
                advanced_time,
            )) ==> final(self).current_time_seconds == advanced_time && final(self).is_playing,
    {
        if !self.is_playing {
            return;
        }
        self.current_time_seconds = advanced_time;
        if self.loop_type == LoopType::Once && bits_lt(length_seconds, advanced_time) {
            self.current_time_seconds = 0;
            self.is_playing = false;
        }
    }
}

/// A value to write into one property of a node's local transform.
#[derive(Clone, Copy, Debug)]
pub enum NodeProperty {
    Translation([u32; 3]),
    Scale([u32; 3]),
    Rotation([u32; 4]),
}

/// The write that a value sampled from a channel of `property` makes, if
/// the value has that property's shape.
pub open spec fn property_write_spec(property: Property, value: KeyframeValue) -> Option<
    NodeProperty,
> {
    match (property, value) {
        (Property::Translation, KeyframeValue::Vector(v)) => Some(NodeProperty::Translation(v)),
        (Property::Scale, KeyframeValue::Vector(v)) => Some(NodeProperty::Scale(v)),
        (Property::Rotation, KeyframeValue::Quaternion(q)) => Some(NodeProperty::Rotation(q)),
        _ => None,
    }
}

/// The write that a value sampled from a channel of `property` makes.
pub fn property_write(property: Property, value: KeyframeValue) -> (r: Option<NodeProperty>)
    ensures
        r == property_write_spec(property, value),
{
    match (property, value) {
        (Property::Translation, KeyframeValue::Vector(v)) => Some(NodeProperty::Translation(v)),
        (Property::Scale, KeyframeValue::Vector(v)) => Some(NodeProperty::Scale(v)),
        (Property::Rotation, KeyframeValue::Quaternion(q)) => Some(NodeProperty::Rotation(q)),
        _ => None,
    }
}

/// A staged write of one tick: a property value for a node.
#[derive(Clone, Copy, Debug)]
pub struct ChannelWrite {
    pub node_id: GameNodeId,
    pub value: NodeProperty,
}


/// The name of a channel property, as a key for counting channels per
/// node and property.
#[derive(Clone, Copy, Debug, PartialEq, Eq, Hash)]
pub struct ChannelPropertyStr<'a>(pub &'a str);

/// The name of each property.
pub open spec fn property_name(prop: Property) -> Seq<char> {
    match prop {
        Property::Translation => "Translation"@,
        Property::Scale => "Scale"@,
        Property::Rotation => "Rotation"@,
        Property::MorphTargetWeights => "MorphTargetWeights"@,
    }
}

impl From<Property> for ChannelPropertyStr<'static> {
    fn from(prop: Property) -> (r: Self)
        ensures
            r.0@ == property_name(prop),
    {
        proof {
            reveal_strlit("Translation");
            reveal_strlit("Scale");
            reveal_strlit("Rotation");
            reveal_strlit("MorphTargetWeights");
        }
        Self(
            match prop {
                Property::Translation => "Translation",
                Property::Scale => "Scale",
                Property::Rotation => "Rotation",
                Property::MorphTargetWeights => "MorphTargetWeights",
            },
        )
    }
}

impl vstd::std_specs::convert::FromSpecImpl<Property> for ChannelPropertyStr<'static> {
    open spec fn obeys_from_spec() -> bool {
        true
    }

    open spec fn from_spec(prop: Property) -> Self {
        ChannelPropertyStr(
            match prop {
                Property::Translation => "Translation",
                Property::Scale => "Scale",
                Property::Rotation => "Rotation",
                Property::MorphTargetWeights => "MorphTargetWeights",
            },
        )
    }
}

/// The length of an animation: the largest of its channels' last keyframe
/// times, the later channel winning a tie.
pub open spec fn max_last_time(channel_timings: Seq<Vec<u32>>, n: int) -> u32
    decreases n,
{
    if n <= 1 {
        channel_timings[0]@.last()
    } else {
        let acc = max_last_time(channel_timings, n - 1);
        let x = channel_timings[n - 1]@.last();
        if le(acc, x) {
            x
        } else {
            acc
        }
    }
}

/// Whether the length is defined: at least one channel, every channel has
/// a keyframe, and no last keyframe time is a NaN.
pub open spec fn length_defined(channel_timings: Seq<Vec<u32>>) -> bool {
    &&& channel_timings.len() > 0
    &&& forall|c: int|
        0 <= c < channel_timings.len() ==> (#[trigger] channel_timings[c])@.len() > 0
            && !crate::float_bits::is_nan(channel_timings[c]@.last())
}

/// The length of an animation from its channels' keyframe times: the
/// largest last keyframe time. `None` when there is no channel, a channel
/// has no keyframe, or a last time is a NaN.
pub fn animation_length_seconds(channel_timings: &Vec<Vec<u32>>) -> (r: Option<u32>)
    ensures
        r is Some <==> length_defined(channel_timings@),
        r matches Some(x) ==> x == max_last_time(channel_timings@, channel_timings@.len() as int),
{
    let n = channel_timings.len();
    if n == 0 {
        return None;
    }
    let mut i: usize = 0;
    while i < n
        invariant
            n == channel_timings@.len(),
            i <= n,
            forall|c: int|
                0 <= c < i ==> (#[trigger] channel_timings@[c])@.len() > 0
                    && !crate::float_bits::is_nan(channel_timings@[c]@.last()),
        decreases n - i,
    {
        let times = &channel_timings[i];
        if times.len() == 0 {
            return None;
        }
        if crate::float_bits::bits_is_nan(times[times.len() - 1]) {
            return None;
        }
        i = i + 1;
    }
    let mut acc = channel_timings[0][channel_timings[0].len() - 1];
    let mut k: usize = 1;
    while k < n
        invariant
            n == channel_timings@.len(),
            1 <= k <= n,
            length_defined(channel_timings@),
            acc == max_last_time(channel_timings@, k as int),
        decreases n - k,
    {
        let times = &channel_timings[k];
        assert(channel_timings@[k as int]@.len() > 0);
        let x = times[times.len() - 1];
        if bits_le(acc, x) {
            acc = x;
        }
        k = k + 1;
    }
    Some(acc)
}


/// Keyframe times in strictly increasing order.
pub open spec fn is_strictly_sorted(times: Seq<u32>) -> bool {
    forall|i: int, j: int| 0 <= i < j < times.len() ==> lt(#[trigger] times[i], #[trigger] times[j])
}

proof fn lemma_previous_keyframe_is(times: Seq<u32>, t: u32, k: int)
    requires
        0 <= k < times.len() <= usize::MAX,
        le(times[k], t),
        forall|j: int| k < j < times.len() ==> !le(#[trigger] times[j], t),
    ensures
        previous_keyframe(times, t) == Some(KeyframeTime { index: k as usize, time: times[k] }),
    decreases times.len(),
{
    if k < times.len() - 1 {
        let d = times.drop_last();
        assert(!le(times[times.len() - 1], t));
        assert(forall|j: int| 0 <= j < d.len() ==> d[j] == times[j]);
        lemma_previous_keyframe_is(d, t, k);
    }
}

proof fn lemma_next_keyframe_is(times: Seq<u32>, t: u32, k: int)
    requires
        0 <= k < times.len() <= usize::MAX,
        lt(t, times[k]),
        forall|j: int| 0 <= j < k ==> !lt(t, #[trigger] times[j]),
    ensures
        next_keyframe(times, t) == Some(KeyframeTime { index: k as usize, time: times[k] }),
    decreases times.len(),
{
    let d = times.drop_last();
    assert(forall|j: int| 0 <= j < d.len() ==> d[j] == times[j]);
    if k < times.len() - 1 {
        lemma_next_keyframe_is(d, t, k);
    } else {
        lemma_no_next_keyframe(d, t);
    }
}

/// At the time of a keyframe that another follows, cubic-spline sampling
/// blends from that keyframe's value and out-tangent to the next one's
/// in-tangent and value, with no time elapsed into the span.
pub proof fn lemma_cubic_sample_at_keyframe_time(channel: Channel, k: int)
    requires
        channel.property != Property::MorphTargetWeights,
        channel.interpolation_type == Interpolation::CubicSpline,
        channel.keyframe_timings@.len() <= usize::MAX,
        is_strictly_sorted(channel.keyframe_timings@),
        0 <= k < channel.keyframe_timings@.len() - 1,
    ensures
        channel.sample_spec(channel.keyframe_timings@[k]) == Some(
            ChannelSample::CubicSpline {
                previous_value: channel.cubic_value(k),
                previous_out_tangent: channel.cubic_out_tangent(k),
                next_in_tangent: channel.cubic_in_tangent(k + 1),
                next_value: channel.cubic_value(k + 1),
                span: KeyframeSpan {
                    time: channel.keyframe_timings@[k],
                    previous_time: channel.keyframe_timings@[k],
                    next_time: Some(channel.keyframe_timings@[k + 1]),
                },
            },
        ),
{
    let times = channel.keyframe_timings@;
    let t = times[k];
    assert(lt(times[k], times[k + 1]));
    assert forall|j: int| k < j < times.len() implies !le(#[trigger] times[j], t) by {
        assert(lt(times[k], times[j]));
    }
    lemma_previous_keyframe_is(times, t, k);
    assert forall|j: int| 0 <= j < k + 1 implies !lt(t, #[trigger] times[j]) by {
        if j < k {
            assert(lt(times[j], times[k]));
        }
    }
    lemma_next_keyframe_is(times, t, k + 1);
}

/// At the time of the last keyframe, cubic-spline sampling blends the last
/// keyframe's value with itself over an empty span.
pub proof fn lemma_cubic_sample_at_last_keyframe_time(channel: Channel)
    requires
        channel.property != Property::MorphTargetWeights,
        channel.interpolation_type == Interpolation::CubicSpline,
        0 < channel.keyframe_timings@.len() <= usize::MAX,
        is_strictly_sorted(channel.keyframe_timings@),
        !crate::float_bits::is_nan(channel.keyframe_timings@.last()),
    ensures
        ({
            let k = channel.keyframe_timings@.len() - 1;
            channel.sample_spec(channel.keyframe_timings@[k]) == Some(
                ChannelSample::CubicSpline {
                    previous_value: channel.cubic_value(k),
                    previous_out_tangent: channel.cubic_out_tangent(k),
                    next_in_tangent: channel.cubic_in_tangent(k),
                    next_value: channel.cubic_value(k),
                    span: KeyframeSpan {
                        time: channel.keyframe_timings@[k],
                        previous_time: channel.keyframe_timings@[k],
                        next_time: None,
                    },
                },
            )
        }),
{
    let times = channel.keyframe_timings@;
    let k = times.len() - 1;
    let t = times[k];
    assert(le(t, t));
    assert forall|j: int| 0 <= j < times.len() implies !lt(t, #[trigger] times[j]) by {
        if j < k {
            assert(lt(times[j], times[k]));
        }
    }
    lemma_no_next_keyframe(times, t);
}

} // verus!
