//! Events, marker sizing, and the configuration-driven scene builder.
//!
//! Quantities are carried as exact fixed-point integers: geographic angles
//! in millidegrees, depth in metres, magnitude in thousandths, and marker
//! radii in millionths of a scene unit. At those units every rule here is
//! exact integer arithmetic.

use vstd::prelude::*;

verus! {

/// An earthquake event: geographic position in millidegrees, depth in
/// metres (recorded but unused in placement), magnitude in thousandths.
#[derive(Clone, Copy, PartialEq, Eq, Structural, Debug)]
pub struct Event {
    pub latitude_md: i64,
    pub longitude_md: i64,
    pub depth_m: i64,
    pub magnitude_milli: i64,
}

impl Event {
    /// Build an event from its raw attributes; nothing is rejected, an
    /// out-of-range position merely places the marker somewhere unintended.
    pub fn new(latitude_md: i64, longitude_md: i64, depth_m: i64, magnitude_milli: i64) -> (e:
        Event)
        ensures
            e == (Event { latitude_md, longitude_md, depth_m, magnitude_milli }),
    {
        Event { latitude_md, longitude_md, depth_m, magnitude_milli }
    }

    /// Geographic well-formedness: latitude within the poles and longitude
    /// in the (−180°, 180°] convention.
    pub open spec fn wf(self) -> bool {
        &&& -90000 <= self.latitude_md <= 90000
        &&& -180000 < self.longitude_md <= 180000
    }
}

/// Marker radius in millionths of a scene unit for a magnitude in
/// thousandths: fifty micro-units per milli-magnitude is exactly
/// `radius = magnitude / 20`.
pub open spec fn radius_micro_of(magnitude_milli: int) -> int {
    50 * magnitude_milli
}

/// The marker radius for a magnitude, exact in micro-units.
pub fn marker_radius_micro(magnitude_milli: i64) -> (r: i64)
    requires
        i64::MIN <= 50 * magnitude_milli <= i64::MAX,
    ensures
        r == radius_micro_of(magnitude_milli as int),
{
    50 * magnitude_milli
}

/// The radius rule with the units cancelled: twenty times the radius is a
/// thousand times the magnitude, so the radius is the magnitude divided by
/// twenty, exactly.
pub proof fn lemma_radius_is_magnitude_over_twenty(magnitude_milli: int)
    ensures
        20 * radius_micro_of(magnitude_milli) == 1000 * magnitude_milli,
{
}

/// Marker radius scales linearly with magnitude.
pub proof fn lemma_radius_linear(magnitude_a: int, magnitude_b: int)
    ensures
        radius_micro_of(magnitude_a + magnitude_b) == radius_micro_of(magnitude_a)
            + radius_micro_of(magnitude_b),
{
}

/// Marker appearance: a plain matte sphere, or an emissive one meant to be
/// picked up by a bloom pass.
#[derive(Clone, Copy, PartialEq, Eq, Structural, Debug)]
pub enum MarkerStyle {
    Flat,
    Emissive,
}

/// The knobs that distinguish the scene variants: globe tessellation,
/// marker appearance, and whether post-processing bloom is on.
#[derive(Clone, Copy, PartialEq, Eq, Structural, Debug)]
pub struct SceneConfig {
    pub sectors: u32,
    pub marker_style: MarkerStyle,
    pub bloom: bool,
}

/// One marker of the scene: its event together with its exact radius.
#[derive(Clone, Copy, PartialEq, Eq, Structural, Debug)]
pub struct MarkerSpec {
    pub event: Event,
    pub radius_micro: i64,
}

/// The whole scene: the chosen configuration and one marker per event,
/// in the events' order.
pub struct SceneSpec {
    pub config: SceneConfig,
    pub markers: Vec<MarkerSpec>,
}

/// Build the scene for a configuration and a set of events: one marker per
/// event, in order, each sized by the radius rule.
pub fn build_scene(config: SceneConfig, events: Vec<Event>) -> (scene: SceneSpec)
    requires
        forall|i: int|
            0 <= i < events@.len() ==> i64::MIN <= 50 * (#[trigger] events@[i]).magnitude_milli
                <= i64::MAX,
    ensures
        scene.config == config,
        scene.markers@.len() == events@.len(),
        forall|i: int|
            0 <= i < events@.len() ==> (#[trigger] scene.markers@[i]).event == events@[i]
                && scene.markers@[i].radius_micro == radius_micro_of(
                events@[i].magnitude_milli as int,
            ),
{
    let mut markers: Vec<MarkerSpec> = Vec::new();
    let mut idx: usize = 0;
    while idx < events.len()
        invariant
            idx <= events@.len(),
            markers@.len() == idx,
            forall|i: int|
                0 <= i < events@.len() ==> i64::MIN <= 50 * (#[trigger] events@[i]).magnitude_milli
                    <= i64::MAX,
            forall|i: int|
                0 <= i < idx ==> (#[trigger] markers@[i]).event == events@[i]
                    && markers@[i].radius_micro == radius_micro_of(
                    events@[i].magnitude_milli as int,
                ),
        decreases events@.len() - idx,
    {
        let event: Event = events[idx];
        let radius: i64 = marker_radius_micro(event.magnitude_milli);
        markers.push(MarkerSpec { event, radius_micro: radius });
        idx = idx + 1;
    }
    SceneSpec { config, markers }
}

/// A built-in demonstration set of six events — both poles and four equator
/// crossings, all at depth 122.2 km with magnitude 1.5 — which between them
/// exercise every quarter-turn placement.
pub fn demo_events() -> (events: Vec<Event>)
    ensures
        events@.len() == 6,
        events@[0] == (Event {
            latitude_md: 90000,
            longitude_md: 0,
            depth_m: 122200,
            magnitude_milli: 1500,
        }),
        events@[1] == (Event {
            latitude_md: -90000i64,
            longitude_md: 0,
            depth_m: 122200,
            magnitude_milli: 1500,
        }),
        events@[2] == (Event {
            latitude_md: 0,
            longitude_md: -90000i64,
            depth_m: 122200,
            magnitude_milli: 1500,
        }),
        events@[3] == (Event {
            latitude_md: 0,
            longitude_md: 180000,
            depth_m: 122200,
            magnitude_milli: 1500,
        }),
        events@[4] == (Event {
            latitude_md: 0,
            longitude_md: 90000,
            depth_m: 122200,
            magnitude_milli: 1500,
        }),
        events@[5] == (Event {
            latitude_md: 0,
            longitude_md: 0,
            depth_m: 122200,
            magnitude_milli: 1500,
        }),
        forall|i: int| 0 <= i < events@.len() ==> (#[trigger] events@[i]).wf(),
{
    let mut events: Vec<Event> = Vec::new();
    events.push(Event::new(90000, 0, 122200, 1500));
    events.push(Event::new(-90000, 0, 122200, 1500));
    events.push(Event::new(0, -90000, 122200, 1500));
    events.push(Event::new(0, 180000, 122200, 1500));
    events.push(Event::new(0, 90000, 122200, 1500));
    events.push(Event::new(0, 0, 122200, 1500));
    events
}

} // verus!
