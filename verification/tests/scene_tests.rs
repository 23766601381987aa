use quake_globe::scene::{
    build_scene, demo_events, marker_radius_micro, Event, MarkerStyle, SceneConfig,
};

#[test]
fn radius_is_magnitude_over_twenty() {
    // magnitude 1.5 -> radius 0.075 scene units
    assert_eq!(marker_radius_micro(1_500), 75_000);
    assert!((75_000 as f32 * 1e-6 - 1.5 / 20.0).abs() < 1e-7);
}

#[test]
fn radius_scales_linearly() {
    assert_eq!(marker_radius_micro(0), 0);
    assert_eq!(marker_radius_micro(3_000), 2 * marker_radius_micro(1_500));
    assert_eq!(
        marker_radius_micro(1_500 + 2_300),
        marker_radius_micro(1_500) + marker_radius_micro(2_300)
    );
}

#[test]
fn event_new_keeps_its_attributes() {
    let e = Event::new(-12_345, 67_890, 10_500, 4_200);
    assert_eq!(e.latitude_md, -12_345);
    assert_eq!(e.longitude_md, 67_890);
    assert_eq!(e.depth_m, 10_500);
    assert_eq!(e.magnitude_milli, 4_200);
}

#[test]
fn demo_events_are_the_six_lattice_events() {
    let events = demo_events();
    assert_eq!(events.len(), 6);
    let expected = [
        (90_000, 0),
        (-90_000, 0),
        (0, -90_000),
        (0, 180_000),
        (0, 90_000),
        (0, 0),
    ];
    for (event, (lat, lon)) in events.iter().zip(expected) {
        assert_eq!(event.latitude_md, lat);
        assert_eq!(event.longitude_md, lon);
        assert_eq!(event.depth_m, 122_200);
        assert_eq!(event.magnitude_milli, 1_500);
    }
}

#[test]
fn build_scene_sizes_one_marker_per_event() {
    let config = SceneConfig { sectors: 128, marker_style: MarkerStyle::Emissive, bloom: true };
    let events = demo_events();
    let scene = build_scene(config, events.clone());
    assert_eq!(scene.config, config);
    assert_eq!(scene.markers.len(), events.len());
    for (marker, event) in scene.markers.iter().zip(events.iter()) {
        assert_eq!(marker.event, *event);
        assert_eq!(marker.radius_micro, 75_000);
    }
}

#[test]
fn build_scene_with_no_events_has_no_markers() {
    let config = SceneConfig { sectors: 32, marker_style: MarkerStyle::Flat, bloom: false };
    let scene = build_scene(config, Vec::new());
    assert!(scene.markers.is_empty());
    assert_eq!(scene.config.sectors, 32);
}
