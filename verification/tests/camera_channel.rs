use strelka_core::camera::CameraState;
use strelka_core::camera_channel::CameraChannel;

#[test]
fn coalescing_keeps_only_last_update() {
    let mut channel = CameraChannel::new(CameraState::identity());
    let writes = [
        CameraState::translation(1.0f32.to_bits(), 0, 0),
        CameraState::translation(2.0f32.to_bits(), 0, 0),
        CameraState::translation(3.0f32.to_bits(), 0, 0),
        CameraState::translation(4.0f32.to_bits(), 0, 0),
        CameraState::translation(5.0f32.to_bits(), 0, 0),
    ];
    for w in writes {
        channel.update(w);
    }
    assert_eq!(channel.latest(), CameraState::translation(5.0f32.to_bits(), 0, 0));
}

#[test]
fn intermediate_updates_are_lost_by_design() {
    let mut channel = CameraChannel::new(CameraState::identity());
    channel.update(CameraState::translation(7, 8, 9));
    channel.update(CameraState::translation(10, 11, 12));
    let seen = channel.latest();
    assert_ne!(seen, CameraState::translation(7, 8, 9));
    assert_eq!(seen, CameraState::translation(10, 11, 12));
}

#[test]
fn latest_is_idempotent_without_update() {
    let mut channel = CameraChannel::new(CameraState::translation(3, 4, 5));
    let first = channel.latest();
    let second = channel.latest();
    let third = channel.latest();
    assert_eq!(first, second);
    assert_eq!(second, third);
    channel.update(CameraState::identity());
    let after = channel.latest();
    assert_eq!(after, CameraState::identity());
    assert_eq!(channel.latest(), after);
}

#[test]
fn identity_observed_ten_times_without_updates() {
    let channel = CameraChannel::new(CameraState::identity());
    for _ in 0..10 {
        assert_eq!(channel.latest(), CameraState::identity());
    }
}
