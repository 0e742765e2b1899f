use doppl::capture::CaptureSession;
use doppl::capture::capture_file_path;
use doppl::motion::Movement;
use doppl::motion::particle_frame_step;
use doppl::motion::particle_x;
use doppl::motion::receiver_step;
use doppl::motion::simulate_particle_x;
use doppl::params::CAPTURE_LIMIT;
use doppl::params::PARTICLE_AMPLITUDE_MPX;
use doppl::params::PARTICLE_FREQUENCY_MHZ;
use doppl::params::PARTICLE_SPEED_MPX_PER_MS;
use doppl::params::PLOT_LIMIT_MPX;
use doppl::params::RECEIVER_BAND_MPX;
use doppl::params::RECEIVER_WIDTH_MPX;
use doppl::receiver::HitOutcome;
use doppl::receiver::Receiver;
use doppl::receiver::detect_hit;
use doppl::reset::ResetSchedule;
use doppl::scene::LEFT_RECEIVER_START_X_MPX;
use doppl::scene::LaneSetup;
use doppl::scene::RECEIVER_START_X_MPX;
use doppl::scene::initial_lanes;
use doppl::timer::RepeatTimer;
use doppl::transmitter::ParticleSeed;
use doppl::transmitter::Transmitter;

#[test]
fn derived_parameters_are_exact() {
    // 2 * amplitude + 2 * radius, and the band is half the width.
    assert_eq!(RECEIVER_WIDTH_MPX, 110_000);
    assert_eq!(RECEIVER_BAND_MPX, 55_000);
    assert_eq!(PLOT_LIMIT_MPX, 220_000);
}

#[test]
fn timer_fires_when_period_is_reached() {
    let mut t = RepeatTimer::new(10);
    assert!(!t.tick(9));
    assert!(t.tick(1));
    assert!(t.tick(10));
}

#[test]
fn timer_carries_overshoot_into_next_cycle() {
    let mut t = RepeatTimer::new(10);
    assert!(t.tick(25));
    // 25 ms leaves 5 ms in the new cycle: 5 more finish it.
    assert!(!t.tick(4));
    assert!(t.tick(1));
}

#[test]
fn timer_reset_discards_accumulated_time() {
    let mut t = RepeatTimer::new(10);
    assert!(!t.tick(9));
    t.reset();
    assert!(!t.tick(9));
    assert!(t.tick(1));
}

#[test]
fn run_counts_one_fire_per_period() {
    let mut t = RepeatTimer::new(10);
    let deltas: Vec<u64> = vec![3, 7, 10, 5, 4, 1];
    // 30 ms in frames no longer than the period: three fires.
    assert_eq!(t.run_frames(&deltas), 3);
}

#[test]
fn one_frame_fires_at_most_once() {
    let mut t = RepeatTimer::new(10);
    // A frame spanning two and a half periods still fires only once...
    let deltas: Vec<u64> = vec![25];
    assert_eq!(t.run_frames(&deltas), 1);
    // ...and leaves 5 ms in the new cycle.
    assert!(t.tick(5));
}

#[test]
fn direction_signs() {
    assert_eq!(Movement::Left.direction_sign(), -1);
    assert_eq!(Movement::Right.direction_sign(), 1);
    assert_eq!(Movement::Stationary.direction_sign(), 0);
}

#[test]
fn receiver_moves_at_100_millipixels_per_millisecond() {
    assert_eq!(receiver_step(-300_000, &Movement::Right, 50), -295_000);
    assert_eq!(receiver_step(-300_000, &Movement::Left, 50), -305_000);
    assert_eq!(receiver_step(-300_000, &Movement::Stationary, 50), -300_000);
}

#[test]
fn particle_position_follows_closed_form() {
    // 1.5 s of travel at -200 milli-pixels per millisecond.
    assert_eq!(particle_x(400_000, -200, 1_000, 2_500), 100_000);
    assert_eq!(particle_x(400_000, -200, 1_000, 1_000), 400_000);
}

#[test]
fn particle_reaches_receiver_start_after_3500_ms() {
    // From the transmitter at 400 pixels to the receiver start at -300
    // pixels is 700 pixels, covered at 200 pixels per second.
    assert_eq!(particle_x(400_000, -200, 0, 3_500), RECEIVER_START_X_MPX);
}

#[test]
fn frame_step_advances_by_speed_times_delta() {
    assert_eq!(particle_frame_step(0, -200, 16), -3_200);
    assert_eq!(particle_frame_step(100, 0, 1_000), 100);
}

#[test]
fn frame_by_frame_equals_closed_form() {
    let deltas: Vec<u64> = vec![10, 20, 30];
    let stepped = simulate_particle_x(400_000, -200, &deltas);
    assert_eq!(stepped, 388_000);
    assert_eq!(stepped, particle_x(400_000, -200, 0, 60));
}

#[test]
fn hit_band_is_strict() {
    // Vertically strictly inside the band around the receiver's centre.
    assert!(detect_hit(0, 54_999, 0, 0));
    assert!(!detect_hit(0, 55_000, 0, 0));
    assert!(!detect_hit(0, -55_000, 0, 0));
    assert!(detect_hit(0, -54_999, 0, 0));
}

#[test]
fn hit_right_edge_is_strict() {
    assert!(detect_hit(109_999, 0, 0, 0));
    assert!(!detect_hit(110_000, 0, 0, 0));
}

#[test]
fn hit_follows_receiver_centre() {
    assert!(detect_hit(-250_000, 30_000, -300_000, 0));
    assert!(!detect_hit(-250_000, 30_000, -500_000, 0));
}

#[test]
fn first_hit_plots_at_right_edge_without_advancing() {
    let mut r = Receiver::new();
    let out = r.record_hit(1_000, 12_000);
    assert_eq!(
        out,
        HitOutcome::Plotted { plot_x_mpx: 110_000, plot_y_mpx: 12_000 }
    );
    // The cursor has not moved: a second simultaneous hit plots at the
    // same place.
    let out2 = r.record_hit(1_000, -4_000);
    assert_eq!(
        out2,
        HitOutcome::Plotted { plot_x_mpx: 110_000, plot_y_mpx: -4_000 }
    );
}

#[test]
fn cursor_sweeps_at_220_millipixels_per_millisecond() {
    let mut r = Receiver::new();
    r.record_hit(1_000, 0);
    r.record_hit(1_100, 0);
    // 100 ms between hits: the cursor advanced 22 000 milli-pixels.
    let out = r.record_hit(1_100, 7_000);
    assert_eq!(
        out,
        HitOutcome::Plotted { plot_x_mpx: 88_000, plot_y_mpx: 7_000 }
    );
}

#[test]
fn plot_gaps_telescope_to_time_since_first_hit() {
    let mut r = Receiver::new();
    r.record_hit(0, 0);
    r.record_hit(100, 0);
    r.record_hit(250, 0);
    r.record_hit(400, 0);
    // The cursor depends only on the time from the first to the last hit:
    // 220 milli-pixels per millisecond over 400 ms.
    let out = r.record_hit(400, 3_000);
    assert_eq!(
        out,
        HitOutcome::Plotted { plot_x_mpx: 110_000 - 88_000, plot_y_mpx: 3_000 }
    );
}

#[test]
fn plot_saturates_beyond_twice_the_width() {
    let mut r = Receiver::new();
    r.record_hit(0, 0);
    // Two seconds without a hit: the cursor jumps 440 000 milli-pixels.
    r.record_hit(2_000, 0);
    assert_eq!(r.record_hit(2_100, 5_000), HitOutcome::Saturated);
    // Saturation is permanent.
    assert_eq!(r.record_hit(9_000, 5_000), HitOutcome::Saturated);
}

#[test]
fn plot_at_exactly_twice_the_width_still_plots() {
    let mut r = Receiver::new();
    r.record_hit(0, 0);
    // Exactly one second: the cursor lands exactly on the limit.
    r.record_hit(1_000, 0);
    let out = r.record_hit(1_000, 1_000);
    assert_eq!(
        out,
        HitOutcome::Plotted { plot_x_mpx: -110_000, plot_y_mpx: 1_000 }
    );
}

#[test]
fn transmitter_emits_every_10_ms() {
    let mut tx = Transmitter::new(0, 0);
    assert_eq!(tx.frame(9), None);
    let seed = tx.frame(1);
    assert_eq!(
        seed,
        Some(ParticleSeed {
            x_mpx: 0,
            y_mpx: 0,
            speed_mpx_per_ms: PARTICLE_SPEED_MPX_PER_MS,
            amplitude_mpx: PARTICLE_AMPLITUDE_MPX,
            frequency_mhz: PARTICLE_FREQUENCY_MHZ,
        })
    );
    assert!(tx.frame(10).is_some());
    assert_eq!(tx.frame(5), None);
    assert!(tx.frame(5).is_some());
}

#[test]
fn transmitter_emits_from_its_spawn_point() {
    let mut tx = Transmitter::new(42_000, -7_000);
    let seed = tx.frame(10).unwrap();
    assert_eq!(seed.x_mpx, 42_000);
    assert_eq!(seed.y_mpx, -7_000);
}

#[test]
fn key_press_rebuilds_and_restarts_countdown() {
    let mut s = ResetSchedule::new();
    assert!(!s.key_frame(false));
    assert!(!s.timed_frame(9_999));
    // The key restarts the countdown, so the next millisecond no longer
    // fires it.
    assert!(s.key_frame(true));
    assert!(!s.timed_frame(1));
    assert!(s.timed_frame(9_999));
}

#[test]
fn countdown_rebuilds_every_10_seconds() {
    let mut s = ResetSchedule::new();
    assert!(!s.timed_frame(9_999));
    assert!(s.timed_frame(1));
    assert!(s.timed_frame(10_000));
}

#[test]
fn capture_paths_are_zero_padded() {
    assert_eq!(capture_file_path(0).as_str(), "./screenshots/screenshot-000.png");
    assert_eq!(capture_file_path(7).as_str(), "./screenshots/screenshot-007.png");
    assert_eq!(capture_file_path(42).as_str(), "./screenshots/screenshot-042.png");
    assert_eq!(capture_file_path(499).as_str(), "./screenshots/screenshot-499.png");
}

#[test]
fn capture_waits_for_the_record_key() {
    let mut c = CaptureSession::new();
    assert_eq!(c.frame(false), None);
    assert_eq!(
        c.frame(true).as_deref(),
        Some("./screenshots/screenshot-000.png")
    );
    // Recording goes on without the key being held.
    assert_eq!(
        c.frame(false).as_deref(),
        Some("./screenshots/screenshot-001.png")
    );
}

#[test]
fn capture_stops_at_the_limit() {
    let mut c = CaptureSession::new();
    assert!(c.frame(true).is_some());
    for _ in 1..CAPTURE_LIMIT {
        assert!(c.frame(false).is_some());
    }
    assert_eq!(c.frame(false), None);
    assert_eq!(c.frame(true), None);
}

#[test]
fn the_scene_has_three_lanes() {
    let lanes = initial_lanes();
    assert_eq!(lanes.len(), 3);
    assert_eq!(
        lanes[0],
        LaneSetup {
            receiver_x_mpx: RECEIVER_START_X_MPX,
            y_mpx: 200_000,
            movement: Movement::Stationary,
        }
    );
    assert_eq!(
        lanes[1],
        LaneSetup {
            receiver_x_mpx: RECEIVER_START_X_MPX,
            y_mpx: 0,
            movement: Movement::Right,
        }
    );
    assert_eq!(
        lanes[2],
        LaneSetup {
            receiver_x_mpx: LEFT_RECEIVER_START_X_MPX,
            y_mpx: -200_000,
            movement: Movement::Left,
        }
    );
}
