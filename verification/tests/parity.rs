use bevy::time::{Timer, TimerMode};
use ot_decay::duration::Duration;
use ot_decay::timer::DecayTimer;

fn to_std(span: Duration) -> std::time::Duration {
    std::time::Duration::new(span.as_secs(), span.subsec_nanos())
}

fn to_span(duration: std::time::Duration) -> Duration {
    Duration::new(duration.as_secs(), duration.subsec_nanos())
}

fn next(seed: &mut u64) -> u64 {
    *seed = seed.wrapping_mul(6_364_136_223_846_793_005).wrapping_add(1_442_695_040_888_963_407);
    *seed >> 33
}

fn assert_same(ours: &DecayTimer, theirs: &Timer) {
    assert_eq!(to_std(ours.elapsed()), theirs.elapsed());
    assert_eq!(to_std(ours.duration()), theirs.duration());
    assert_eq!(to_std(ours.remaining()), theirs.remaining());
    assert_eq!(ours.paused(), theirs.paused());
    assert_eq!(ours.finished(), theirs.finished());
}

#[test]
fn span_converts_to_std_and_back() {
    let spans = [
        std::time::Duration::ZERO,
        std::time::Duration::from_nanos(1),
        std::time::Duration::from_millis(1_500),
        std::time::Duration::new(7, 999_999_999),
        std::time::Duration::from_secs(u64::MAX),
        std::time::Duration::MAX,
    ];
    for std_span in spans {
        let span = to_span(std_span);
        assert_eq!(span.as_nanos(), std_span.as_nanos());
        assert_eq!(span.as_millis(), std_span.as_millis());
        assert_eq!(span.as_secs(), std_span.as_secs());
        assert_eq!(span.subsec_nanos(), std_span.subsec_nanos());
        assert_eq!(span.is_zero(), std_span.is_zero());
        assert_eq!(to_std(span), std_span);
    }
}

#[test]
fn span_is_built_as_std_builds_it() {
    assert_eq!(to_std(Duration::zero()), std::time::Duration::ZERO);
    for secs in [0u64, 1, 59, 86_400, u64::MAX] {
        assert_eq!(to_std(Duration::from_secs(secs)), std::time::Duration::from_secs(secs));
    }
    for millis in [0u64, 1, 999, 1_000, 123_456_789, u64::MAX] {
        assert_eq!(to_std(Duration::from_millis(millis)), std::time::Duration::from_millis(millis));
    }
    for (secs, nanos) in [(0u64, 0u32), (3, 999_999_999), (3, 1_000_000_000), (3, u32::MAX)] {
        assert_eq!(to_std(Duration::new(secs, nanos)), std::time::Duration::new(secs, nanos));
    }
}

#[test]
fn span_adds_and_subtracts_as_std_does() {
    let spans = [
        std::time::Duration::ZERO,
        std::time::Duration::from_nanos(1),
        std::time::Duration::from_millis(2_750),
        std::time::Duration::from_secs(u64::MAX / 2 + 1),
        std::time::Duration::MAX,
    ];
    for a in spans {
        for b in spans {
            let sum = to_span(a).saturating_add(to_span(b));
            assert_eq!(to_std(sum), a.saturating_add(b));
            let rest = to_span(a).saturating_sub(to_span(b));
            assert_eq!(to_std(rest), a.saturating_sub(b));
            assert_eq!(to_span(a) < to_span(b), a < b);
            assert_eq!(to_span(a) == to_span(b), a == b);
        }
    }
}

#[test]
fn timer_moves_as_a_one_shot_bevy_timer() {
    let mut seed = 0x5eed_u64;
    for total_millis in [1u64, 10, 250, 1_000, 60_000] {
        for _ in 0..50 {
            let total = Duration::from_millis(total_millis);
            let mut ours = DecayTimer::new(total);
            let mut theirs = Timer::new(to_std(total), TimerMode::Once);
            assert_same(&ours, &theirs);
            for _ in 0..40 {
                match next(&mut seed) % 6 {
                    0 => {
                        ours.pause();
                        theirs.pause();
                    }
                    1 => {
                        ours.unpause();
                        theirs.unpause();
                    }
                    _ => {
                        let delta = Duration::from_nanos(
                            (next(&mut seed) % (total_millis * 400_000)) as u128,
                        );
                        ours.tick(delta);
                        theirs.tick(to_std(delta));
                    }
                }
                assert_same(&ours, &theirs);
            }
        }
    }
}

#[test]
fn timer_of_no_time_is_finished_once_bevy_has_ticked() {
    let mut ours = DecayTimer::new(Duration::zero());
    let mut theirs = Timer::new(std::time::Duration::ZERO, TimerMode::Once);
    assert!(ours.finished());
    assert!(!theirs.finished());
    ours.tick(Duration::zero());
    theirs.tick(std::time::Duration::ZERO);
    assert_same(&ours, &theirs);
    assert!(ours.finished());
}

#[test]
fn timer_stops_at_the_longest_span_as_bevy_does() {
    let longest = to_span(std::time::Duration::MAX);
    let mut ours = DecayTimer::new(longest);
    let mut theirs = Timer::new(std::time::Duration::MAX, TimerMode::Once);
    ours.tick(Duration::from_secs(u64::MAX));
    theirs.tick(std::time::Duration::from_secs(u64::MAX));
    assert_same(&ours, &theirs);
    ours.tick(Duration::from_secs(1));
    theirs.tick(std::time::Duration::from_secs(1));
    assert_same(&ours, &theirs);
    assert!(ours.finished());
}
