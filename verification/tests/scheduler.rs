use pyree::anim::{Animation, LinearAnim, Pt1Anim};
use pyree::cancel::CancelAnimData;
use pyree::channel::{Channel, ChannelKind, ChannelTrigger, ChannelWrite, Shape};
use pyree::hexagon::HexagonDefinition;
use pyree::pool::{apply_writes, read_channel, Tunnelgon};
use pyree::scheduler::Scheduler;
use pyree::task::{AnimTask, TaskPhase};
use pyree::tunnelgon::{LaserAnimationEvent, TunnelgonBaseAnim};
use pyree::tunnelgon_anim::laser_animation_system;

const TICK: u64 = 16_000;

fn channel() -> Channel {
    Channel { hexagon: HexagonDefinition::A1, kind: ChannelKind::Laser, index: 0 }
}

fn pulse(value: i64) -> Vec<LaserAnimationEvent> {
    vec![LaserAnimationEvent {
        affected_hexagons: vec![HexagonDefinition::A1],
        base_anim: TunnelgonBaseAnim::Pulse,
        indices: vec![0],
        values: vec![value],
    }]
}

fn decay(from: i64) -> Animation {
    Animation::Pt1(Pt1Anim { val: from, target: 0, time_constant: 30_000 })
}

#[test]
fn new_task_discards_its_first_poll() {
    let mut naming = CancelAnimData::default();
    naming.insert(HexagonDefinition::A1, 0);
    let mut task = AnimTask::new(channel(), decay(1_000_000));
    assert_eq!(task.phase, TaskPhase::AwaitingFirstPoll);
    let write = task.step(Some(naming), TICK);
    assert_eq!(write, Some(ChannelWrite { channel: channel(), value: 652_174 }));
    assert_eq!(task.phase, TaskPhase::Running);
}

#[test]
fn running_task_named_by_the_record_exits_without_writing() {
    let mut naming = CancelAnimData::default();
    naming.insert(HexagonDefinition::A1, 0);
    let mut task = AnimTask::new(channel(), decay(1_000_000));
    task.step(None, TICK);
    let before = task.anim;
    assert_eq!(task.step(Some(naming), TICK), None);
    assert_eq!(task.phase, TaskPhase::Cancelled);
    assert_eq!(task.anim, before);
    assert!(!task.live());
    // and stays silent
    assert_eq!(task.step(None, TICK), None);
    assert_eq!(task.step(Some(naming), TICK), None);
    assert_eq!(task.phase, TaskPhase::Cancelled);
}

#[test]
fn running_task_not_named_by_the_record_goes_on() {
    let mut other = CancelAnimData::default();
    other.insert(HexagonDefinition::A1, 1);
    other.insert(HexagonDefinition::A2, 0);
    let mut task = AnimTask::new(channel(), decay(1_000_000));
    task.step(None, TICK);
    assert_eq!(
        task.step(Some(other), TICK),
        Some(ChannelWrite { channel: channel(), value: 425_331 })
    );
    assert_eq!(task.phase, TaskPhase::Running);
}

#[test]
fn task_writes_exact_target_once_and_exits() {
    let ramp = Animation::Linear(LinearAnim { val: 0, target: 40_000, speed: 1_000_000 });
    let mut task = AnimTask::new(channel(), ramp);
    assert_eq!(task.step(None, TICK), Some(ChannelWrite { channel: channel(), value: 16_000 }));
    assert_eq!(task.step(None, TICK), Some(ChannelWrite { channel: channel(), value: 32_000 }));
    assert_eq!(task.phase, TaskPhase::Running);
    assert_eq!(task.step(None, TICK), Some(ChannelWrite { channel: channel(), value: 40_000 }));
    assert_eq!(task.phase, TaskPhase::Converged);
    assert_eq!(task.step(None, TICK), None);
    assert_eq!(task.phase, TaskPhase::Converged);
}

#[test]
fn superseded_pulse_falls_silent_and_latest_trigger_wins() {
    let mut scheduler = Scheduler::new();
    let mut pool = vec![Tunnelgon::new(HexagonDefinition::A1)];

    // first trigger
    let report = laser_animation_system(&mut scheduler, &pulse(1_000_000));
    apply_writes(&mut pool, &report.writes);
    let writes = scheduler.tick(TICK);
    assert_eq!(writes, vec![ChannelWrite { channel: channel(), value: 652_174 }]);
    apply_writes(&mut pool, &writes);

    // a frame without trigger
    laser_animation_system(&mut scheduler, &vec![]);
    let writes = scheduler.tick(TICK);
    assert_eq!(writes, vec![ChannelWrite { channel: channel(), value: 425_331 }]);
    apply_writes(&mut pool, &writes);
    assert_eq!(read_channel(&pool, &channel()), Some(425_331));

    // second trigger on the same channel while the first is in flight
    let report = laser_animation_system(&mut scheduler, &pulse(500_000));
    assert!(report.writes.is_empty());
    assert_eq!(scheduler.task_count(), 2);
    assert!(scheduler.try_read().unwrap().contains(HexagonDefinition::A1, 0));
    let writes = scheduler.tick(TICK);
    // the superseded task wrote nothing; the only write is the new task's
    assert_eq!(writes, vec![ChannelWrite { channel: channel(), value: 326_087 }]);
    assert_eq!(scheduler.task_count(), 1);
    assert_eq!(scheduler.task(0).unwrap().phase, TaskPhase::Running);
    apply_writes(&mut pool, &writes);
    assert_eq!(read_channel(&pool, &channel()), Some(326_087));

    // from now on every write comes from the second pulse, down to zero
    let mut expected = Pt1Anim { val: 326_087, target: 0, time_constant: 30_000 };
    let mut ticks = 0;
    while scheduler.task_count() > 0 {
        laser_animation_system(&mut scheduler, &vec![]);
        let writes = scheduler.tick(TICK);
        expected.advance(TICK);
        assert_eq!(writes, vec![ChannelWrite { channel: channel(), value: expected.val }]);
        apply_writes(&mut pool, &writes);
        ticks += 1;
        assert!(ticks < 1_000);
    }
    assert_eq!(read_channel(&pool, &channel()), Some(0));
    assert!(scheduler.tick(TICK).is_empty());
}

#[test]
fn instant_set_supersedes_a_running_pulse() {
    let mut scheduler = Scheduler::new();
    laser_animation_system(&mut scheduler, &pulse(1_000_000));
    scheduler.tick(TICK);
    let set = vec![LaserAnimationEvent {
        affected_hexagons: vec![HexagonDefinition::A1],
        base_anim: TunnelgonBaseAnim::SetToVal,
        indices: vec![0],
        values: vec![250_000],
    }];
    let report = laser_animation_system(&mut scheduler, &set);
    assert_eq!(report.writes, vec![ChannelWrite { channel: channel(), value: 250_000 }]);
    assert!(scheduler.tick(TICK).is_empty());
    assert_eq!(scheduler.task_count(), 0);
}

#[test]
fn pulses_on_other_channels_are_not_disturbed() {
    let mut scheduler = Scheduler::new();
    let both = vec![LaserAnimationEvent {
        affected_hexagons: vec![HexagonDefinition::A1, HexagonDefinition::A2],
        base_anim: TunnelgonBaseAnim::Pulse,
        indices: vec![0, 1],
        values: vec![1_000_000, 1_000_000],
    }];
    laser_animation_system(&mut scheduler, &both);
    assert_eq!(scheduler.tick(TICK).len(), 4);
    laser_animation_system(&mut scheduler, &pulse(500_000));
    let writes = scheduler.tick(TICK);
    let seen: Vec<(HexagonDefinition, usize, i64)> =
        writes.iter().map(|w| (w.channel.hexagon, w.channel.index, w.value)).collect();
    assert_eq!(
        seen,
        vec![
            (HexagonDefinition::A1, 1, 425_331),
            (HexagonDefinition::A2, 0, 425_331),
            (HexagonDefinition::A2, 1, 425_331),
            (HexagonDefinition::A1, 0, 326_087),
        ]
    );
    assert_eq!(scheduler.task_count(), 4);
}

#[test]
fn record_is_read_once() {
    let mut scheduler = Scheduler::new();
    laser_animation_system(&mut scheduler, &pulse(1_000_000));
    assert!(scheduler.try_read().is_some());
    assert!(scheduler.try_read().is_some());
    scheduler.tick(TICK);
    assert!(scheduler.try_read().is_none());
}

#[test]
fn two_dispatches_without_a_tick_between_leave_only_the_latest_record() {
    let mut scheduler = Scheduler::new();
    laser_animation_system(&mut scheduler, &pulse(1_000_000));
    scheduler.tick(TICK);
    // names A1 0, then is replaced by a record that names nothing
    laser_animation_system(&mut scheduler, &vec![]);
    let writes = scheduler.tick(TICK);
    assert_eq!(writes.len(), 1);
    laser_animation_system(&mut scheduler, &pulse(500_000));
    scheduler.dispatch(&vec![]);
    let writes = scheduler.tick(TICK);
    // the older pulse never saw the record that named it
    assert_eq!(writes.len(), 2);
}

#[test]
fn write_without_a_target_is_dropped_and_the_task_goes_on() {
    let mut scheduler = Scheduler::new();
    let mut pool = vec![Tunnelgon::new(HexagonDefinition::B1)];
    laser_animation_system(&mut scheduler, &pulse(1_000_000));
    let writes = scheduler.tick(TICK);
    assert_eq!(writes.len(), 1);
    let before = pool[0];
    assert_eq!(apply_writes(&mut pool, &writes), 1);
    assert_eq!(pool[0].params.laser, before.params.laser);
    assert_eq!(read_channel(&pool, &channel()), None);
    assert_eq!(scheduler.task_count(), 1);
    // the target appears: the next write is taken
    pool = vec![Tunnelgon::new(HexagonDefinition::A1)];
    let writes = scheduler.tick(TICK);
    assert_eq!(apply_writes(&mut pool, &writes), 0);
    assert_eq!(read_channel(&pool, &channel()), Some(425_331));
}

#[test]
fn core_dispatch_takes_any_shape() {
    let mut scheduler = Scheduler::new();
    let triggers = vec![
        ChannelTrigger {
            channel: Channel { hexagon: HexagonDefinition::Main, kind: ChannelKind::RingPosition, index: 10 },
            shape: Shape::Slide { from: 0, to: 32_000, speed: 1_000_000 },
        },
        ChannelTrigger {
            channel: Channel { hexagon: HexagonDefinition::Main, kind: ChannelKind::RingAmplitude, index: 10 },
            shape: Shape::Jump { value: 5 },
        },
    ];
    let writes = scheduler.dispatch(&triggers);
    assert_eq!(writes.len(), 1);
    assert_eq!(writes[0].channel.index, 2);
    assert_eq!(writes[0].value, 5);
    assert_eq!(scheduler.task_count(), 1);
    assert_eq!(scheduler.tick(TICK)[0].value, 16_000);
    let last = scheduler.tick(TICK);
    assert_eq!(last[0].value, 32_000);
    assert_eq!(last[0].channel.index, 2);
    assert_eq!(scheduler.task_count(), 0);
}

#[test]
fn record_can_be_sent_without_requests() {
    let mut scheduler = Scheduler::new();
    laser_animation_system(&mut scheduler, &pulse(1_000_000));
    scheduler.tick(TICK);
    let mut naming = CancelAnimData::default();
    naming.insert(HexagonDefinition::A1, 8);
    scheduler.send(naming);
    assert!(scheduler.try_read().unwrap().contains(HexagonDefinition::A1, 0));
    assert!(scheduler.tick(TICK).is_empty());
    assert_eq!(scheduler.task_count(), 0);
}

#[test]
fn abandoned_animations_end_without_a_write() {
    let mut scheduler = Scheduler::new();
    laser_animation_system(&mut scheduler, &pulse(1_000_000));
    scheduler.tick(TICK);
    laser_animation_system(&mut scheduler, &pulse(500_000));
    assert_eq!(scheduler.task_count(), 2);
    scheduler.abandon();
    assert_eq!(scheduler.task_count(), 0);
    assert!(scheduler.try_read().is_none());
    assert!(scheduler.tick(TICK).is_empty());
}

#[test]
fn no_channel_is_written_twice_in_a_tick_over_many_frames() {
    let screens = [
        HexagonDefinition::Main,
        HexagonDefinition::A1,
        HexagonDefinition::A2,
        HexagonDefinition::B3,
    ];
    let mut scheduler = Scheduler::new();
    let mut seed: u64 = 12345;
    let mut next = |bound: u64| {
        seed = seed.wrapping_mul(6364136223846793005).wrapping_add(1442695040888963407);
        (seed >> 33) % bound
    };
    for _ in 0..200 {
        // a batch with no two requests for one channel
        let mut triggers: Vec<ChannelTrigger> = vec![];
        for (at, hexagon) in screens.iter().enumerate() {
            for index in 0..8usize {
                if next(5) != 0 {
                    continue;
                }
                let shape = match next(3) {
                    0 => Shape::Jump { value: next(2_000_000) as i64 },
                    1 => Shape::Pulse { from: next(2_000_000) as i64, time_constant: 30_000 },
                    _ => Shape::Slide {
                        from: next(2_000_000) as i64,
                        to: next(2_000_000) as i64,
                        speed: 1_000_000,
                    },
                };
                // now and then ask for the slot by an index that has to be wrapped
                let asked = if next(4) == 0 { index + 8 * (at + 1) } else { index };
                let channel =
                    Channel { hexagon: *hexagon, kind: ChannelKind::Laser, index: asked };
                triggers.push(ChannelTrigger { channel, shape });
            }
        }
        let record_names: Vec<(HexagonDefinition, usize)> =
            triggers.iter().map(|t| (t.channel.hexagon, t.channel.index % 8)).collect();
        scheduler.dispatch(&triggers);
        let before: Vec<AnimTask> =
            (0..scheduler.task_count()).map(|at| scheduler.task(at).unwrap()).collect();
        let writes = scheduler.tick(next(40_000));
        for (i, write) in writes.iter().enumerate() {
            for other in &writes[i + 1..] {
                assert_ne!(write.channel, other.channel);
            }
            assert!(write.channel.index < 8);
        }
        // no task that ran before the dispatch wrote to a slot of the batch
        let old_writers: Vec<Channel> = before
            .iter()
            .filter(|task| task.phase == TaskPhase::Running)
            .map(|task| task.channel)
            .collect();
        for channel in old_writers {
            let named = record_names.contains(&(channel.hexagon, channel.index));
            let wrote = writes.iter().any(|write| write.channel == channel);
            let restarted = before
                .iter()
                .any(|task| task.phase == TaskPhase::AwaitingFirstPoll && task.channel == channel);
            if named && !restarted {
                assert!(!wrote);
            }
        }
        for at in 0..scheduler.task_count() {
            let task = scheduler.task(at).unwrap();
            assert_eq!(task.phase, TaskPhase::Running);
            for later in at + 1..scheduler.task_count() {
                assert_ne!(task.channel, scheduler.task(later).unwrap().channel);
            }
        }
    }
}
