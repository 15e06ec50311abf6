use fuzz_publisher::entropy::EntropySource;
use fuzz_publisher::error::FuzzError;
use fuzz_publisher::generator::{Generator, TypedMessage};
use fuzz_publisher::message::{R2RStringWrapper, Rgb};
use fuzz_publisher::registry::GeneratorRegistry;
use fuzz_publisher::scheduler::{LoopPhase, Scheduler, SchedulerAction, BUS_POLL_MS};
use fuzz_publisher::topic::{SetupAction, TaskPhase, TaskState, TickAction, TopicDescriptor};

fn descriptor(msg_type: &str, rate: i64, qos: i64, topic_name: &str) -> TopicDescriptor {
    TopicDescriptor::new(
        String::from(msg_type),
        String::from("te2"),
        rate,
        qos,
        String::from(topic_name),
    )
}

fn registry() -> GeneratorRegistry {
    let mut registry = GeneratorRegistry::new();
    registry.register("std_msgs/String", Generator::Text);
    registry.register("std_msgs/Int32", Generator::Int32);
    registry.register("color", Generator::Rgb);
    registry
}

/// Runs the setup of task `i` as a bus that accepts every publisher would
/// drive it, and returns the interval of the timer, if one was asked for.
fn set_up(scheduler: &mut Scheduler, i: usize) -> Option<u64> {
    if scheduler.start_task(i) != SetupAction::CreatePublisher {
        return None;
    }
    match scheduler.publisher_resolved(i, true) {
        SetupAction::CreateTimer { interval_ms } => {
            scheduler.timer_armed(i);
            Some(interval_ms)
        }
        _ => None,
    }
}

fn phase_of(scheduler: &Scheduler, i: usize) -> TaskPhase {
    scheduler.task(i).unwrap().phase()
}

#[test]
fn a_new_scheduler_holds_its_tasks_in_configuration_order() {
    let scheduler = Scheduler::new(
        registry(),
        vec![
            descriptor("std_msgs/String", 5, 1, "first"),
            descriptor("color", 2, 0, "second"),
            descriptor("foo/Bar", 1, 2, "third"),
        ],
    );
    assert_eq!(scheduler.task_count(), 3);
    assert_eq!(scheduler.phase(), LoopPhase::Polling);
    assert_eq!(scheduler.task(0).unwrap().descriptor().topic_name(), "first");
    assert_eq!(scheduler.task(1).unwrap().descriptor().topic_name(), "second");
    assert_eq!(scheduler.task(2).unwrap().descriptor().topic_name(), "third");
    assert_eq!(scheduler.task(1).unwrap().descriptor().msg_type(), "color");
    assert_eq!(scheduler.task(1).unwrap().descriptor().rate(), 2);
    assert_eq!(scheduler.task(1).unwrap().descriptor().qos(), 0);
    for i in 0..3 {
        assert_eq!(phase_of(&scheduler, i), TaskPhase::Created);
    }
    assert!(scheduler.task(3).is_none());
    assert!(scheduler.registry().is_registered("color"));
    assert!(!scheduler.registry().is_registered("foo/Bar"));
}

#[test]
fn a_scheduler_without_topics_still_turns() {
    let mut scheduler = Scheduler::new(registry(), Vec::new());
    assert_eq!(scheduler.task_count(), 0);
    assert_eq!(scheduler.next_action(false), SchedulerAction::PollBus { timeout_ms: 100 });
    assert_eq!(scheduler.next_action(false), SchedulerAction::FireTimers);
}

#[test]
fn the_loop_alternates_between_polling_and_firing() {
    let mut scheduler = Scheduler::new(registry(), vec![descriptor("color", 2, 0, "t")]);
    assert_eq!(BUS_POLL_MS, 100);
    for _ in 0..4 {
        assert_eq!(scheduler.phase(), LoopPhase::Polling);
        assert_eq!(
            scheduler.next_action(false),
            SchedulerAction::PollBus { timeout_ms: BUS_POLL_MS }
        );
        assert_eq!(scheduler.phase(), LoopPhase::Advancing);
        assert_eq!(scheduler.next_action(false), SchedulerAction::FireTimers);
    }
}

#[test]
fn cancellation_stops_the_loop_for_good() {
    let mut scheduler = Scheduler::new(registry(), vec![descriptor("color", 2, 0, "t")]);
    assert_eq!(set_up(&mut scheduler, 0), Some(500));
    assert_eq!(scheduler.next_action(false), SchedulerAction::PollBus { timeout_ms: 100 });
    assert_eq!(scheduler.next_action(true), SchedulerAction::Stop);
    assert_eq!(scheduler.phase(), LoopPhase::Stopped);
    assert_eq!(scheduler.next_action(false), SchedulerAction::Stop);
    assert_eq!(scheduler.next_action(false), SchedulerAction::Stop);
    let mut u = EntropySource::new(vec![1, 2, 3]);
    assert_eq!(scheduler.tick(0, false, &mut u), TickAction::Nothing);
    assert_eq!(u.cursor(), 0);
    assert_eq!(phase_of(&scheduler, 0), TaskPhase::Running);
}

#[test]
fn cancellation_seen_at_a_tick_stops_the_loop() {
    let mut scheduler = Scheduler::new(registry(), vec![descriptor("color", 2, 0, "t")]);
    set_up(&mut scheduler, 0);
    let mut u = EntropySource::new(vec![1, 2, 3]);
    assert_eq!(scheduler.tick(0, true, &mut u), TickAction::Nothing);
    assert_eq!(u.cursor(), 0);
    assert_eq!(scheduler.phase(), LoopPhase::Stopped);
    assert_eq!(scheduler.next_action(false), SchedulerAction::Stop);
}

#[test]
fn a_publish_under_way_is_completed_after_cancellation() {
    let mut scheduler = Scheduler::new(registry(), vec![descriptor("color", 2, 0, "t")]);
    set_up(&mut scheduler, 0);
    let mut u = EntropySource::new(vec![1, 2, 3]);
    assert!(matches!(scheduler.tick(0, false, &mut u), TickAction::Publish(_)));
    assert_eq!(scheduler.next_action(true), SchedulerAction::Stop);
    assert_eq!(scheduler.publish_finished(0, false), Some(FuzzError::PublishFailed));
    assert_eq!(phase_of(&scheduler, 0), TaskPhase::Running);
}

#[test]
fn an_index_without_a_task_changes_nothing() {
    let mut scheduler = Scheduler::new(registry(), vec![descriptor("color", 2, 0, "t")]);
    let mut u = EntropySource::new(vec![1, 2, 3]);
    assert_eq!(scheduler.start_task(1), SetupAction::Nothing);
    assert_eq!(scheduler.publisher_resolved(7, true), SetupAction::Nothing);
    scheduler.timer_armed(usize::MAX);
    assert_eq!(scheduler.tick(1, false, &mut u), TickAction::Nothing);
    assert_eq!(scheduler.publish_finished(1, false), None);
    assert_eq!(u.cursor(), 0);
    assert_eq!(phase_of(&scheduler, 0), TaskPhase::Created);
    assert_eq!(scheduler.phase(), LoopPhase::Polling);
}

#[test]
fn one_string_topic_gets_one_publisher_one_timer_and_valid_text() {
    let mut registry = GeneratorRegistry::new();
    registry.register("std_msgs/String", Generator::Text);
    let mut scheduler =
        Scheduler::new(registry, vec![descriptor("std_msgs/String", 5, 1, "stringtopic")]);
    let mut publishers: Vec<(String, String, i64)> = Vec::new();
    let mut timers: Vec<u64> = Vec::new();

    let mut action = scheduler.start_task(0);
    loop {
        match action {
            SetupAction::CreatePublisher => {
                let d = scheduler.task(0).unwrap().descriptor();
                publishers.push((
                    String::from(d.topic_name()),
                    String::from(d.msg_type()),
                    d.qos(),
                ));
                action = scheduler.publisher_resolved(0, true);
            }
            SetupAction::CreateTimer { interval_ms } => {
                timers.push(interval_ms);
                scheduler.timer_armed(0);
                action = scheduler.start_task(0);
            }
            SetupAction::DropPublisher => {
                publishers.pop();
                action = SetupAction::Nothing;
            }
            SetupAction::Nothing => break,
        }
    }
    assert_eq!(
        publishers,
        vec![(String::from("stringtopic"), String::from("std_msgs/String"), 1)]
    );
    assert_eq!(timers, vec![200]);
    assert_eq!(scheduler.task(0).unwrap().state(), TaskState::Running);

    let mut u = EntropySource::new(vec![104, 105, 106]);
    match scheduler.tick(0, false, &mut u) {
        TickAction::Publish(TypedMessage::Text(message)) => {
            assert_eq!(message, R2RStringWrapper { data: String::from("hij") });
            assert_eq!(message.data.as_bytes(), &[104, 105, 106]);
            assert!(std::str::from_utf8(message.data.as_bytes()).is_ok());
        }
        other => panic!("no text was published: {:?}", other),
    }
}

#[test]
fn an_unregistered_type_is_reported_and_the_other_topics_go_on() {
    let mut registry = GeneratorRegistry::new();
    registry.register("std_msgs/String", Generator::Text);
    let mut scheduler = Scheduler::new(
        registry,
        vec![descriptor("foo/Bar", 5, 1, "bartopic"), descriptor("std_msgs/String", 5, 1, "s")],
    );
    assert_eq!(scheduler.registry().lookup("foo/Bar"), Err(FuzzError::UnknownMessageType));
    let mut held_publishers = 0;
    let mut timers = 0;
    let mut reports: Vec<FuzzError> = Vec::new();
    for i in 0..scheduler.task_count() {
        if scheduler.start_task(i) == SetupAction::CreatePublisher {
            held_publishers += 1;
            match scheduler.publisher_resolved(i, true) {
                SetupAction::CreateTimer { .. } => {
                    timers += 1;
                    scheduler.timer_armed(i);
                }
                SetupAction::DropPublisher => held_publishers -= 1,
                _ => {}
            }
        }
        if let Some(cause) = scheduler.task(i).unwrap().abort_cause() {
            reports.push(cause);
        }
    }
    assert_eq!(reports, vec![FuzzError::UnknownMessageType]);
    assert_eq!(phase_of(&scheduler, 0), TaskPhase::Aborted(FuzzError::UnknownMessageType));
    assert_eq!(phase_of(&scheduler, 1), TaskPhase::Running);
    assert_eq!(held_publishers, 1);
    assert_eq!(timers, 1);
    let mut u = EntropySource::new(vec![104, 105, 106]);
    assert_eq!(scheduler.tick(0, false, &mut u), TickAction::Nothing);
    assert!(matches!(scheduler.tick(1, false, &mut u), TickAction::Publish(_)));
    assert_eq!(scheduler.next_action(false), SchedulerAction::PollBus { timeout_ms: 100 });
}

#[test]
fn only_an_unregistered_topic_leaves_nothing_behind() {
    let mut scheduler =
        Scheduler::new(GeneratorRegistry::new(), vec![descriptor("foo/Bar", 5, 1, "bartopic")]);
    assert_eq!(scheduler.start_task(0), SetupAction::CreatePublisher);
    assert_eq!(scheduler.publisher_resolved(0, true), SetupAction::DropPublisher);
    assert_eq!(
        scheduler.task(0).unwrap().abort_cause(),
        Some(FuzzError::UnknownMessageType)
    );
    assert_eq!(scheduler.task(0).unwrap().state(), TaskState::Aborted);
    assert_eq!(scheduler.next_action(false), SchedulerAction::PollBus { timeout_ms: 100 });
    assert_eq!(scheduler.next_action(false), SchedulerAction::FireTimers);
}

#[test]
fn a_short_entropy_buffer_skips_the_tick_and_the_task_ticks_again() {
    let mut scheduler = Scheduler::new(registry(), vec![descriptor("color", 5, 1, "colors")]);
    assert_eq!(set_up(&mut scheduler, 0), Some(200));
    let mut publish_calls = 0;
    let mut u = EntropySource::new(vec![1, 2]);
    match scheduler.tick(0, false, &mut u) {
        TickAction::Publish(_) => publish_calls += 1,
        TickAction::Skip(e) => assert_eq!(e, FuzzError::GenerationExhausted),
        TickAction::Nothing => panic!("the task did not tick"),
    }
    assert_eq!(publish_calls, 0);
    assert_eq!(u.cursor(), 0);
    assert_eq!(phase_of(&scheduler, 0), TaskPhase::Running);
    let mut fresh = EntropySource::new(vec![7, 8, 9]);
    assert_eq!(
        scheduler.tick(0, false, &mut fresh),
        TickAction::Publish(TypedMessage::Rgb(Rgb { r: 7, g: 8, b: 9 }))
    );
}

#[test]
fn a_tick_of_one_task_changes_no_other() {
    let mut scheduler = Scheduler::new(
        registry(),
        vec![
            descriptor("color", 5, 1, "a"),
            descriptor("std_msgs/String", 2, 1, "b"),
            descriptor("std_msgs/Int32", 1, 1, "c"),
        ],
    );
    set_up(&mut scheduler, 0);
    set_up(&mut scheduler, 1);
    let mut u = EntropySource::new(vec![1, 2, 3, 104, 105]);
    assert!(matches!(scheduler.tick(0, false, &mut u), TickAction::Publish(_)));
    assert_eq!(phase_of(&scheduler, 0), TaskPhase::Publishing);
    assert_eq!(phase_of(&scheduler, 1), TaskPhase::Running);
    assert_eq!(phase_of(&scheduler, 2), TaskPhase::Created);
    assert!(matches!(scheduler.tick(1, false, &mut u), TickAction::Publish(_)));
    assert_eq!(phase_of(&scheduler, 0), TaskPhase::Publishing);
    assert_eq!(scheduler.publish_finished(1, true), None);
    assert_eq!(phase_of(&scheduler, 0), TaskPhase::Publishing);
    assert_eq!(phase_of(&scheduler, 1), TaskPhase::Running);
}

#[test]
fn a_failing_task_starves_no_other() {
    let mut scheduler = Scheduler::new(
        registry(),
        vec![descriptor("color", 5, 1, "colors"), descriptor("std_msgs/Int32", 5, 1, "ints")],
    );
    set_up(&mut scheduler, 0);
    set_up(&mut scheduler, 1);
    let mut u = EntropySource::new(vec![1, 2]);
    // the color task needs three bytes and fails, and takes nothing
    assert_eq!(scheduler.tick(0, false, &mut u), TickAction::Skip(FuzzError::GenerationExhausted));
    assert_eq!(u.remaining(), 2);
    // the integer task needs two and still gets them
    assert!(matches!(scheduler.tick(1, false, &mut u), TickAction::Publish(_)));
    assert_eq!(scheduler.publish_finished(1, true), None);
    assert_eq!(phase_of(&scheduler, 0), TaskPhase::Running);
    assert_eq!(phase_of(&scheduler, 1), TaskPhase::Running);
}

#[test]
fn publish_counts_follow_the_rates_over_a_window() {
    let mut scheduler = Scheduler::new(
        registry(),
        vec![
            descriptor("color", 5, 1, "fast"),
            descriptor("std_msgs/Int32", 2, 1, "slow"),
            descriptor("std_msgs/String", 10, 1, "failing"),
        ],
    );
    let mut intervals: Vec<u64> = Vec::new();
    for i in 0..3 {
        intervals.push(set_up(&mut scheduler, i).unwrap());
    }
    assert_eq!(intervals, vec![200, 500, 100]);
    let mut published = vec![0u64, 0, 0];
    let mut skipped = vec![0u64, 0, 0];
    let mut now: u64 = 0;
    // one simulated second: a timer of interval t is ready at every multiple of t
    while now < 1000 {
        assert_eq!(scheduler.next_action(false), SchedulerAction::PollBus { timeout_ms: 100 });
        now += 100;
        assert_eq!(scheduler.next_action(false), SchedulerAction::FireTimers);
        for i in 0..3 {
            if now % intervals[i] == 0 {
                // the third task is fed bytes that are no text
                let bytes = if i == 2 { vec![0xff] } else { vec![9, 9, 9] };
                let mut u = EntropySource::new(bytes);
                match scheduler.tick(i, false, &mut u) {
                    TickAction::Publish(_) => {
                        assert_eq!(scheduler.publish_finished(i, true), None);
                        published[i] += 1;
                    }
                    TickAction::Skip(_) => skipped[i] += 1,
                    TickAction::Nothing => panic!("a ready task did not tick"),
                }
            }
        }
    }
    assert_eq!(published, vec![5, 2, 0]);
    assert_eq!(skipped, vec![0, 0, 10]);
}
