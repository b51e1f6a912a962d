use ganzhe::actor::{handle_control, msg_loop_step, ActorControl, ActorStat, LoopAction, LoopEvent};
use ganzhe::sync::Stat;

#[test]
fn message_loop_runs_until_stopped() {
    let mut stat = Stat::new(ActorStat::Creating);
    assert_eq!(msg_loop_step(&mut stat, LoopEvent::Started).0, LoopAction::Receive);
    assert_eq!(stat.current_stat(), ActorStat::Running);
    assert_eq!(msg_loop_step(&mut stat, LoopEvent::Handled).0, LoopAction::Receive);
    assert!(handle_control(ActorControl::Stop, &mut stat).is_empty());
    assert_eq!(stat.current_stat(), ActorStat::Stopped);
    assert_eq!(msg_loop_step(&mut stat, LoopEvent::Handled).0, LoopAction::Finish);
    assert_eq!(stat.current_stat(), ActorStat::Stopped);
}

#[test]
fn closed_channel_stops_the_actor() {
    let mut stat = Stat::new(ActorStat::Running);
    assert_eq!(msg_loop_step(&mut stat, LoopEvent::Closed).0, LoopAction::Finish);
    assert_eq!(stat.current_stat(), ActorStat::Stopped);
}
