use shizuku::error::{DeserializeError, Error, PostProcessError, PreProcessError, SerializeError};
use shizuku::jetstream::{
    ack_after_process, ack_after_publish, ack_begin, jet_route, unexpected_subject, AckAction, JetRoute,
    RouteDecision,
};
use shizuku::message::NatsSubjectPath;
use shizuku::pool::{machine_pool_capacity, must_wait_for_slot, pool_capacity, CPU_CONCURRENT, MAX_CONCURRENT};
use shizuku::processor::{RetryLayer, RetryProgress, RetryStep, BUSINESS_MAX_RETRY};
use shizuku::random::random_sleep_millis;
use shizuku::service_rpc::{reply_plan, reply_sent};

fn route(path: &[&str], handler: usize) -> JetRoute {
    JetRoute { path: path.iter().map(|s| s.to_string()).collect(), handler }
}

fn order_routes() -> Vec<JetRoute> {
    vec![route(&["invoice"], 0), route(&["order", "paid", "*"], 1), route(&["order", "cancelled"], 2)]
}

fn subject(s: &str) -> NatsSubjectPath {
    NatsSubjectPath::from_subject(s)
}

#[test]
fn routes_by_subject() {
    let routes = order_routes();
    assert_eq!(jet_route(&subject("invoice"), &routes), RouteDecision::Dispatch(0));
    assert_eq!(jet_route(&subject("invoice.more.segments"), &routes), RouteDecision::Dispatch(0));
    assert_eq!(jet_route(&subject("order.paid.42"), &routes), RouteDecision::Dispatch(1));
    assert_eq!(jet_route(&subject("order.cancelled"), &routes), RouteDecision::Dispatch(2));
    assert_eq!(jet_route(&subject("shipment.sent"), &routes), RouteDecision::UnexpectedSubject);
}

#[test]
fn route_refuses_subject_that_runs_out() {
    let routes = order_routes();
    // "order" matches the first segment of a route but has no second one:
    // refused at once, without trying the later route
    assert_eq!(jet_route(&subject("order"), &routes), RouteDecision::UnexpectedSubject);
    assert_eq!(jet_route(&subject("order.paid"), &routes), RouteDecision::UnexpectedSubject);
}

#[test]
fn route_wildcards() {
    let routes = vec![route(&["*", "created"], 0), route(&["audit", ">"], 1), route(&[">"], 2)];
    assert_eq!(jet_route(&subject("user.created"), &routes), RouteDecision::Dispatch(0));
    assert_eq!(jet_route(&subject("audit.x.y"), &routes), RouteDecision::Dispatch(1));
    assert_eq!(jet_route(&subject("other.thing"), &routes), RouteDecision::Dispatch(2));
    assert_eq!(jet_route(&subject("user.deleted"), &routes), RouteDecision::Dispatch(2));
}

#[test]
fn unexpected_subject_error() {
    assert_eq!(
        unexpected_subject("a.b".into()),
        Error::PreProcessError(PreProcessError::UnexpectedSubject("a.b".into()))
    );
}

#[test]
fn ack_flow() {
    match ack_begin(None) {
        AckAction::Finish(Err(Error::PreProcessError(PreProcessError::UnexpectedNullReplySubject))) => {}
        other => panic!("{:?}", other),
    }
    match ack_begin(Some("r".into())) {
        AckAction::Process { reply } => assert_eq!(reply, "r"),
        other => panic!("{:?}", other),
    }
    match ack_after_process("r".into(), Ok(())) {
        AckAction::PublishAck { reply } => assert_eq!(reply, "r"),
        other => panic!("{:?}", other),
    }
    match ack_after_process("r".into(), Err(Error::Custom("x".into()))) {
        AckAction::Finish(Err(Error::Custom(m))) => assert_eq!(m, "x"),
        other => panic!("{:?}", other),
    }
    assert_eq!(ack_after_publish(Ok(())), Ok(()));
    assert_eq!(
        ack_after_publish(Err("down".into())),
        Err(Error::PostProcessError(PostProcessError::NatsMessagePushError("down".into())))
    );
}

#[test]
fn service_reply_flow() {
    assert_eq!(reply_plan(Some("inbox".into()), Ok(vec![1, 2])), Ok(("inbox".to_string(), vec![1, 2])));
    assert_eq!(
        reply_plan(None, Ok(vec![1])),
        Err(Error::PostProcessError(PostProcessError::UnexpectedNullReplySubject))
    );
    assert_eq!(reply_plan(None, Err(Error::Custom("boom".into()))), Err(Error::Custom("boom".into())));
    assert_eq!(reply_sent(Ok(())), Ok(()));
    assert_eq!(
        reply_sent(Err("x".into())),
        Err(Error::PostProcessError(PostProcessError::NatsMessagePushError("x".into())))
    );
}

fn drive(layer: &RetryLayer, outcomes: Vec<Result<u32, Error>>) -> (Result<u32, Error>, usize) {
    let mut step = layer.start::<u32>();
    let mut used = 0;
    let mut outcomes = outcomes.into_iter();
    loop {
        match step {
            RetryStep::Done(r) => return (r, used),
            RetryStep::Again(p) => {
                used += 1;
                step = layer.next(p, outcomes.next().unwrap());
            }
        }
    }
}

#[test]
fn retry_collects_business_errors() {
    let layer = RetryLayer::new(3);
    let (r, used) = drive(
        &layer,
        vec![
            Err(Error::BusinessError("a".into())),
            Err(Error::BusinessError("b".into())),
            Err(Error::BusinessError("c".into())),
            Err(Error::BusinessError("d".into())),
        ],
    );
    assert_eq!(used, 4);
    assert_eq!(r, Err(Error::BusinessRetryReached(vec!["a".into(), "b".into(), "c".into(), "d".into()])));
}

#[test]
fn retry_stops_on_success_or_other_error() {
    let layer = RetryLayer::new(3);
    let (r, used) = drive(&layer, vec![Err(Error::BusinessError("a".into())), Ok(7)]);
    assert_eq!((r, used), (Ok(7), 2));
    let (r, used) = drive(&layer, vec![Err(Error::BusinessPanicError("bug".into()))]);
    assert_eq!((r, used), (Err(Error::BusinessPanicError("bug".into())), 1));
}

#[test]
fn retry_with_no_retries_attempts_once() {
    let (r, used) = drive(&RetryLayer::new(0), vec![Ok(5)]);
    assert_eq!((r, used), (Ok(5), 1));
    let (r, used) = drive(&RetryLayer::new(0), vec![Err(Error::BusinessError("only".into()))]);
    assert_eq!((r, used), (Err(Error::BusinessRetryReached(vec!["only".into()])), 1));
    assert_eq!(RetryLayer::default().max_retry, BUSINESS_MAX_RETRY);
    let p = RetryProgress { attempts: 1, errors: vec!["y".to_string()] };
    match RetryLayer::new(1).next::<u8>(p, Err(Error::BusinessError("z".into()))) {
        RetryStep::Done(Err(Error::BusinessRetryReached(v))) => assert_eq!(v, vec!["y".to_string(), "z".to_string()]),
        other => panic!("{:?}", other),
    }
}

#[test]
fn error_conversions() {
    let s = SerializeError("enc".into());
    assert_eq!(PostProcessError::new(s.clone()), PostProcessError::SerializeError(s.clone()));
    let d = DeserializeError("dec".into());
    assert_eq!(PreProcessError::new(d.clone()), PreProcessError::DeserializeError(d.clone()));
    assert_eq!(
        Error::new(PreProcessError::DeserializeError(d.clone())),
        Error::PreProcessError(PreProcessError::DeserializeError(d))
    );
    assert_eq!(
        Error::new(PostProcessError::UnexpectedNullReplySubject),
        Error::PostProcessError(PostProcessError::UnexpectedNullReplySubject)
    );
}

#[test]
fn pool_capacity_is_bounded() {
    assert_eq!(pool_capacity(2, CPU_CONCURRENT, MAX_CONCURRENT), 8);
    assert_eq!(pool_capacity(64, CPU_CONCURRENT, MAX_CONCURRENT), 100);
    assert_eq!(pool_capacity(25, CPU_CONCURRENT, MAX_CONCURRENT), 100);
    assert_eq!(pool_capacity(usize::MAX, 4, 100), 100);
    let c = machine_pool_capacity(CPU_CONCURRENT, MAX_CONCURRENT);
    assert!(c >= 4 && c <= 100);
    assert!(must_wait_for_slot(100, 100));
    assert!(!must_wait_for_slot(99, 100));
}

#[test]
fn random_pause_in_range() {
    for _ in 0..200 {
        let r = random_sleep_millis(20, 70);
        assert!((20..70).contains(&r));
    }
    assert_eq!(random_sleep_millis(5, 6), 5);
}

#[test]
fn clock_reads_seconds_since_epoch() {
    let t = shizuku::clock::current_timestamp();
    assert!(t > 1_600_000_000);
}

#[test]
fn route_tables_are_checked_and_pools_stay_bounded() {
    use_route_check();
    assert_eq!(shizuku::pool::occupancy_after_run(0, 4), 1);
    assert_eq!(shizuku::pool::occupancy_after_run(3, 4), 4);
    assert_eq!(shizuku::pool::occupancy_after_run(4, 4), 4);
    assert_eq!(shizuku::pool::occupancy_after_run(0, 0), 1);
}

fn use_route_check() {
    let route = |p: &[&str]| shizuku::jetstream::JetRoute { path: p.iter().map(|s| s.to_string()).collect(), handler: 0 };
    assert!(shizuku::jetstream::routes_well_formed(&vec![route(&["order", ">"]), route(&["a", "*", "b"])]));
    assert!(!shizuku::jetstream::routes_well_formed(&vec![route(&["order"]), route(&["a", ">", "b"])]));
    assert!(shizuku::jetstream::routes_well_formed(&vec![route(&[">"])]));
}
