use shizuku::attr::text::{
    attr_items, jetstream_consumer_text, jetstream_meta_text, message_text, rpc_route_text, rpc_service_text, AttrTextError,
};
use shizuku::attr::consumer::{
    jetstream_consumer, AckPolicy, ConsumerOptionError, ConsumerType, DeliverPolicy,
    DurableSetting, JetStreamConsumerOptions,
};
use shizuku::attr::nats_message::{message, ItemKind, MessageOptionError, StaticMessageDeriveOptions};
use shizuku::attr::rpc_route::{
    route_answer, route_of, rpc_route_impl, RouteAnswer, RouteArgsError, RpcEndpointArgs, RpcEndpointRouteArgs,
};
use shizuku::attr::rpc_service::{rpc_service_impl, RpcOptionError, RpcOptions};
use shizuku::attr::stream_meta::{jetstream_meta, JetStreamMetaOptions, StreamOptionError};
use shizuku::attr::{AttrLit, AttrMeta};

fn flag(name: &str) -> AttrMeta {
    AttrMeta::Path(Some(name.to_string()))
}

fn text(name: &str, value: &str) -> AttrMeta {
    AttrMeta::NameValue(Some(name.to_string()), Some(AttrLit::Str(value.to_string())))
}

fn integer(name: &str, value: u128) -> AttrMeta {
    AttrMeta::NameValue(Some(name.to_string()), Some(AttrLit::Int(Some(value))))
}

fn endpoint(items: Vec<AttrMeta>) -> AttrMeta {
    AttrMeta::List(Some("rpc_endpoint".to_string()), items)
}

fn boolean(name: &str, value: bool) -> AttrMeta {
    AttrMeta::NameValue(Some(name.to_string()), Some(AttrLit::Bool(value)))
}

#[test]
fn consumer_without_options_is_a_default_pull_consumer() {
    let o = JetStreamConsumerOptions::parse(&[]).unwrap();
    assert_eq!(o.consumer_name, None);
    assert_eq!(o.is_push, None);
    assert_eq!(o.deliver_policy, DeliverPolicy::All);
    assert_eq!(o.ack_policy, AckPolicy::Explicit);
    let p = o.into_parsed();
    assert_eq!(p.durable, DurableSetting::Ephemeral);
    assert_eq!(p.consumer_type, ConsumerType::Pull { max_batch: None });
    assert!(!p.headers_only);
}

#[test]
fn consumer_reads_every_option() {
    let items = vec![
        text("name", "orders"),
        flag("durable"),
        text("deliver_policy", "Last_Per_Subject"),
        text("ack_policy", "NONE"),
        integer("ack_wait_secs", 30),
        text("filter_subject", "orders.>"),
        flag("headers_only"),
        flag("pull"),
        integer("max_batch", 100),
        text("description", "all orders"),
    ];
    let o = JetStreamConsumerOptions::parse(&items).unwrap();
    assert_eq!(o.deliver_policy, DeliverPolicy::LastPerSubject);
    assert_eq!(o.ack_policy, AckPolicy::NoAck);
    assert_eq!(o.ack_wait_secs, Some(30));
    assert_eq!(o.description.as_deref(), Some("all orders"));
    let p = o.into_parsed();
    assert_eq!(p.durable, DurableSetting::Durable("orders".to_string()));
    assert_eq!(p.consumer_type, ConsumerType::Pull { max_batch: Some(100) });
    assert!(p.headers_only);
    assert_eq!(p.filter_subject.as_deref(), Some("orders.>"));
}

#[test]
fn later_consumer_options_override_earlier_ones() {
    let items = vec![text("name", "first"), text("name", "second"), boolean("headers_only", true), boolean("headers_only", false)];
    let o = JetStreamConsumerOptions::parse(&items).unwrap();
    assert_eq!(o.consumer_name.as_deref(), Some("second"));
    assert_eq!(o.headers_only, Some(false));
}

#[test]
fn push_consumer_needs_deliver_subject() {
    let items = vec![flag("push")];
    assert_eq!(JetStreamConsumerOptions::parse(&items).unwrap_err(), ConsumerOptionError::MissingDeliverSubject);
    let items = vec![flag("push"), text("deliver_subject", "inbox"), text("deliver_group", "workers")];
    let p = JetStreamConsumerOptions::parse(&items).unwrap().into_parsed();
    assert_eq!(
        p.consumer_type,
        ConsumerType::Push { deliver_subject: "inbox".to_string(), deliver_group: Some("workers".to_string()) }
    );
}

#[test]
fn consumer_option_errors() {
    let cases: Vec<(Vec<AttrMeta>, ConsumerOptionError)> = vec![
        (vec![flag("push"), flag("pull")], ConsumerOptionError::PushAndPull),
        (vec![text("deliver_group", "g")], ConsumerOptionError::DeliverGroupWithoutPush),
        (vec![text("deliver_subject", "s")], ConsumerOptionError::DeliverSubjectWithoutPush),
        (vec![flag("push"), text("deliver_subject", "s"), integer("max_batch", 1)], ConsumerOptionError::MaxBatchWithoutPull),
        (vec![text("deliver_policy", "first")], ConsumerOptionError::InvalidDeliverPolicy),
        (vec![text("ack_policy", "some")], ConsumerOptionError::InvalidAckPolicy),
        (vec![integer("max_batch", 1u128 << 63)], ConsumerOptionError::NumberTooLarge),
        (vec![integer("name", 3)], ConsumerOptionError::UnexpectedAttribute("name".to_string())),
        (vec![text("colour", "red")], ConsumerOptionError::UnexpectedAttribute("colour".to_string())),
        (vec![flag("fast")], ConsumerOptionError::ExpectedNameValueOrFlag),
        (vec![AttrMeta::List(None, vec![])], ConsumerOptionError::ExpectedNameValueOrFlag),
        (vec![AttrMeta::Path(None)], ConsumerOptionError::ExpectedIdentifier),
        (vec![AttrMeta::NameValue(None, None)], ConsumerOptionError::ExpectedIdentifier),
        (vec![AttrMeta::NameValue(Some("name".to_string()), None)], ConsumerOptionError::ExpectedLiteral),
    ];
    for (items, expected) in cases {
        assert_eq!(JetStreamConsumerOptions::parse(&items).unwrap_err(), expected);
    }
}

#[test]
fn first_refused_consumer_item_decides_the_error() {
    let items = vec![flag("fast"), text("colour", "red")];
    assert_eq!(JetStreamConsumerOptions::parse(&items).unwrap_err(), ConsumerOptionError::ExpectedNameValueOrFlag);
}

#[test]
fn consumer_durability() {
    let named = |items: Vec<AttrMeta>| JetStreamConsumerOptions::parse(&items).unwrap().into_parsed().durable;
    assert_eq!(named(vec![text("durable_name", "keep")]), DurableSetting::Durable("keep".to_string()));
    assert_eq!(named(vec![text("name", "n"), flag("durable"), text("durable_name", "d")]), DurableSetting::Durable("d".to_string()));
    assert_eq!(named(vec![flag("durable")]), DurableSetting::DurableDefaultName);
    assert_eq!(named(vec![text("name", "n")]), DurableSetting::Ephemeral);
}

#[test]
fn consumer_is_named_after_its_type() {
    let meta = jetstream_consumer(&[flag("durable")], "OrderCreatedConsumer").unwrap();
    assert_eq!(meta.consumer_name, "order_created_consumer");
    assert_eq!(meta.config.durable_name.as_deref(), Some("order_created_consumer"));
    let meta = jetstream_consumer(&[text("name", "test"), flag("durable")], "MyStruct").unwrap();
    assert_eq!(meta.consumer_name, "test");
    assert_eq!(meta.config.durable_name.as_deref(), Some("test"));
    let meta = jetstream_consumer(&[], "MyStruct").unwrap();
    assert_eq!(meta.consumer_name, "my_struct");
    assert_eq!(meta.config.durable_name, None);
    assert_eq!(jetstream_consumer(&[flag("pull"), flag("push")], "X").unwrap_err(), ConsumerOptionError::PushAndPull);
}

#[test]
fn stream_options() {
    let items = vec![text("name", "test"), text("description", "test stream"), integer("max_bytes", 1024), integer("max_messages", 10), flag("no_ack")];
    let o = JetStreamMetaOptions::parse(&items).unwrap();
    assert_eq!(o.stream_name, "test");
    let c = jetstream_meta(&items).unwrap();
    assert_eq!(c.name, "test");
    assert_eq!(c.description.as_deref(), Some("test stream"));
    assert_eq!(c.max_bytes, Some(1024));
    assert_eq!(c.max_messages, Some(10));
    assert_eq!(c.no_ack, Some(true));
    let c = jetstream_meta(&[text("name", "s"), boolean("no_ack", false)]).unwrap();
    assert_eq!(c.no_ack, Some(false));
    assert_eq!(c.max_bytes, None);
}

#[test]
fn stream_option_errors() {
    assert_eq!(JetStreamMetaOptions::parse(&[]).unwrap_err(), StreamOptionError::MissingOptions);
    assert_eq!(jetstream_meta(&[integer("max_bytes", 1)]).unwrap_err(), StreamOptionError::MissingName);
    assert_eq!(jetstream_meta(&[flag("durable")]).unwrap_err(), StreamOptionError::UnexpectedAttribute("durable".to_string()));
    assert_eq!(jetstream_meta(&[AttrMeta::List(None, vec![])]).unwrap_err(), StreamOptionError::ExpectedNameValueOrFlag);
    assert_eq!(jetstream_meta(&[integer("max_messages", u128::MAX)]).unwrap_err(), StreamOptionError::NumberTooLarge);
    assert_eq!(
        jetstream_meta(&[AttrMeta::NameValue(Some("name".to_string()), Some(AttrLit::Other))]).unwrap_err(),
        StreamOptionError::UnexpectedAttribute("name".to_string())
    );
}

#[test]
fn message_subject_options() {
    assert_eq!(message(&[text("subject", "user.created")], ItemKind::Struct).unwrap(), "user.created");
    assert_eq!(message(&[text("subject", "a"), text("subject", "b")], ItemKind::Enum).unwrap(), "b");
    assert_eq!(message(&[text("subject", "a")], ItemKind::Other).unwrap_err(), MessageOptionError::NotStructOrEnum);
    assert_eq!(message(&[], ItemKind::Other).unwrap_err(), MessageOptionError::NoOption);
    assert_eq!(message(&[text("topic", "a")], ItemKind::Struct).unwrap_err(), MessageOptionError::UnknownOption);
    assert_eq!(message(&[integer("subject", 1)], ItemKind::Struct).unwrap_err(), MessageOptionError::ExpectedStringLiteral);
    assert_eq!(
        StaticMessageDeriveOptions::parse(&[AttrMeta::NameValue(Some("subject".to_string()), None)]).unwrap_err(),
        MessageOptionError::ExpectedLiteral
    );
    assert_eq!(StaticMessageDeriveOptions::parse(&[flag("subject")]).unwrap_err(), MessageOptionError::UnknownOption);
}

#[test]
fn service_options() {
    let (meta, config) = rpc_service_impl(&[text("name", "user.info"), text("version", "0.1.0")]).unwrap();
    assert_eq!(meta.service_name, "user.info");
    assert_eq!(meta.service_version, "0.1.0");
    assert_eq!(config.name, "user.info");
    assert_eq!(config.description, None);
    let (meta, config) = rpc_service_impl(&[text("name", "billing"), text("description", "bills"), text("queue_group", "q")]).unwrap();
    assert_eq!(meta.service_version, "0.1.0");
    assert_eq!(config.version, "0.1.0");
    assert_eq!(meta.service_description.as_deref(), Some("bills"));
    assert_eq!(config.queue_group.as_deref(), Some("q"));
    assert_eq!(RpcOptions::parse(&[]).unwrap_err(), RpcOptionError::NoAttribute);
    assert_eq!(rpc_service_impl(&[text("version", "2")]).unwrap_err(), RpcOptionError::MissingName);
    assert_eq!(rpc_service_impl(&[flag("name")]).unwrap_err(), RpcOptionError::ExpectedNameValueOrFlag);
    assert_eq!(rpc_service_impl(&[boolean("name", true)]).unwrap_err(), RpcOptionError::ExpectedNameValueOrFlag);
}

#[test]
fn route_table() {
    let items = vec![text("service", "UserInfoService"), text("nats_connection", "NATS_CONNECTION.get().unwrap()")];
    let args = RpcEndpointRouteArgs::parse(&items).unwrap();
    assert_eq!(args.service, "UserInfoService");
    let variants = || {
        vec![
            ("UserAvatar".to_string(), vec![endpoint(vec![text("request", "UserAvatarReq")])]),
            ("UserMeta".to_string(), vec![flag("doc"), endpoint(vec![text("request", "UserMetaReq")])]),
        ]
    };
    let table = rpc_route_impl(&items, ItemKind::Enum, "UserInfoRoute".to_string(), variants()).unwrap();
    assert_eq!(table.nats_connection_static, "NATS_CONNECTION.get().unwrap()");
    assert_eq!(table.streaming_endpoints(), vec!["UserAvatarReq".to_string(), "UserMetaReq".to_string()]);
    let arms = table.route_match_arms();
    assert_eq!(arms[1], ("UserMeta".to_string(), "UserMetaReq".to_string()));
    let mappings = table.generate_subject_mappings(&["user.avatar".to_string(), "user.meta".to_string()]);
    assert_eq!(route_of(&mappings, &"user.meta".to_string()), Some("UserMeta".to_string()));
    assert_eq!(route_of(&mappings, &"user.avatar".to_string()), Some("UserAvatar".to_string()));
    assert_eq!(route_of(&mappings, &"user.name".to_string()), None);
    assert_eq!(
        rpc_route_impl(&items, ItemKind::Struct, "X".to_string(), variants()).unwrap_err(),
        RouteArgsError::NotEnum
    );
    let unnamed = vec![
        ("A".to_string(), vec![endpoint(vec![text("request", "AReq")])]),
        ("B".to_string(), vec![flag("doc")]),
        ("C".to_string(), vec![]),
    ];
    assert_eq!(
        rpc_route_impl(&items, ItemKind::Enum, "X".to_string(), unnamed).unwrap_err(),
        RouteArgsError::MissingEndpoint("B".to_string())
    );
    let malformed = vec![("A".to_string(), vec![endpoint(vec![text("request", "AReq"), text("request", "BReq")])])];
    assert_eq!(
        rpc_route_impl(&items, ItemKind::Enum, "X".to_string(), malformed).unwrap_err(),
        RouteArgsError::InvalidEndpoint("A".to_string())
    );
    assert_eq!(RpcEndpointArgs::parse(&[text("request", "Q")]).unwrap().request, "Q");
    assert!(RpcEndpointArgs::parse(&[integer("request", 1)]).is_none());
    assert!(RpcEndpointArgs::parse(&[]).is_none()
    );
}

#[test]
fn route_table_errors_and_answers() {
    assert_eq!(RpcEndpointRouteArgs::parse(&[]).unwrap_err(), RouteArgsError::NoAttribute);
    assert_eq!(RpcEndpointRouteArgs::parse(&[text("nats_connection", "c")]).unwrap_err(), RouteArgsError::MissingService);
    assert_eq!(RpcEndpointRouteArgs::parse(&[text("service", "S")]).unwrap_err(), RouteArgsError::MissingNatsConnection);
    assert_eq!(RpcEndpointRouteArgs::parse(&[flag("service")]).unwrap_err(), RouteArgsError::ExpectedNameValue);
    let dup = vec![("a".to_string(), "First".to_string()), ("a".to_string(), "Second".to_string())];
    assert_eq!(route_of(&dup, &"a".to_string()), Some("Second".to_string()));
    assert_eq!(route_answer(Some("inbox".to_string()), Ok(vec![1, 2])), RouteAnswer::Publish("inbox".to_string(), vec![1, 2]));
    assert_eq!(route_answer(None, Ok(vec![1])), RouteAnswer::NoReply);
    assert_eq!(route_answer(Some("inbox".to_string()), Err("boom".to_string())), RouteAnswer::Failed("boom".to_string()));
}

#[test]
fn option_lists_read_from_text() {
    let meta = jetstream_consumer_text("name = \"orders\", durable, pull, max_batch = 1_000", "Orders").unwrap();
    assert_eq!(meta.consumer_name, "orders");
    assert_eq!(meta.config.durable_name.as_deref(), Some("orders"));
    assert_eq!(meta.config.consumer_type, ConsumerType::Pull { max_batch: Some(1000) });
    let meta = jetstream_consumer_text("", "MyStruct").unwrap();
    assert_eq!(meta.consumer_name, "my_struct");
    assert_eq!(
        jetstream_consumer_text("push, pull", "X").unwrap_err(),
        AttrTextError::Refused(ConsumerOptionError::PushAndPull)
    );
    assert_eq!(jetstream_consumer_text("name = ", "X").unwrap_err(), AttrTextError::Unreadable);
    assert_eq!(
        jetstream_consumer_text("headers_only = true, deliver_policy = \"NEW\"", "X").unwrap().config.deliver_policy,
        DeliverPolicy::New
    );

    let stream = jetstream_meta_text("name = \"test\", description = \"test stream\"").unwrap();
    assert_eq!(stream.name, "test");
    assert_eq!(stream.description.as_deref(), Some("test stream"));
    assert_eq!(jetstream_meta_text("").unwrap_err(), AttrTextError::Refused(StreamOptionError::MissingOptions));

    let (meta, _) = rpc_service_text("name = \"user.info\", version = \"0.1.0\"").unwrap();
    assert_eq!(meta.service_name, "user.info");
    assert_eq!(message_text("subject = \"user.created\"", ItemKind::Struct).unwrap(), "user.created");

    let items = attr_items("rpc_endpoint(request = \"UserAvatarReq\")").unwrap();
    assert_eq!(items, vec![AttrMeta::List(Some("rpc_endpoint".to_string()), vec![text("request", "UserAvatarReq")])]);
    let table = rpc_route_text(
        "service = \"UserInfoService\", nats_connection = \"NATS_CONNECTION.get().unwrap()\"",
        ItemKind::Enum,
        "UserInfoRoute".to_string(),
        vec![("UserAvatar".to_string(), items)],
    )
    .unwrap();
    assert_eq!(table.routes[0].1.request, "UserAvatarReq");
    assert_eq!(attr_items("a::b, c(d = 1), e = x + 1").unwrap(), vec![
        AttrMeta::Path(None),
        AttrMeta::List(Some("c".to_string()), vec![integer("d", 1)]),
        AttrMeta::NameValue(Some("e".to_string()), None),
    ]);
}

#[test]
fn text_literal_errors_stay_with_their_item() {
    assert_eq!(
        jetstream_consumer_text("max_batch = 999999999999999999999999999999999999999999", "X").unwrap_err(),
        AttrTextError::Refused(ConsumerOptionError::NumberTooLarge)
    );
    assert_eq!(
        jetstream_consumer_text("name = 999999999999999999999999999999999999999999", "X").unwrap_err(),
        AttrTextError::Refused(ConsumerOptionError::UnexpectedAttribute("name".to_string()))
    );
    assert_eq!(
        attr_items("a(b(c), d = 2)").unwrap(),
        vec![AttrMeta::List(
            Some("a".to_string()),
            vec![AttrMeta::List(Some("b".to_string()), vec![]), integer("d", 2)]
        )]
    );
    assert_eq!(attr_items("a(1 + 2)").unwrap(), vec![AttrMeta::List(Some("a".to_string()), vec![])]);
}
