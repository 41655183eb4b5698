use cloudstate::protocol::messages::{Entity, EntitySpec, ProxyInfo, ServiceInfo, UserFunctionError};
use cloudstate::protocol::server::{BuildInfo, Discover, DiscoveryError, DiscoveryMethod};
use cloudstate::protocol::router::Rejection;
use cloudstate::protocol::status::{Code, Status};
use cloudstate::protocol::{EntityKind, Options};

fn shopping_cart() -> Options {
    Options {
        entity_type: EntityKind::EventSourced,
        service_name: "ShoppingCart".to_string(),
        persistence_id: "shopping-cart".to_string(),
        service_version: "0.5.0".to_string(),
        server_port: 8080,
    }
}

fn build() -> BuildInfo {
    BuildInfo { runtime_version: Some("1.52.0".to_string()), library_version: Some("0.3.1".to_string()) }
}

fn proxy(name: &str, major: i32, kinds: &[&str]) -> ProxyInfo {
    ProxyInfo {
        protocol_major_version: major,
        protocol_minor_version: 1,
        proxy_name: name.to_string(),
        proxy_version: "9.9".to_string(),
        supported_entity_types: kinds.iter().map(|k| k.to_string()).collect(),
    }
}

#[test]
fn it_works() {
    assert_eq!(2 + 2, 4);
}

#[test]
fn shopping_cart_handshake() {
    let service = Discover { opts: shopping_cart() };
    let reply = service
        .discover(&proxy("cloudstate-proxy-core", 0, &["cloudstate.eventsourced.EventSourced"]), &build(), Some(vec![10, 0]))
        .unwrap();
    assert_eq!(
        reply.entities,
        vec![Entity {
            entity_type: "cloudstate.eventsourced.EventSourced".to_string(),
            service_name: "ShoppingCart".to_string(),
            persistence_id: "shopping-cart".to_string(),
        }]
    );
    assert_eq!(reply.service_info.unwrap().service_name, "ShoppingCart");
}

#[test]
fn reply_is_exact() {
    let service = Discover { opts: shopping_cart() };
    let reply = service.discover(&proxy("p", 3, &[]), &build(), Some(vec![1, 2, 3, 255])).unwrap();
    assert_eq!(
        reply,
        EntitySpec {
            proto: vec![1, 2, 3, 255],
            entities: vec![Entity {
                entity_type: "cloudstate.eventsourced.EventSourced".to_string(),
                service_name: "ShoppingCart".to_string(),
                persistence_id: "shopping-cart".to_string(),
            }],
            service_info: Some(ServiceInfo {
                service_name: "ShoppingCart".to_string(),
                service_version: "0.5.0".to_string(),
                service_runtime: "rustc 1.52.0".to_string(),
                support_library_name: "cloudstate-rust-support".to_string(),
                support_library_version: "0.3.1".to_string(),
            }),
        }
    );
}

#[test]
fn one_entity_whatever_the_proxy_says() {
    for kind in [EntityKind::EventSourced, EntityKind::Crdt, EntityKind::StatelessFunction] {
        let mut opts = shopping_cart();
        opts.entity_type = kind;
        opts.persistence_id = "carts".to_string();
        let service = Discover { opts };
        for peer in [proxy("", -7, &[]), proxy("other", i32::MAX, &["a", "b", "cloudstate.crdt.Crdt"])] {
            let reply = service.discover(&peer, &build(), Some(vec![])).unwrap();
            assert_eq!(reply.entities.len(), 1);
            assert_eq!(reply.entities[0].entity_type, kind.name());
            assert_eq!(reply.entities[0].service_name, "ShoppingCart");
            assert_eq!(reply.entities[0].persistence_id, "carts");
        }
    }
}

#[test]
fn kinds_have_their_wire_names() {
    assert_eq!(EntityKind::EventSourced.name(), "cloudstate.eventsourced.EventSourced");
    assert_eq!(EntityKind::Crdt.name(), "cloudstate.crdt.Crdt");
    assert_eq!(EntityKind::StatelessFunction.name(), "cloudstate.function.StatelessFunction");
}

#[test]
fn service_version_is_verbatim() {
    let mut opts = shopping_cart();
    opts.service_version = " v1.0-β \u{1F980}\n".to_string();
    let service = Discover { opts };
    let reply = service.discover(&proxy("p", 0, &[]), &build(), Some(vec![])).unwrap();
    assert_eq!(reply.service_info.unwrap().service_version, " v1.0-β \u{1F980}\n");
}

#[test]
fn library_version_falls_back() {
    let service = Discover { opts: shopping_cart() };
    let unknown = BuildInfo { runtime_version: Some("1.95.0".to_string()), library_version: None };
    let info = service.discover(&proxy("p", 0, &[]), &unknown, Some(vec![])).unwrap().service_info.unwrap();
    assert_eq!(info.support_library_version, "0.5.0");
    assert_eq!(info.support_library_name, "cloudstate-rust-support");
    assert_eq!(info.service_runtime, "rustc 1.95.0");
}

#[test]
fn two_handshakes_give_one_reply() {
    let first = Discover { opts: shopping_cart() };
    let second = Discover { opts: shopping_cart() };
    let schema = vec![8, 1, 18, 4, 116, 101, 115, 116];
    let a = first.discover(&proxy("a", 0, &[]), &build(), Some(schema.clone()));
    let b = first.discover(&proxy("b", 5, &["x"]), &build(), Some(schema.clone()));
    let c = second.discover(&proxy("c", 1, &[]), &build(), Some(schema));
    assert_eq!(a, b);
    assert_eq!(a, c);
    assert!(a.is_ok());
}

#[test]
fn schema_is_embedded_as_it_is() {
    let service = Discover { opts: shopping_cart() };
    let schema: Vec<u8> = (0..=255).collect();
    let reply = service.discover(&proxy("p", 0, &[]), &build(), Some(schema.clone())).unwrap();
    assert_eq!(reply.proto, schema);
    let empty = service.discover(&proxy("p", 0, &[]), &build(), Some(Vec::new())).unwrap();
    assert_eq!(empty.proto, Vec::<u8>::new());
}

#[test]
fn missing_schema_is_a_failure() {
    let service = Discover { opts: shopping_cart() };
    let res = service.discover(&proxy("p", 0, &[]), &build(), None);
    assert_eq!(res, Err(DiscoveryError::ConfigurationUnavailable));
    // The service answers the next call as if nothing had happened.
    assert!(service.discover(&proxy("p", 0, &[]), &build(), Some(vec![1])).is_ok());
    assert_eq!(service.report_error(&UserFunctionError { message: "x".to_string() }).logged.len(), 44);
}

#[test]
fn unknown_compiler_is_a_failure() {
    let service = Discover { opts: shopping_cart() };
    let blind = BuildInfo { runtime_version: None, library_version: Some("0.3.1".to_string()) };
    assert_eq!(service.discover(&proxy("p", 0, &[]), &blind, Some(vec![1])), Err(DiscoveryError::ConfigurationUnavailable));
    assert_eq!(service.discover(&proxy("p", 0, &[]), &blind, None), Err(DiscoveryError::ConfigurationUnavailable));
    assert!(service.discover(&proxy("p", 0, &[]), &build(), Some(vec![1])).is_ok());
}

#[test]
fn failures_have_a_code_and_a_message() {
    assert_eq!(
        DiscoveryError::ConfigurationUnavailable.status(),
        Status { code: Code::Unavailable, message: "the schema descriptor is missing or cannot be read".to_string() }
    );
    assert_eq!(
        Rejection::InvalidRequest.status(),
        Status { code: Code::InvalidArgument, message: "the path of the call is not /<service>/<method>".to_string() }
    );
    assert_eq!(
        Rejection::UnimplementedService.status(),
        Status { code: Code::Unimplemented, message: "no service of that name is implemented".to_string() }
    );
    assert_eq!(
        Rejection::UnimplementedMethod.status(),
        Status { code: Code::Unimplemented, message: "the service has no method of that name".to_string() }
    );
}

#[test]
fn fault_reports_are_acknowledged() {
    let service = Discover { opts: shopping_cart() };
    let ack = service.report_error(&UserFunctionError { message: "boom".to_string() });
    assert_eq!(ack.logged, "Received report_error from sidecar. Error: boom");
    let empty = service.report_error(&UserFunctionError { message: String::new() });
    assert_eq!(empty.logged, "Received report_error from sidecar. Error: ");
    // The report leaves the handshake as it was.
    assert_eq!(service.opts.service_name, "ShoppingCart");
    assert!(service.discover(&proxy("p", 0, &[]), &build(), Some(vec![])).is_ok());
}

#[test]
fn a_copy_of_the_service_answers_alike() {
    let service = Discover { opts: shopping_cart() };
    let copy = service.clone();
    assert_eq!(copy.opts.service_name, "ShoppingCart");
    assert_eq!(copy.opts.persistence_id, "shopping-cart");
    assert_eq!(copy.opts.server_port, 8080);
    assert_eq!(
        copy.discover(&proxy("p", 0, &[]), &build(), Some(vec![5])),
        service.discover(&proxy("q", 1, &[]), &build(), Some(vec![5]))
    );
}

#[test]
fn discovery_methods_by_name() {
    assert_eq!(Discover::method("Discover"), Ok(DiscoveryMethod::Discover));
    assert_eq!(Discover::method("ReportError"), Ok(DiscoveryMethod::ReportError));
    assert_eq!(Discover::method("discover"), Err(Rejection::UnimplementedMethod));
    assert_eq!(Discover::method(""), Err(Rejection::UnimplementedMethod));
    assert_eq!(Discover::method("Discover/"), Err(Rejection::UnimplementedMethod));
    assert_eq!(Discover::method("ReportErrors"), Err(Rejection::UnimplementedMethod));
}
