use example_service::server::settings::{ServerSettings, ServiceSettings};
use example_service::server::ExampleServiceServer;
use example_service::service_core::settings::CoreSettings;
use example_service::service_core::{Builder, ExampleServiceCore};

#[test]
fn core_builder_keeps_persistence() {
    let core = ExampleServiceCore::builder("db".to_string()).build();
    assert_eq!(core.persistence(), "db");
    let core = Builder::new(7u32).with_settings(&CoreSettings::default()).build();
    assert_eq!(*core.persistence(), 7);
}

#[test]
fn server_builder_defaults() {
    let core = ExampleServiceCore::builder(1u8).build();
    let builder = ExampleServiceServer::builder(core);
    assert_eq!(builder.listen_address(), ("0.0.0.0".to_string(), 50051));
}

#[test]
fn server_builder_random_port_keeps_host() {
    let core = ExampleServiceCore::builder(1u8).build();
    let settings = ServerSettings::new("localhost".to_string(), 9000);
    let builder = ExampleServiceServer::builder(core).with_settings(&settings);
    assert_eq!(builder.listen_address(), ("localhost".to_string(), 9000));
    let builder = builder.with_random_port();
    assert_eq!(builder.listen_address(), ("localhost".to_string(), 0));
    let server = builder.build(43210);
    assert_eq!(server.service_port(), 43210);
    assert_eq!(server.clone().service_port(), 43210);
}

#[test]
fn server_settings_accessors() {
    let mut settings = ServerSettings::new("h".to_string(), 1);
    assert_eq!(settings.host(), "h");
    assert_eq!(settings.service().port(), 1);
    settings.service_mut().set_port(2);
    assert_eq!(settings.service().port(), 2);
    let copy = settings.clone();
    assert_eq!(copy.host(), "h");
    let mut service: ServiceSettings = *copy.service();
    service.set_port(3);
    assert_eq!(service.port(), 3);
    assert_eq!(ServerSettings::default().service().port(), 50051);
}
