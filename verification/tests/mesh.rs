use aicc_core::mesh::Service;

#[test]
fn port_returns_the_correct_ports() {
    assert_eq!(41330, Service::DriveCore.port());
    assert_eq!(41331, Service::Logger.port());
}

#[test]
fn name_returns_the_correct_names() {
    assert_eq!("drive-core", Service::DriveCore.name());
    assert_eq!("logger", Service::Logger.name());
}
