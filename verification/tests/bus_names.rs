use openvpn3_gui_rs::config::{BUS_NAME, OBJECT_PATH};

#[test]
fn bus_name_and_path_match_helper() {
    assert_eq!(BUS_NAME, "net.openvpn.v3.killswitch");
    assert_eq!(OBJECT_PATH, "/net/openvpn/v3/killswitch");
}
