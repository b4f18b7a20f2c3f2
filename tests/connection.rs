use harbinger::connection::{get_flag_for_state, ConnectionState};

#[test]
fn connection_flag_for_each_state() {
    assert_eq!(get_flag_for_state(&ConnectionState::Listen), "LISTEN");
    assert_eq!(get_flag_for_state(&ConnectionState::SynReceived), "SYN");
    assert_eq!(get_flag_for_state(&ConnectionState::SynAckSent), "SYN-ACK");
    assert_eq!(get_flag_for_state(&ConnectionState::Established), "ACK");
    assert_eq!(get_flag_for_state(&ConnectionState::Closed), "CLOSED");
}
