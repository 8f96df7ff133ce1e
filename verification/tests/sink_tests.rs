use serial_bridge::sink::FrameReceiveSink;

#[test]
fn sink_keeps_its_name() {
    let sink = FrameReceiveSink::new(String::from("app"));
    assert_eq!(sink.name(), "app");
}

#[test]
fn receive_renders_the_payload() {
    let sink = FrameReceiveSink::new(String::from("app"));
    let record = sink.receive(0, &[1, 2, 3], 3, 0);
    assert_eq!(record, "receive data: [ 0x01 0x02 0x03 ]");
}

#[test]
fn receive_renders_only_the_given_length() {
    let sink = FrameReceiveSink::new(String::from("app"));
    let buffer = [0xde, 0xad, 0xbe, 0xef];
    assert_eq!(sink.receive(5, &buffer, 2, 1), "receive data: [ 0xde 0xad ]");
}

#[test]
fn receive_of_an_empty_payload() {
    let sink = FrameReceiveSink::new(String::from("app"));
    assert_eq!(sink.receive(0, &[], 0, 0), "receive data: [ ]");
    assert_eq!(sink.receive(0, &[1, 2], 0, 0), "receive data: [ ]");
}

#[test]
fn record_does_not_depend_on_frame_id_or_channel() {
    let sink = FrameReceiveSink::new(String::from("app"));
    let a = sink.receive(1, &[0x42], 1, 0);
    let b = sink.receive(63, &[0x42], 1, 7);
    assert_eq!(a, b);
    assert_eq!(a, "receive data: [ 0x42 ]");
}

#[test]
fn receive_leaves_the_payload_as_it_was() {
    let sink = FrameReceiveSink::new(String::from("app"));
    let payload = vec![9u8, 8, 7];
    let _ = sink.receive(0, &payload, 3, 0);
    assert_eq!(payload, vec![9u8, 8, 7]);
}

#[test]
fn render_payload_of_a_full_length_buffer() {
    let sink = FrameReceiveSink::new(String::from("app"));
    let buffer: Vec<u8> = (0..255u8).collect();
    let mut expected = String::from("receive data: [ ");
    for byte in 0..255u8 {
        expected.push_str(&format!("0x{:02x} ", byte));
    }
    expected.push(']');
    assert_eq!(sink.render_payload(&buffer, 255), expected);
}
