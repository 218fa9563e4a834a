use race_timer::mock::{
    mock_reading, MockSerialPort, MOCK_DELAY_END, MOCK_DELAY_MIN, MOCK_PEAK_END, MOCK_PEAK_MIN,
};

#[test]
fn mock_port_reads_nothing() {
    let mut port = MockSerialPort;
    let mut buf = [7u8; 16];
    assert_eq!(port.read(&mut buf).unwrap(), 0);
    assert_eq!(buf, [7u8; 16]);
}

#[test]
fn mock_port_takes_every_byte() {
    let mut port = MockSerialPort;
    assert_eq!(port.write(&[0x0D]).unwrap(), 1);
    assert_eq!(port.write(&[]).unwrap(), 0);
    assert_eq!(port.write(&[1, 2, 3]).unwrap(), 3);
    assert!(port.flush().is_ok());
}

#[test]
fn mock_readings_stay_in_range() {
    assert_eq!((MOCK_PEAK_MIN, MOCK_PEAK_END), (50, 100));
    assert_eq!((MOCK_DELAY_MIN, MOCK_DELAY_END), (1, 5));
    for _ in 0..500 {
        let r = mock_reading();
        assert!(r.peak >= 50 && r.peak < 100);
        assert!(r.delay_secs >= 1 && r.delay_secs < 5);
    }
}

#[test]
fn mock_readings_vary() {
    let first = mock_reading();
    let mut peak_differs = false;
    let mut delay_differs = false;
    for _ in 0..500 {
        let r = mock_reading();
        peak_differs = peak_differs || r.peak != first.peak;
        delay_differs = delay_differs || r.delay_secs != first.delay_secs;
    }
    assert!(peak_differs);
    assert!(delay_differs);
}
