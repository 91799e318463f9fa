use estream_runtime::industrial::config::DeviceConfig;
use estream_runtime::industrial::error::IndustrialError;
use estream_runtime::industrial::protocol::{
    transport_outcome, ModbusEvent, ModbusReadRequest, ModbusTcpClient,
};
use estream_runtime::industrial::transport::Transport;
use estream_runtime::industrial::types::{ConnectionState, RegisterType};

/// A device that answers every read with the same words.
struct FixedDevice {
    words: Vec<u16>,
    seen: Vec<Vec<u8>>,
    fail: bool,
    silent: bool,
}

impl Transport for FixedDevice {
    fn send(&mut self, data: &[u8], _expect_response: bool) -> Result<Option<Vec<u8>>, IndustrialError> {
        self.seen.push(data.to_vec());
        if self.fail {
            return Err(IndustrialError::ConnectionReset { address: "dev".into() });
        }
        if self.silent {
            return Ok(None);
        }
        let mut frame = vec![data[0], data[1], 0, 0, 0, (3 + 2 * self.words.len()) as u8, data[6], data[7]];
        frame.push((2 * self.words.len()) as u8);
        for w in self.words.iter() {
            frame.push((w >> 8) as u8);
            frame.push((w & 0xFF) as u8);
        }
        Ok(Some(frame))
    }

    fn state(&self) -> ConnectionState {
        ConnectionState::Connected
    }

    fn is_connected(&self) -> bool {
        true
    }

    fn connect(&mut self) -> Result<(), IndustrialError> {
        Ok(())
    }

    fn disconnect(&mut self) -> Result<(), IndustrialError> {
        Ok(())
    }
}

fn request() -> ModbusReadRequest {
    ModbusReadRequest { request_id: 11, register_type: RegisterType::Input, address: 0x0010, quantity: 2 }
}

#[test]
fn read_over_a_transport_returns_the_words() {
    let mut client = ModbusTcpClient::new(DeviceConfig { device_id: "p".into(), unit_id: 4, ..Default::default() });
    let mut device = FixedDevice { words: vec![7, 0xBEEF], seen: vec![], fail: false, silent: false };
    let exchange = client.read_through(&mut device, request());
    assert_eq!(device.seen, vec![vec![0, 1, 0, 0, 0, 6, 4, 0x04, 0x00, 0x10, 0x00, 0x02]]);
    assert!(matches!(exchange.request_event, Some(ModbusEvent::Request { transaction_id: 1, .. })));
    assert!(matches!(exchange.completion.event, Some(ModbusEvent::Response { transaction_id: 1, success: true, .. })));
    let response = exchange.completion.result.unwrap();
    assert_eq!(response.request_id, 11);
    assert_eq!(response.values, vec![7, 0xBEEF]);
    assert_eq!(client.in_flight_count(), 0);
    let again = client.read_through(&mut device, request());
    assert_eq!(again.completion.result.unwrap().transaction_id, 2);
}

#[test]
fn read_over_a_failing_transport_hands_the_error_on() {
    let mut client = ModbusTcpClient::new(DeviceConfig::default());
    let mut device = FixedDevice { words: vec![], seen: vec![], fail: true, silent: false };
    let exchange = client.read_through(&mut device, request());
    assert!(exchange.request_event.is_some());
    assert!(exchange.completion.event.is_none());
    assert!(matches!(exchange.completion.result, Err(IndustrialError::ConnectionReset { .. })));
    assert_eq!(client.in_flight_count(), 0);
    let mut quiet = FixedDevice { words: vec![], seen: vec![], fail: false, silent: true };
    let exchange = client.read_through(&mut quiet, request());
    match exchange.completion.result {
        Err(IndustrialError::InvalidResponse { reason }) => assert_eq!(reason, "No response"),
        _ => panic!("a silent transport gave a response"),
    }
    assert!(device.is_connected());
    assert_eq!(device.state(), ConnectionState::Connected);
    assert!(device.connect().is_ok());
    assert!(device.disconnect().is_ok());
}

#[test]
fn transport_answers_become_outcomes() {
    assert_eq!(transport_outcome(Ok(Some(vec![1, 2]))).unwrap(), vec![1, 2]);
    assert!(matches!(transport_outcome(Ok(None)), Err(IndustrialError::InvalidResponse { .. })));
    assert!(matches!(
        transport_outcome(Err(IndustrialError::ResponseTimeout { transaction_id: 3 })),
        Err(IndustrialError::ResponseTimeout { transaction_id: 3 })
    ));
}
