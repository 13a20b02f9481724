use clock_firmware::i2c_async::futures::I2COperationFuture;
use clock_firmware::i2c_async::states::State;
use clock_firmware::i2c_async::{
    BusAction, Error, I2c, NoAcknowledgeSource, NonBlockingI2C, StatusFlags,
};
use core::task::Poll;

fn no_flags() -> StatusFlags {
    StatusFlags {
        start_bit: false,
        address_sent: false,
        byte_transfer_finished: false,
        timeout: false,
        pec_error: false,
        overrun: false,
        acknowledge_failure: false,
        arbitration_lost: false,
        bus_error: false,
    }
}

fn start_bit() -> StatusFlags {
    StatusFlags { start_bit: true, ..no_flags() }
}

fn address_sent() -> StatusFlags {
    StatusFlags { address_sent: true, ..no_flags() }
}

fn byte_done() -> StatusFlags {
    StatusFlags { byte_transfer_finished: true, ..no_flags() }
}

fn nack() -> StatusFlags {
    StatusFlags { acknowledge_failure: true, ..no_flags() }
}

fn poll(i2c: &I2c, future: &I2COperationFuture) -> Poll<Result<(), Error>> {
    future.ready(i2c.transaction())
}

#[test]
fn write_then_read_fills_the_buffer_in_order() {
    let mut i2c = I2c::new();
    let (queued, actions) = i2c.write_read_async(0x68, &[0x00], vec![0; 7]);
    let future = queued.unwrap();
    assert_eq!(future.position(), 0);
    assert_eq!(actions, vec![BusAction::EnableInterrupts, BusAction::GenerateStart]);
    assert_eq!(poll(&i2c, &future), Poll::Pending);

    assert_eq!(
        i2c.handle_event_interrupt(start_bit(), 0),
        vec![BusAction::SendAddress { address: 0x68, read: false }]
    );
    assert_eq!(i2c.transaction().state(), State::StartGenerated);
    assert_eq!(
        i2c.handle_event_interrupt(address_sent(), 0),
        vec![BusAction::ClearAddressFlag, BusAction::SendByte(0x00)]
    );
    assert_eq!(i2c.transaction().state(), State::AddressSend);
    // The write has nothing left: the read follows after a repeated start.
    assert_eq!(i2c.handle_event_interrupt(byte_done(), 0), vec![BusAction::GenerateStart]);
    assert_eq!(i2c.transaction().state(), State::Begin);
    assert_eq!(poll(&i2c, &future), Poll::Pending);

    assert_eq!(
        i2c.handle_event_interrupt(start_bit(), 0),
        vec![BusAction::SendAddress { address: 0x68, read: true }]
    );
    assert_eq!(i2c.handle_event_interrupt(address_sent(), 0), vec![BusAction::ClearAddressFlag]);
    assert_eq!(i2c.transaction().state(), State::AddressSend);

    let registers: [u8; 7] = [0x56, 0x34, 0x12, 0x03, 0x28, 0x10, 0x26];
    for (i, byte) in registers.iter().enumerate() {
        let actions = i2c.handle_event_interrupt(byte_done(), *byte);
        if i < 5 {
            assert_eq!(actions, vec![]);
            assert_eq!(i2c.transaction().state(), State::ByteProcessing);
            assert_eq!(poll(&i2c, &future), Poll::Pending);
        } else if i == 5 {
            assert_eq!(actions, vec![BusAction::DisableAckAndStop]);
            assert_eq!(i2c.transaction().state(), State::LastByte);
            assert_eq!(poll(&i2c, &future), Poll::Pending);
        } else {
            assert_eq!(actions, vec![BusAction::AwaitStop, BusAction::MaskInterrupts]);
        }
    }

    assert_eq!(poll(&i2c, &future), Poll::Ready(Ok(())));
    assert_eq!(future.block(i2c.transaction()), Ok(()));
    assert!(!i2c.working());
    assert_eq!(i2c.take_buffer(&future), registers.to_vec());
}

#[test]
fn nack_on_second_data_byte_fails_the_write_and_the_next_starts() {
    let mut i2c = I2c::new();
    let (first, actions) = i2c.write_async(0x3C, &[0x00, 0xAE]);
    let first = first.unwrap();
    assert_eq!(actions, vec![BusAction::EnableInterrupts, BusAction::GenerateStart]);
    let (second, actions) = i2c.write_async(0x3C, &[0x00, 0xAF]);
    let second = second.unwrap();
    assert_eq!(actions, vec![]);
    assert_eq!(first.position(), 0);
    assert_eq!(second.position(), 1);

    assert_eq!(
        i2c.handle_event_interrupt(start_bit(), 0),
        vec![BusAction::SendAddress { address: 0x3C, read: false }]
    );
    assert_eq!(
        i2c.handle_event_interrupt(address_sent(), 0),
        vec![BusAction::ClearAddressFlag, BusAction::SendByte(0x00)]
    );
    assert_eq!(i2c.handle_event_interrupt(byte_done(), 0), vec![BusAction::SendByte(0xAE)]);

    // The device refuses the second byte.
    assert_eq!(
        i2c.handle_error_interrupt(nack()),
        vec![
            BusAction::ClearErrorFlag(clock_firmware::i2c_async::ErrorFlag::AcknowledgeFailure),
            BusAction::GenerateStart,
        ]
    );
    assert_eq!(
        poll(&i2c, &first),
        Poll::Ready(Err(Error::NoAcknowledge(NoAcknowledgeSource::Data)))
    );
    assert_eq!(
        first.block(i2c.transaction()),
        Err(Error::NoAcknowledge(NoAcknowledgeSource::Data))
    );
    assert_eq!(poll(&i2c, &second), Poll::Pending);
    assert!(i2c.working());

    // The transaction behind it runs as if nothing had happened.
    assert_eq!(
        i2c.handle_event_interrupt(start_bit(), 0),
        vec![BusAction::SendAddress { address: 0x3C, read: false }]
    );
    assert_eq!(
        i2c.handle_event_interrupt(address_sent(), 0),
        vec![BusAction::ClearAddressFlag, BusAction::SendByte(0x00)]
    );
    assert_eq!(i2c.handle_event_interrupt(byte_done(), 0), vec![BusAction::SendByte(0xAF)]);
    assert_eq!(
        i2c.handle_event_interrupt(byte_done(), 0),
        vec![BusAction::GenerateStop, BusAction::MaskInterrupts]
    );
    assert_eq!(poll(&i2c, &second), Poll::Ready(Ok(())));
    assert_eq!(
        poll(&i2c, &first),
        Poll::Ready(Err(Error::NoAcknowledge(NoAcknowledgeSource::Data)))
    );
    assert!(!i2c.working());
}

#[test]
fn full_queue_answers_busy_and_stays_as_it_is() {
    let mut i2c = I2c::new();
    let (first, _) = i2c.write_async(0x3C, &[1]);
    let (second, _) = i2c.write_async(0x3C, &[2]);
    assert!(first.is_ok());
    assert!(second.is_ok());

    let (third, actions) = i2c.write_async(0x3C, &[3]);
    assert_eq!(third.unwrap_err(), Error::Busy);
    assert_eq!(actions, vec![]);

    // Both transactions are still there, in order, and run to their end.
    let first = first.unwrap();
    let second = second.unwrap();
    assert_eq!(poll(&i2c, &first), Poll::Pending);
    assert_eq!(poll(&i2c, &second), Poll::Pending);
    assert_eq!(i2c.transaction().address(), 0x3C);
    i2c.handle_event_interrupt(start_bit(), 0);
    assert_eq!(
        i2c.handle_event_interrupt(address_sent(), 0),
        vec![BusAction::ClearAddressFlag, BusAction::SendByte(1)]
    );
    assert_eq!(
        i2c.handle_event_interrupt(byte_done(), 0),
        vec![BusAction::GenerateStop, BusAction::GenerateStart]
    );
    assert_eq!(poll(&i2c, &first), Poll::Ready(Ok(())));
    i2c.handle_event_interrupt(start_bit(), 0);
    assert_eq!(
        i2c.handle_event_interrupt(address_sent(), 0),
        vec![BusAction::ClearAddressFlag, BusAction::SendByte(2)]
    );
    assert_eq!(
        i2c.handle_event_interrupt(byte_done(), 0),
        vec![BusAction::GenerateStop, BusAction::MaskInterrupts]
    );
    assert_eq!(poll(&i2c, &second), Poll::Ready(Ok(())));
    assert!(!i2c.working());
}
