use iced_reg::Channel;
use iced_reg::Coordinator;
use iced_reg::Event;
use iced_reg::Fault;
use iced_reg::Message;
use iced_reg::ReceiverState;
use iced_reg::Register;
use iced_reg::RegisterMap;
use iced_reg::SenderState;
use iced_reg::TransactionWorker;
use iced_reg::WorkerInput;

fn one_register_map(address: u16) -> RegisterMap {
    let mut m = RegisterMap::new();
    m.insert(Register::new(0, 0, format!("REG_{}", address), address, Vec::new()));
    m
}

#[test]
fn channel_is_fifo_and_bounded() {
    let mut chan = Channel::new(2);
    assert_eq!(chan.capacity(), 2);
    assert_eq!(chan.send(WorkerInput::ReadReg(1)), Ok(()));
    assert_eq!(chan.send(WorkerInput::WriteReg(2, 9)), Ok(()));
    assert_eq!(chan.send(WorkerInput::ReadReg(3)), Err(Fault::ChannelUnavailable));
    assert_eq!(chan.len(), 2);
    assert_eq!(chan.recv(), Some(WorkerInput::ReadReg(1)));
    assert_eq!(chan.recv(), Some(WorkerInput::WriteReg(2, 9)));
    assert_eq!(chan.recv(), None);
}

#[test]
fn worker_signals_ready_exactly_once() {
    let mut w = TransactionWorker::new(0x5AA5);
    assert_eq!(w.state, ReceiverState::Disconnected);
    assert_eq!(w.activate(), Some(Event::Ready));
    assert_eq!(w.state, ReceiverState::Ready);
    assert_eq!(w.activate(), None);
    assert_eq!(w.state, ReceiverState::Ready);
}

#[test]
fn worker_serves_reads_with_the_simulated_value() {
    let mut w = TransactionWorker::new(0x5AA5);
    w.activate();
    let e = w.process(WorkerInput::ReadReg(0x00AD));
    assert_eq!(e, Event::ReadFinished(Ok((0x00AD, 0x5AA5))));
}

#[test]
fn worker_echoes_the_written_value() {
    let mut w = TransactionWorker::new(0x5AA5);
    w.activate();
    let e = w.process(WorkerInput::WriteReg(0x0002, 0x00A0));
    assert_eq!(e, Event::WriteFinished(Ok((0x0002, 0x00A0))));
}

#[test]
fn worker_services_requests_in_submission_order() {
    let mut w = TransactionWorker::new(0x1111);
    w.activate();
    let mut chan = Channel::new(8);
    chan.send(WorkerInput::ReadReg(0x01)).unwrap();
    chan.send(WorkerInput::WriteReg(0x02, 7)).unwrap();
    assert_eq!(w.service(&mut chan), Some(Event::ReadFinished(Ok((0x01, 0x1111)))));
    assert_eq!(w.service(&mut chan), Some(Event::WriteFinished(Ok((0x02, 7)))));
    assert_eq!(w.service(&mut chan), None);
}

#[test]
fn request_read_before_ready_reports_not_connected() {
    let c = Coordinator::new(one_register_map(0x01));
    let mut chan = Channel::new(4);
    assert_eq!(c.state, SenderState::Starting);
    assert_eq!(c.request_read(0x01, &mut chan), Err(Fault::NotConnected));
    assert_eq!(chan.len(), 0);
    assert_eq!(c.reg_map.get(0x01).unwrap().read_value, 0);
}

#[test]
fn request_write_before_ready_reports_not_connected() {
    let c = Coordinator::new(one_register_map(0x01));
    let mut chan = Channel::new(4);
    assert_eq!(c.request_write(0x01, &mut chan), Err(Fault::NotConnected));
    assert_eq!(chan.len(), 0);
}

#[test]
fn ready_event_opens_the_gate_for_good() {
    let mut c = Coordinator::new(one_register_map(0x01));
    assert_eq!(c.on_event(Event::Ready), Ok(()));
    assert_eq!(c.state, SenderState::Ready);
    let mut chan = Channel::new(4);
    assert_eq!(c.request_read(0x01, &mut chan), Ok(()));
    assert_eq!(chan.recv(), Some(WorkerInput::ReadReg(0x01)));
}

#[test]
fn successful_read_outcome_lands_in_read_value() {
    let mut c = Coordinator::new(one_register_map(0x01));
    c.on_event(Event::Ready).unwrap();
    let mut chan = Channel::new(4);
    assert_eq!(c.request_read(0x01, &mut chan), Ok(()));
    assert_eq!(c.on_event(Event::ReadFinished(Ok((0x01, 0x5AA5)))), Ok(()));
    assert_eq!(c.reg_map.get(0x01).unwrap().read_value, 0x5AA5);
    assert_eq!(c.reg_map.get(0x01).unwrap().write_value, 0);
}

#[test]
fn request_write_sends_the_current_write_value() {
    let mut c = Coordinator::new(one_register_map(0x01));
    c.on_event(Event::Ready).unwrap();
    c.reg_map.set_write_value(0x01, 0x00A0).unwrap();
    let mut chan = Channel::new(4);
    assert_eq!(c.request_write(0x01, &mut chan), Ok(()));
    assert_eq!(chan.recv(), Some(WorkerInput::WriteReg(0x01, 0x00A0)));
    assert_eq!(c.request_write(0x77, &mut chan), Err(Fault::UnknownAddress(0x77)));
}

#[test]
fn echoed_write_outcome_is_idempotent() {
    let mut c = Coordinator::new(one_register_map(0x01));
    c.on_event(Event::Ready).unwrap();
    c.reg_map.set_write_value(0x01, 0x00A0).unwrap();
    let mut chan = Channel::new(4);
    assert_eq!(c.request_write(0x01, &mut chan), Ok(()));
    assert_eq!(c.on_event(Event::WriteFinished(Ok((0x01, 0x00A0)))), Ok(()));
    assert_eq!(c.reg_map.get(0x01).unwrap().write_value, 0x00A0);
}

#[test]
fn backend_may_echo_a_different_value_than_requested() {
    let mut c = Coordinator::new(one_register_map(0x01));
    c.on_event(Event::Ready).unwrap();
    c.reg_map.set_write_value(0x01, 0x00FF).unwrap();
    assert_eq!(c.on_event(Event::WriteFinished(Ok((0x01, 0x00F0)))), Ok(()));
    assert_eq!(c.reg_map.get(0x01).unwrap().write_value, 0x00F0);
}

#[test]
fn failure_outcomes_mutate_nothing() {
    let mut c = Coordinator::new(one_register_map(0x01));
    c.on_event(Event::Ready).unwrap();
    c.reg_map.set_read_value(0x01, 0x1234).unwrap();
    c.reg_map.set_write_value(0x01, 0x5678).unwrap();
    assert_eq!(c.on_event(Event::ReadFinished(Err(0x01))), Err(Fault::TransactionFailed(0x01)));
    assert_eq!(c.on_event(Event::WriteFinished(Err(0x01))), Err(Fault::TransactionFailed(0x01)));
    let r = c.reg_map.get(0x01).unwrap();
    assert_eq!(r.read_value, 0x1234);
    assert_eq!(r.write_value, 0x5678);
}

#[test]
fn outcome_for_an_unmapped_address_is_a_configuration_fault() {
    let mut c = Coordinator::new(one_register_map(0x01));
    c.on_event(Event::Ready).unwrap();
    assert_eq!(
        c.on_event(Event::ReadFinished(Ok((0x09, 1)))),
        Err(Fault::UnknownAddress(0x09))
    );
    assert_eq!(
        c.on_event(Event::WriteFinished(Ok((0x09, 1)))),
        Err(Fault::UnknownAddress(0x09))
    );
    assert_eq!(c.reg_map.get(0x01).unwrap().read_value, 0);
}

#[test]
fn later_outcome_wins_for_overlapping_reads() {
    // Two reads of one address are in flight at once; outcomes are
    // correlated by address only and applied in arrival order, so the
    // later-arriving outcome is the one that stands.
    let mut c = Coordinator::new(one_register_map(0x01));
    c.on_event(Event::Ready).unwrap();
    let mut chan = Channel::new(4);
    assert_eq!(c.request_read(0x01, &mut chan), Ok(()));
    assert_eq!(c.request_read(0x01, &mut chan), Ok(()));
    assert_eq!(chan.len(), 2);
    assert_eq!(c.on_event(Event::ReadFinished(Ok((0x01, 0x1111)))), Ok(()));
    assert_eq!(c.on_event(Event::ReadFinished(Ok((0x01, 0x2222)))), Ok(()));
    assert_eq!(c.reg_map.get(0x01).unwrap().read_value, 0x2222);
}

#[test]
fn update_dispatches_every_message_kind() {
    let mut c = Coordinator::new(one_register_map(0x01));
    let mut chan = Channel::new(4);
    assert_eq!(c.update(Message::Echo(Event::Ready), &mut chan), Ok(()));
    assert_eq!(c.state, SenderState::Ready);
    assert_eq!(c.update(Message::RegReadValChanged(0x01, 0x00AA), &mut chan), Ok(()));
    assert_eq!(c.reg_map.get(0x01).unwrap().read_value, 0x00AA);
    assert_eq!(c.update(Message::RegWriteValChanged(0x01, 0x0003), &mut chan), Ok(()));
    assert_eq!(c.reg_map.get(0x01).unwrap().write_value, 0x0003);
    assert_eq!(c.update(Message::RegToggleWriteBit(0x01, 2), &mut chan), Ok(()));
    assert_eq!(c.reg_map.get(0x01).unwrap().write_value, 0x0007);
    assert_eq!(c.update(Message::RegReadToWrite(0x01), &mut chan), Ok(()));
    assert_eq!(c.reg_map.get(0x01).unwrap().write_value, 0x00AA);
    assert_eq!(c.update(Message::RegRead(0x01), &mut chan), Ok(()));
    assert_eq!(c.update(Message::RegWrite(0x01), &mut chan), Ok(()));
    assert_eq!(chan.recv(), Some(WorkerInput::ReadReg(0x01)));
    assert_eq!(chan.recv(), Some(WorkerInput::WriteReg(0x01, 0x00AA)));
    assert_eq!(
        c.update(Message::Echo(Event::ReadFinished(Ok((0x01, 0x5AA5)))), &mut chan),
        Ok(())
    );
    assert_eq!(c.reg_map.get(0x01).unwrap().read_value, 0x5AA5);
}

#[test]
fn full_round_trip_through_the_worker() {
    // The demo flow: four registers, a worker, a bounded channel; the
    // user edits a write value, dispatches the write, the worker echoes
    // it, and a read brings the simulated bus value back.
    let mut m = RegisterMap::new();
    for address in 0..4u16 {
        m.insert(Register::new(0, 0, format!("REG_{}", address + 1), address, Vec::new()));
    }
    let mut c = Coordinator::new(m);
    let mut w = TransactionWorker::new(0x5AA5);
    let mut chan = Channel::new(100);

    let ready = w.activate().unwrap();
    c.on_event(ready).unwrap();

    c.update(Message::RegWriteValChanged(0x02, 0x0AA0), &mut chan).unwrap();
    c.update(Message::RegWrite(0x02), &mut chan).unwrap();
    c.update(Message::RegRead(0x03), &mut chan).unwrap();

    while let Some(event) = w.service(&mut chan) {
        c.on_event(event).unwrap();
    }

    assert_eq!(c.reg_map.get(0x02).unwrap().write_value, 0x0AA0);
    assert_eq!(c.reg_map.get(0x03).unwrap().read_value, 0x5AA5);
    assert_eq!(c.reg_map.get(0x00).unwrap().read_value, 0);
}
