use rumble::{
    alloc_init_request, alloc_request, AllocMode, BackendChoice, BufferID, BufferUsage, DeviceError,
    Handshake, HandshakeAction, HandshakeEvent, Layout, ReadBack, ReadBackAction, ReadBackEvent,
};

fn id(label: &str) -> BufferID {
    BufferID::new(label.to_string()).unwrap()
}

#[test]
fn a_label_has_six_safe_characters() {
    assert_eq!(BufferID::MAX_LENGTH, 6);
    assert_eq!(id("aZ09_-").inner(), "aZ09_-");
    assert_eq!(id("______").inner(), "______");
    assert_eq!(BufferID::new("abcde".to_string()), None);
    assert_eq!(BufferID::new("abcdefg".to_string()), None);
    assert_eq!(BufferID::new(String::new()), None);
    assert_eq!(BufferID::new("abc ef".to_string()), None);
    assert_eq!(BufferID::new("abcde!".to_string()), None);
    assert_eq!(BufferID::new("abcd\u{e9}f".to_string()), None);
    assert_eq!(BufferID::new("ab/def".to_string()), None);
    assert_eq!(BufferID::new("ab:def".to_string()), None);
    assert_eq!(BufferID::new("ab@def".to_string()), None);
    assert_eq!(BufferID::new("ab[def".to_string()), None);
    assert_eq!(BufferID::new("ab`def".to_string()), None);
    assert_eq!(BufferID::new("ab{def".to_string()), None);
    assert_eq!(id("q1w2e3").clone(), id("q1w2e3"));
}

#[test]
fn labels_are_made_of_the_alphabet_of_nanoid() {
    for c in nanoid::alphabet::SAFE {
        let label: String = std::iter::repeat(c).take(6).collect();
        assert_eq!(id(&label).inner(), label);
    }
    for code in 0u32..128 {
        let c = char::from_u32(code).unwrap();
        let label: String = std::iter::repeat(c).take(6).collect();
        assert_eq!(
            BufferID::new(label).is_some(),
            nanoid::alphabet::SAFE.contains(&c),
            "{:?}",
            c
        );
    }
    for _ in 0..100 {
        let label = nanoid::format(nanoid::rngs::default, &nanoid::alphabet::SAFE, 6);
        assert_eq!(id(&label).inner(), label);
    }
}

#[test]
fn an_allocation_asks_for_a_buffer_of_its_size() {
    let layout = Layout::from_size_align(1024, 4).unwrap();
    let mode = AllocMode::from_bits_truncate(AllocMode::COPY_SRC | AllocMode::COPY_DST);
    let request = alloc_request(&layout, mode, &id("buf001"));
    assert_eq!(request.label, "buf001");
    assert_eq!(request.size, 1024);
    assert_eq!(request.usage, BufferUsage::COPY_SRC | BufferUsage::COPY_DST);
    assert!(!request.mapped_at_creation);
    let none = alloc_request(&Layout::from_size_align(0, 1).unwrap(), AllocMode::empty(), &id("buf002"));
    assert_eq!(none.size, 0);
    assert_eq!(none.usage, 0);
    assert_eq!(none.label, "buf002");
}

#[test]
fn an_initialised_allocation_wants_contents_of_its_size() {
    let layout = Layout::from_size_align(4, 4).unwrap();
    let mode = AllocMode::from_bits_truncate(AllocMode::STORAGE | AllocMode::MAP_READ);
    let request = alloc_init_request(&layout, &[1, 2, 3, 4], mode, &id("init01")).unwrap();
    assert_eq!(request.label, "init01");
    assert_eq!(request.contents, vec![1, 2, 3, 4]);
    assert_eq!(request.usage, BufferUsage::STORAGE | BufferUsage::MAP_READ);
    assert_eq!(alloc_init_request(&layout, &[1, 2, 3], mode, &id("init02")), None);
    assert_eq!(alloc_init_request(&layout, &[1, 2, 3, 4, 5], mode, &id("init03")), None);
}

#[test]
fn a_read_back_polls_before_it_receives() {
    let mut dst = [0u8; 4];
    let (state, action) = ReadBack::begin(4, 4);
    assert_eq!(state, ReadBack::Requesting);
    assert_eq!(action, ReadBackAction::RequestMap);
    let (state, action) = state.step(ReadBackEvent::MapRequested, &mut dst);
    assert_eq!(state, ReadBack::Polling);
    assert_eq!(action, ReadBackAction::PollWait);
    let (state, action) = state.step(ReadBackEvent::PollReturned, &mut dst);
    assert_eq!(state, ReadBack::Receiving);
    assert_eq!(action, ReadBackAction::Receive);
    assert_eq!(dst, [0, 0, 0, 0]);
    let (state, action) = state.step(ReadBackEvent::Reply(vec![9, 8, 7, 6]), &mut dst);
    assert_eq!(state, ReadBack::Finished);
    assert_eq!(action, ReadBackAction::Finish(Ok(())));
    assert_eq!(dst, [9, 8, 7, 6]);
}

#[test]
fn a_read_back_of_another_length_asks_nothing_of_the_device() {
    let (state, action) = ReadBack::begin(4, 3);
    assert_eq!(state, ReadBack::Finished);
    assert_eq!(action, ReadBackAction::Finish(Err(DeviceError::CopyMismatch(4, 3))));
    let (state, action) = ReadBack::begin(0, 1);
    assert_eq!(state, ReadBack::Finished);
    assert_eq!(action, ReadBackAction::Finish(Err(DeviceError::CopyMismatch(0, 1))));
    let (state, action) = ReadBack::begin(0, 0);
    assert_eq!(state, ReadBack::Requesting);
    assert_eq!(action, ReadBackAction::RequestMap);
}

#[test]
fn a_failed_read_back_is_a_transfer_error() {
    let failed = || ReadBackAction::Finish(Err(DeviceError::TransferError("WebGPU".to_string())));
    let mut dst = [5u8; 2];
    let (state, action) = ReadBack::Receiving.step(ReadBackEvent::ReplyFailed, &mut dst);
    assert_eq!(state, ReadBack::Finished);
    assert_eq!(action, failed());
    let (state, action) = ReadBack::Receiving.step(ReadBackEvent::Disconnected, &mut dst);
    assert_eq!(state, ReadBack::Finished);
    assert_eq!(action, failed());
    assert_eq!(dst, [5, 5]);
}

#[test]
fn a_reply_of_another_length_is_not_copied() {
    let mut dst = [5u8; 2];
    let (state, action) = ReadBack::Receiving.step(ReadBackEvent::Reply(vec![1, 2, 3]), &mut dst);
    assert_eq!(state, ReadBack::Finished);
    assert_eq!(action, ReadBackAction::Finish(Err(DeviceError::CopyMismatch(3, 2))));
    assert_eq!(dst, [5, 5]);
    let (_, action) = ReadBack::Receiving.step(ReadBackEvent::Reply(vec![1]), &mut dst);
    assert_eq!(action, ReadBackAction::Finish(Err(DeviceError::CopyMismatch(1, 2))));
    assert_eq!(dst, [5, 5]);
}

#[test]
fn an_event_out_of_turn_ends_the_read_back() {
    let failed = || ReadBackAction::Finish(Err(DeviceError::TransferError("WebGPU".to_string())));
    let states = [ReadBack::Requesting, ReadBack::Polling, ReadBack::Receiving, ReadBack::Finished];
    for state in states {
        let events = [
            ReadBackEvent::MapRequested,
            ReadBackEvent::PollReturned,
            ReadBackEvent::Reply(vec![1, 2]),
            ReadBackEvent::ReplyFailed,
            ReadBackEvent::Disconnected,
        ];
        for event in events {
            let in_turn = matches!(
                (state, &event),
                (ReadBack::Requesting, ReadBackEvent::MapRequested)
                    | (ReadBack::Polling, ReadBackEvent::PollReturned)
                    | (ReadBack::Receiving, ReadBackEvent::Reply(_))
            );
            if in_turn {
                continue;
            }
            let mut dst = [5u8; 2];
            let (next, action) = state.step(event, &mut dst);
            assert_eq!(next, ReadBack::Finished);
            assert_eq!(action, failed());
            assert_eq!(dst, [5, 5]);
        }
    }
}

#[test]
fn a_handshake_gives_a_device() {
    let (state, action) = Handshake::begin();
    assert_eq!(state, Handshake::Asking);
    assert_eq!(action, HandshakeAction::ReadEnvironment);
    let (state, action) = state.step(HandshakeEvent::Environment(None));
    assert_eq!(state, Handshake::FindingAdapter);
    assert_eq!(action, HandshakeAction::RequestAdapter(BackendChoice::Primary));
    let (state, action) = state.step(HandshakeEvent::Adapter(true));
    assert_eq!(state, Handshake::RequestingDevice);
    assert_eq!(action, HandshakeAction::RequestDevice("rumble".to_string()));
    let (state, action) = state.step(HandshakeEvent::DeviceReply(Ok(())));
    assert_eq!(state, Handshake::Finished);
    assert_eq!(action, HandshakeAction::Finish(Ok(())));
}

#[test]
fn a_handshake_heeds_the_environment() {
    let (state, action) = Handshake::Asking.step(HandshakeEvent::Environment(Some(0b10)));
    assert_eq!(state, Handshake::FindingAdapter);
    assert_eq!(action, HandshakeAction::RequestAdapter(BackendChoice::Named(0b10)));
}

#[test]
fn a_handshake_without_hardware_is_a_resource_error() {
    let (state, action) = Handshake::FindingAdapter.step(HandshakeEvent::Adapter(false));
    assert_eq!(state, Handshake::Finished);
    assert_eq!(
        action,
        HandshakeAction::Finish(Err(DeviceError::ResourceError(
            "Unable to fetch adapter.".to_string()
        )))
    );
    let (state, action) = Handshake::RequestingDevice
        .step(HandshakeEvent::DeviceReply(Err("limits exceeded".to_string())));
    assert_eq!(state, Handshake::Finished);
    assert_eq!(
        action,
        HandshakeAction::Finish(Err(DeviceError::ResourceError("limits exceeded".to_string())))
    );
}

#[test]
fn an_event_out_of_turn_ends_the_handshake() {
    let failed = || {
        HandshakeAction::Finish(Err(DeviceError::ResourceError(
            "Handshake out of turn.".to_string(),
        )))
    };
    let (state, action) = Handshake::Asking.step(HandshakeEvent::Adapter(true));
    assert_eq!((state, action), (Handshake::Finished, failed()));
    let (state, action) = Handshake::Asking.step(HandshakeEvent::DeviceReply(Ok(())));
    assert_eq!((state, action), (Handshake::Finished, failed()));
    let (state, action) = Handshake::FindingAdapter.step(HandshakeEvent::Environment(None));
    assert_eq!((state, action), (Handshake::Finished, failed()));
    let (state, action) = Handshake::RequestingDevice.step(HandshakeEvent::Adapter(true));
    assert_eq!((state, action), (Handshake::Finished, failed()));
    let (state, action) = Handshake::Finished.step(HandshakeEvent::DeviceReply(Ok(())));
    assert_eq!((state, action), (Handshake::Finished, failed()));
}
