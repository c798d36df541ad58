use systypes::DispatchError;
use systypes::ProcessID;
use systypes::ProcessLabel;
use systypes::ResourceHandle;
use systypes::ResourceType;
use systypes::Signal;

fn fields(h: &ResourceHandle) -> (u32, u32, u32) {
    (h.resource_type(), h.task_ns(), h.resource_id())
}

#[test]
fn shm_handle_packs_and_unpacks_exactly() {
    let h = ResourceHandle::new(4, 1, 7).unwrap();
    let raw: u32 = h.pack();
    let back = ResourceHandle::unpack(raw);
    assert_eq!(fields(&back), (4, 1, 7));
    assert_eq!(back, h);
}

#[test]
fn pack_lays_the_fields_side_by_side() {
    let h = ResourceHandle::new(4, 1, 7).unwrap();
    assert_eq!(h.pack(), 4 + 16 + 7 * 65536);
    assert_eq!(h.pack(), 0x0007_0014);
    assert_eq!(ResourceHandle::new(1, 0, 0).unwrap().pack(), 0x0000_0001);
    assert_eq!(ResourceHandle::new(0, 1, 0).unwrap().pack(), 0x0000_0010);
    assert_eq!(ResourceHandle::new(0, 0, 1).unwrap().pack(), 0x0001_0000);
    assert_eq!(ResourceHandle::new(0xa, 0xbcd, 0x123).unwrap().pack(), 0x0123_bcda);
}

#[test]
fn unpack_splits_a_flat_value_into_its_fields() {
    assert_eq!(fields(&ResourceHandle::unpack(0x0123_bcda)), (0xa, 0xbcd, 0x123));
    assert_eq!(fields(&ResourceHandle::unpack(0)), (0, 0, 0));
    assert_eq!(fields(&ResourceHandle::unpack(0x0fff_ffff)), (15, 4095, 4095));
}

#[test]
fn handle_round_trips_for_every_resource_type() {
    for ty in [ResourceType::PID, ResourceType::Device, ResourceType::SHM, ResourceType::DMA] {
        for ns in [0u32, 1, 2, 255, 256, 2048, 4094, 4095] {
            for id in [0u32, 1, 7, 16, 1000, 4095] {
                let h = ResourceHandle::new(u32::from(ty), ns, id).unwrap();
                let back = ResourceHandle::unpack(h.pack());
                assert_eq!(fields(&back), (u32::from(ty), ns, id));
                assert_eq!(back, h);
            }
        }
    }
}

#[test]
fn handle_round_trips_for_every_namespace_and_identifier() {
    for ns in 0u32..4096 {
        let h = ResourceHandle::new(2, ns, 4095 - ns).unwrap();
        assert_eq!(fields(&ResourceHandle::unpack(h.pack())), (2, ns, 4095 - ns));
    }
}

#[test]
fn fields_at_their_limits_fill_twenty_eight_bits() {
    let h = ResourceHandle::new(15, 4095, 4095).unwrap();
    assert_eq!(h.pack(), 0x0fff_ffff);
}

#[test]
fn a_type_that_overflows_four_bits_is_refused() {
    assert_eq!(ResourceHandle::new(16, 0, 0), Err(DispatchError::IllegalValue));
    assert_eq!(ResourceHandle::new(u32::MAX, 0, 0), Err(DispatchError::IllegalValue));
}

#[test]
fn a_namespace_that_overflows_twelve_bits_is_refused() {
    assert_eq!(ResourceHandle::new(1, 4096, 0), Err(DispatchError::IllegalValue));
    assert_eq!(ResourceHandle::new(1, u32::MAX, 0), Err(DispatchError::IllegalValue));
}

#[test]
fn an_identifier_that_overflows_twelve_bits_is_refused() {
    assert_eq!(ResourceHandle::new(1, 0, 4096), Err(DispatchError::IllegalValue));
    assert_eq!(ResourceHandle::new(1, 0, u32::MAX), Err(DispatchError::IllegalValue));
}

#[test]
fn fields_just_inside_their_widths_are_accepted() {
    assert!(ResourceHandle::new(15, 4095, 4095).is_ok());
    assert!(ResourceHandle::new(0, 0, 0).is_ok());
}

#[test]
fn unpack_drops_the_reserved_bits() {
    let h = ResourceHandle::unpack(0xf007_0014);
    assert_eq!(fields(&h), (4, 1, 7));
    assert_eq!(h.pack(), 0x0007_0014);
    let top = ResourceHandle::unpack(u32::MAX);
    assert_eq!(fields(&top), (15, 4095, 4095));
    assert_eq!(top.pack(), 0x0fff_ffff);
}

#[test]
fn pack_undoes_unpack_below_the_reserved_bits() {
    for raw in [0u32, 1, 0x10, 0xffff, 0x1_0000, 0x0123_4567, 0x0fff_ffff] {
        assert_eq!(ResourceHandle::unpack(raw).pack(), raw);
    }
    for raw in [0x1000_0000u32, 0x8123_4567, u32::MAX] {
        assert_eq!(ResourceHandle::unpack(raw).pack(), raw & 0x0fff_ffff);
    }
}

#[test]
fn resource_types_are_one_bit_each_of_the_type_field() {
    assert_eq!(u32::from(ResourceType::PID), 1);
    assert_eq!(u32::from(ResourceType::Device), 2);
    assert_eq!(u32::from(ResourceType::SHM), 4);
    assert_eq!(u32::from(ResourceType::DMA), 8);
}

#[test]
fn label_zero_is_number_zero() {
    let id: ProcessID = u32::from(ProcessLabel::Label0);
    assert_eq!(id, 0);
}

#[test]
fn signals_are_told_apart() {
    let signals = [
        Signal::Abort,
        Signal::Alarm,
        Signal::Bus,
        Signal::Cont,
        Signal::Ill,
        Signal::Io,
        Signal::Pipe,
        Signal::Poll,
        Signal::Term,
        Signal::Trap,
        Signal::Usr1,
        Signal::Usr2,
    ];
    for (i, a) in signals.iter().enumerate() {
        for (j, b) in signals.iter().enumerate() {
            assert_eq!(a == b, i == j);
        }
    }
}
