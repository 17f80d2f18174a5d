use nvml_wrapper::bindings::{
    NVML_CLOCKS_THROTTLE_REASON_GPU_IDLE, NVML_CLOCKS_THROTTLE_REASON_HW_SLOWDOWN,
    NVML_CLOCKS_THROTTLE_REASON_UNKNOWN, NVML_EVENT_TYPE_CLOCK, NVML_EVENT_TYPE_PSTATE,
    NVML_EVENT_TYPE_XID_CRITICAL_ERROR, NVML_FLAG_FORCE, NVML_INIT_FLAG_NO_GPUS,
    NVML_NVLINK_COUNTER_PKTFILTER_READ, NVML_NVLINK_COUNTER_PKTFILTER_WRITE,
};
use nvml_wrapper::bitmasks::device::ThrottleReasons;
use nvml_wrapper::bitmasks::event::EventTypes;
use nvml_wrapper::bitmasks::nv_link::PacketTypes;
use nvml_wrapper::bitmasks::{Behavior, InitFlags};

#[test]
fn behavior_flags() {
    assert_eq!(Behavior::empty().bits(), 0);
    assert_eq!(Behavior::all().bits(), NVML_FLAG_FORCE);
    assert_eq!(Behavior::from_bits(1).map(|b| b.bits()), Some(1));
    assert!(Behavior::from_bits(2).is_none());
    assert_eq!(Behavior::from_bits_truncate(3).bits(), 1);
    assert!(Behavior::all().contains(Behavior::empty()));
    assert!(!Behavior::empty().contains(Behavior::all()));
    assert!(!Behavior::all().intersects(Behavior::empty()));
    assert_eq!(Behavior::empty().union(Behavior::all()), Behavior::all());
}

#[test]
fn init_flags() {
    assert_eq!(InitFlags::all().bits(), NVML_INIT_FLAG_NO_GPUS);
    assert_eq!(InitFlags::from_bits(0).map(|f| f.bits()), Some(0));
    assert!(InitFlags::from_bits(0x10).is_none());
    assert_eq!(InitFlags::from_bits_truncate(0xffff_ffff).bits(), 1);
}

#[test]
fn throttle_reasons_flags() {
    let all = ThrottleReasons::all();
    assert_eq!(all.bits(), 0x8000_0000_0000_001f);
    let idle = ThrottleReasons::from_bits(NVML_CLOCKS_THROTTLE_REASON_GPU_IDLE).unwrap();
    let slow = ThrottleReasons::from_bits(NVML_CLOCKS_THROTTLE_REASON_HW_SLOWDOWN).unwrap();
    let both = idle.union(slow);
    assert_eq!(both.bits(), 0x9);
    assert!(both.contains(idle));
    assert!(both.intersects(slow));
    assert!(!idle.intersects(slow));
    assert!(all.contains(ThrottleReasons::from_bits(NVML_CLOCKS_THROTTLE_REASON_UNKNOWN).unwrap()));
    assert!(ThrottleReasons::from_bits(0x20).is_none());
    assert_eq!(ThrottleReasons::from_bits_truncate(0xffff_ffff_ffff_ffff).bits(), all.bits());
    assert_eq!(ThrottleReasons::from_bits_truncate(0x40).bits(), 0);
}

#[test]
fn event_types_flags() {
    assert_eq!(EventTypes::all().bits(), 0x1f);
    assert_eq!(EventTypes::empty().bits(), 0);
    let xid = EventTypes::from_bits(NVML_EVENT_TYPE_XID_CRITICAL_ERROR).unwrap();
    let clock = EventTypes::from_bits(NVML_EVENT_TYPE_CLOCK).unwrap();
    let pstate = EventTypes::from_bits(NVML_EVENT_TYPE_PSTATE).unwrap();
    assert_eq!(xid.union(clock).bits(), 0x18);
    assert!(!xid.union(clock).contains(pstate));
    assert!(EventTypes::from_bits(0x20).is_none());
    assert_eq!(EventTypes::from_bits_truncate(0x3c).bits(), 0x1c);
}

#[test]
fn packet_types_flags() {
    assert_eq!(PacketTypes::all().bits(), 0xff);
    let read = PacketTypes::from_bits(NVML_NVLINK_COUNTER_PKTFILTER_READ).unwrap();
    let write = PacketTypes::from_bits(NVML_NVLINK_COUNTER_PKTFILTER_WRITE).unwrap();
    assert_eq!(read.union(write).bits(), 0x6);
    assert!(PacketTypes::all().contains(read.union(write)));
    assert!(PacketTypes::from_bits(0x100).is_none());
    assert_eq!(PacketTypes::from_bits_truncate(0x1_02).bits(), 0x2);
}

#[test]
fn truncate_agrees_with_strict() {
    for bits in [0u64, 0x1, 0x8, 0x1f, 0x20, 0x8000_0000_0000_0000, u64::MAX] {
        let truncated = EventTypes::from_bits_truncate(bits);
        assert!(EventTypes::from_bits(truncated.bits()).is_some());
        if let Some(strict) = EventTypes::from_bits(bits) {
            assert_eq!(strict, truncated);
        }
        let truncated = ThrottleReasons::from_bits_truncate(bits);
        assert!(ThrottleReasons::from_bits(truncated.bits()).is_some());
        if let Some(strict) = ThrottleReasons::from_bits(bits) {
            assert_eq!(strict, truncated);
        }
    }
    for bits in [0u32, 1, 2, 0xff, 0x100, u32::MAX] {
        let truncated = PacketTypes::from_bits_truncate(bits);
        if let Some(strict) = PacketTypes::from_bits(bits) {
            assert_eq!(strict, truncated);
        }
        let truncated = Behavior::from_bits_truncate(bits);
        if let Some(strict) = Behavior::from_bits(bits) {
            assert_eq!(strict, truncated);
        }
        let truncated = InitFlags::from_bits_truncate(bits);
        if let Some(strict) = InitFlags::from_bits(bits) {
            assert_eq!(strict, truncated);
        }
    }
}
