use dpc_driver::device::{
    dispatch_create_close, dispatch_device_control, dpc_callback, DeviceExtension, IoctlRequest,
    Timer, TIMER_DUE_TIME, TIMER_PERIOD,
};
use dpc_driver::ioctl::IOCTL_GET_COUNTER;
use dpc_driver::irql::{ExecutionContext, APC_LEVEL, DISPATCH_LEVEL, PASSIVE_LEVEL};
use dpc_driver::request::{Completion, Status};

fn counter_query(capacity: u32, usable: bool) -> IoctlRequest {
    IoctlRequest {
        io_control_code: IOCTL_GET_COUNTER,
        output_buffer_length: capacity,
        output_buffer_usable: usable,
    }
}

fn armed_block() -> DeviceExtension {
    let mut dev_ext = DeviceExtension::new();
    dev_ext.arm(TIMER_DUE_TIME, TIMER_PERIOD);
    dev_ext
}

fn fire_block(dev_ext: &mut DeviceExtension, times: u32) {
    let mut cx = ExecutionContext::new(DISPATCH_LEVEL);
    for _ in 0..times {
        dpc_callback(dev_ext, &mut cx);
    }
    assert_eq!(cx.irql(), DISPATCH_LEVEL);
}

fn read_under_lock(dev_ext: &mut DeviceExtension) -> u32 {
    let mut cx = ExecutionContext::new(PASSIVE_LEVEL);
    let guard = dev_ext.lock(&mut cx);
    let counter = dev_ext.read_counter(&guard);
    dev_ext.unlock(guard, &mut cx);
    counter
}

#[test]
fn the_schedule_is_one_second_then_every_second() {
    assert_eq!(TIMER_DUE_TIME, -10_000_000);
    assert_eq!(TIMER_PERIOD, 1000);
}

#[test]
fn a_new_block_is_zeroed_unarmed_and_unlocked() {
    let mut dev_ext = DeviceExtension::new();
    assert!(!dev_ext.is_armed());
    assert_eq!(dev_ext.timer(), Timer::Idle);
    assert!(dev_ext.is_quiescent());
    assert_eq!(read_under_lock(&mut dev_ext), 0);
}

#[test]
fn arm_records_the_schedule_and_disarm_clears_it() {
    let mut dev_ext = DeviceExtension::new();
    dev_ext.arm(-5, 250);
    assert!(dev_ext.is_armed());
    assert_eq!(dev_ext.timer(), Timer::Periodic { due_time: -5, period: 250 });
    dev_ext.disarm();
    assert!(!dev_ext.is_armed());
    assert_eq!(dev_ext.timer(), Timer::Idle);
    dev_ext.destroy();
}

#[test]
fn disarm_is_harmless_on_an_unarmed_block() {
    let mut dev_ext = DeviceExtension::new();
    dev_ext.disarm();
    assert!(!dev_ext.is_armed());
    assert_eq!(read_under_lock(&mut dev_ext), 0);
}

#[test]
fn disarm_keeps_the_counter() {
    let mut dev_ext = armed_block();
    fire_block(&mut dev_ext, 4);
    dev_ext.disarm();
    assert_eq!(read_under_lock(&mut dev_ext), 4);
}

#[test]
fn init_returns_a_used_block_to_zero() {
    let mut dev_ext = armed_block();
    fire_block(&mut dev_ext, 9);
    dev_ext.disarm();
    dev_ext.init();
    assert!(!dev_ext.is_armed());
    assert!(dev_ext.is_quiescent());
    assert_eq!(read_under_lock(&mut dev_ext), 0);
}

#[test]
fn each_firing_adds_one() {
    let mut dev_ext = armed_block();
    for expected in 1..=10u32 {
        fire_block(&mut dev_ext, 1);
        assert_eq!(read_under_lock(&mut dev_ext), expected);
    }
}

#[test]
fn after_n_firings_the_counter_is_n() {
    let mut dev_ext = armed_block();
    fire_block(&mut dev_ext, 1000);
    assert_eq!(read_under_lock(&mut dev_ext), 1000);
}

#[test]
fn the_callback_leaves_lock_and_level_as_they_were() {
    let mut dev_ext = armed_block();
    let mut cx = ExecutionContext::new(DISPATCH_LEVEL);
    dpc_callback(&mut dev_ext, &mut cx);
    assert!(dev_ext.is_quiescent());
    assert!(dev_ext.is_armed());
    assert_eq!(cx.irql(), DISPATCH_LEVEL);
}

#[test]
fn the_lock_is_held_between_lock_and_unlock() {
    let mut dev_ext = armed_block();
    let mut cx = ExecutionContext::new(APC_LEVEL);
    let guard = dev_ext.lock(&mut cx);
    assert!(!dev_ext.is_quiescent());
    assert_eq!(cx.irql(), DISPATCH_LEVEL);
    dev_ext.unlock(guard, &mut cx);
    assert!(dev_ext.is_quiescent());
    assert_eq!(cx.irql(), APC_LEVEL);
}

#[test]
fn the_counter_can_be_stepped_under_a_guard() {
    let mut dev_ext = armed_block();
    let mut cx = ExecutionContext::new(DISPATCH_LEVEL);
    let guard = dev_ext.lock_at_dpc(&cx);
    dev_ext.increment_counter(&guard);
    dev_ext.increment_counter(&guard);
    assert_eq!(dev_ext.read_counter(&guard), 2);
    dev_ext.unlock(guard, &mut cx);
    assert_eq!(cx.irql(), DISPATCH_LEVEL);
    assert_eq!(read_under_lock(&mut dev_ext), 2);
}

#[test]
fn open_and_close_succeed_with_nothing_handed_back() {
    assert_eq!(
        dispatch_create_close(),
        Completion { status: Status::Success, information: 0, output: None }
    );
}

#[test]
fn a_query_with_exactly_four_bytes_succeeds() {
    let mut dev_ext = armed_block();
    fire_block(&mut dev_ext, 3);
    let mut cx = ExecutionContext::new(PASSIVE_LEVEL);
    let completion = dispatch_device_control(&mut dev_ext, &mut cx, counter_query(4, true));
    assert_eq!(
        completion,
        Completion { status: Status::Success, information: 4, output: Some([3, 0, 0, 0]) }
    );
    assert_eq!(cx.irql(), PASSIVE_LEVEL);
    assert!(dev_ext.is_quiescent());
}

#[test]
fn a_query_with_three_bytes_or_fewer_is_too_small() {
    let mut dev_ext = armed_block();
    fire_block(&mut dev_ext, 3);
    let mut cx = ExecutionContext::new(PASSIVE_LEVEL);
    for capacity in [3u32, 2, 1, 0] {
        let completion = dispatch_device_control(&mut dev_ext, &mut cx, counter_query(capacity, true));
        assert_eq!(
            completion,
            Completion { status: Status::BufferTooSmall, information: 0, output: None }
        );
    }
    assert_eq!(cx.irql(), PASSIVE_LEVEL);
}

#[test]
fn a_query_with_more_than_four_bytes_writes_four() {
    let mut dev_ext = armed_block();
    fire_block(&mut dev_ext, 258);
    let mut cx = ExecutionContext::new(PASSIVE_LEVEL);
    for capacity in [5u32, 8, 4096, u32::MAX] {
        let completion = dispatch_device_control(&mut dev_ext, &mut cx, counter_query(capacity, true));
        assert_eq!(
            completion,
            Completion { status: Status::Success, information: 4, output: Some([2, 1, 0, 0]) }
        );
    }
}

#[test]
fn a_query_into_an_unusable_buffer_is_invalid_output() {
    let mut dev_ext = armed_block();
    let mut cx = ExecutionContext::new(PASSIVE_LEVEL);
    let completion = dispatch_device_control(&mut dev_ext, &mut cx, counter_query(4, false));
    assert_eq!(
        completion,
        Completion { status: Status::InvalidOutput, information: 0, output: None }
    );
}

#[test]
fn too_small_is_reported_before_unusable() {
    let mut dev_ext = armed_block();
    let mut cx = ExecutionContext::new(PASSIVE_LEVEL);
    let completion = dispatch_device_control(&mut dev_ext, &mut cx, counter_query(3, false));
    assert_eq!(completion.status, Status::BufferTooSmall);
    assert_eq!(completion.information, 0);
    assert_eq!(completion.output, None);
}

#[test]
fn any_other_code_is_not_implemented() {
    let mut dev_ext = armed_block();
    let mut cx = ExecutionContext::new(PASSIVE_LEVEL);
    let others = [
        0u32,
        0x800,
        IOCTL_GET_COUNTER - 1,
        IOCTL_GET_COUNTER + 1,
        IOCTL_GET_COUNTER | 1,
        0x0022_2000,
        u32::MAX,
    ];
    for code in others {
        for (capacity, usable) in [(4u32, true), (0, true), (4, false), (0, false)] {
            let request = IoctlRequest {
                io_control_code: code,
                output_buffer_length: capacity,
                output_buffer_usable: usable,
            };
            let completion = dispatch_device_control(&mut dev_ext, &mut cx, request);
            assert_eq!(
                completion,
                Completion { status: Status::NotImplemented, information: 0, output: None }
            );
        }
    }
    assert_eq!(cx.irql(), PASSIVE_LEVEL);
    assert!(dev_ext.is_quiescent());
}

#[test]
fn a_query_does_not_change_the_counter() {
    let mut dev_ext = armed_block();
    fire_block(&mut dev_ext, 7);
    let mut cx = ExecutionContext::new(PASSIVE_LEVEL);
    for _ in 0..5 {
        let completion = dispatch_device_control(&mut dev_ext, &mut cx, counter_query(4, true));
        assert_eq!(completion.output, Some([7, 0, 0, 0]));
    }
    let failed = dispatch_device_control(&mut dev_ext, &mut cx, counter_query(0, true));
    assert_eq!(failed.status, Status::BufferTooSmall);
    assert_eq!(read_under_lock(&mut dev_ext), 7);
}

#[test]
fn a_query_from_apc_level_returns_to_apc_level() {
    let mut dev_ext = armed_block();
    let mut cx = ExecutionContext::new(APC_LEVEL);
    let completion = dispatch_device_control(&mut dev_ext, &mut cx, counter_query(4, true));
    assert_eq!(completion.status, Status::Success);
    assert_eq!(cx.irql(), APC_LEVEL);
}

#[test]
fn every_firing_is_seen_by_the_next_query() {
    let mut dev_ext = armed_block();
    let mut normal = ExecutionContext::new(PASSIVE_LEVEL);
    let mut fired: u32 = 0;
    // Firings and queries in an irregular order.
    let pattern = [1u32, 0, 3, 1, 0, 0, 5, 2, 1, 7];
    for burst in pattern {
        fire_block(&mut dev_ext, burst);
        fired += burst;
        let completion = dispatch_device_control(&mut dev_ext, &mut normal, counter_query(4, true));
        assert_eq!(completion.status, Status::Success);
        assert_eq!(completion.output, Some(fired.to_le_bytes()));
    }
    assert_eq!(fired, 20);
}
