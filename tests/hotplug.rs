use usbcore::context::{Context, LogLevel};
use usbcore::error::Error;
use usbcore::event::HotPlugEvent;
use usbcore::hotplug::HotplugFilter;

#[test]
fn hotplug_event_codes_decode() {
    assert_eq!(HotPlugEvent::from_i32(1), Some(HotPlugEvent::Arrived));
    assert_eq!(HotPlugEvent::from_i32(2), Some(HotPlugEvent::Left));
    assert_eq!(HotPlugEvent::from_i32(3), None);
    assert_eq!(HotPlugEvent::from_i32(0), None);
}

#[test]
fn unset_filter_fields_match_anything() {
    let f = HotplugFilter::new();
    assert_eq!(f.get_vendor(), -1);
    assert_eq!(f.get_product(), -1);
    assert_eq!(f.get_class(), -1);
    assert_eq!(f.get_events(), 3);
    assert_eq!(f.get_flags(), 0);
}

#[test]
fn filter_builder_sets_fields() {
    let f = HotplugFilter::new().vendor(0x1234).product(0x5678).class(9).arrived_only().enumerate();
    assert_eq!(f.get_vendor(), 0x1234);
    assert_eq!(f.get_product(), 0x5678);
    assert_eq!(f.get_class(), 9);
    assert_eq!(f.get_events(), 1);
    assert_eq!(f.get_flags(), 1);
    assert_eq!(HotplugFilter::new().left_only().get_events(), 2);
}

#[test]
fn enumeration_replay_reaches_callback_once_per_device() {
    let mut ctx: Context<&'static str> = Context::new(0).unwrap();
    let key = ctx.begin_registration("watcher").unwrap();
    let mut arrived = 0;
    for _device in 0..3 {
        if let Some((i, event)) = ctx.dispatch(key, 1) {
            assert_eq!(*ctx.callback(i), "watcher");
            assert_eq!(event, HotPlugEvent::Arrived);
            arrived += 1;
        }
    }
    assert_eq!(arrived, 3);
    assert_eq!(ctx.finish_registration(key, 0, 42), Ok(()));
    let reg = ctx.registration(0);
    assert_eq!(reg.handle, 42);
    assert!(reg.active);
}

#[test]
fn unknown_event_code_is_dropped() {
    let mut ctx: Context<u8> = Context::new(0).unwrap();
    let key = ctx.begin_registration(7).unwrap();
    assert_eq!(ctx.finish_registration(key, 0, 1), Ok(()));
    assert_eq!(ctx.dispatch(key, 5), None);
    assert_eq!(ctx.dispatch(key + 1, 1), None);
    assert_eq!(ctx.dispatch(key, 2), Some((0, HotPlugEvent::Left)));
}

#[test]
fn failed_registration_is_withdrawn() {
    let mut ctx: Context<u8> = Context::new(0).unwrap();
    let first = ctx.begin_registration(1).unwrap();
    let second = ctx.begin_registration(2).unwrap();
    assert_ne!(first, second);
    assert_eq!(ctx.finish_registration(first, -12, 0), Err(Error::NotSupported));
    assert_eq!(ctx.len(), 1);
    assert_eq!(ctx.dispatch(first, 1), None);
    assert_eq!(ctx.dispatch(second, 1), Some((0, HotPlugEvent::Arrived)));
    assert_eq!(*ctx.callback(0), 2);
    assert_eq!(ctx.finish_registration(first, 0, 0), Err(Error::NotFound));
}

#[test]
fn failed_initialisation_is_reported() {
    assert!(matches!(Context::<u8>::new(-3), Err(Error::Access)));
    assert!(matches!(Context::<u8>::new(-99), Err(Error::Other)));
}

#[test]
fn event_pump_cannot_be_reentered() {
    let mut ctx: Context<u8> = Context::new(0).unwrap();
    assert_eq!(ctx.begin_pump(), Ok(()));
    assert_eq!(ctx.begin_pump(), Err(Error::Busy));
    ctx.end_pump();
    assert_eq!(ctx.begin_pump(), Ok(()));
}

#[test]
fn log_levels_have_native_codes() {
    assert_eq!(LogLevel::Silent.as_c_int(), 0);
    assert_eq!(LogLevel::Error.as_c_int(), 1);
    assert_eq!(LogLevel::Warning.as_c_int(), 2);
    assert_eq!(LogLevel::Info.as_c_int(), 3);
    assert_eq!(LogLevel::Debug.as_c_int(), 4);
}
