//! The audio object plane: the system object, devices, taps, aggregate
//! devices, the generic property calls and the listener queue.

use cidre::core_audio::{
    AggregateDevice, Class, Composition, Hardware, Obj, PropAddr, PropElement, PropScope,
    PropSelector, PropValue, Process, SubDevice, System, TapDesc,
};
use cidre::ns;
use cidre::os::Status;

fn demo_hardware() -> (Hardware, cidre::core_audio::Device) {
    let mut hw = Hardware::new();
    let dev = hw.install_device(
        "BuiltInSpeakerUID".to_owned(),
        "Built-in Output".to_owned(),
        vec![],
        vec![2],
    );
    hw.set_default_output_device(&dev);
    (hw, dev)
}

#[test]
fn system() {
    let hw = Hardware::new();
    let sys = System::obj();
    assert_eq!(sys.class(&hw).unwrap(), Class::system());
    assert!(sys.base_class(&hw).is_err());
}

#[test]
fn list_devices() {
    let (mut hw, dev) = demo_hardware();
    hw.set_default_input_device(&dev);
    let _device = System::default_input_device(&hw).unwrap();
    let devices = System::devices(&hw).unwrap();
    assert!(!devices.is_empty());
}

#[test]
fn tap() {
    let mut hw = Hardware::new();
    let desc = TapDesc::with_stereo_global_tap_excluding_processes(&ns::Array::new());
    let tap = desc.create_process_tap(&mut hw).unwrap();
    assert_eq!(tap.0.class(&hw).unwrap(), Class::tap());
    assert_eq!(tap.0.base_class(&hw).unwrap(), Class::object());
}

#[test]
fn aggregate_device() {
    let (mut hw, _dev) = demo_hardware();
    let output_uid = System::default_output_device(&hw).unwrap().uid(&hw).unwrap();
    let dict = Composition {
        uid: "0DB4DDE2-4B5F-4FAB-BFBB-A97F51AB4051".to_owned(),
        name: "Tap".to_owned(),
        main_sub_device: output_uid.clone(),
        clock_device: String::new(),
        sub_devices: vec![SubDevice { uid: output_uid, drift_compensation: false }],
        tap_uids: vec![],
        is_private: true,
        is_stacked: false,
        tap_auto_start: true,
    };
    let agg_device = AggregateDevice::with_desc(&mut hw, dict).unwrap();
    assert_eq!(agg_device.0 .0.class(&hw).unwrap(), Class::aggregate_device());
    assert_eq!(agg_device.0 .0.base_class(&hw).unwrap(), Class::device());
}

#[test]
fn process() {
    let mut hw = Hardware::new();
    let installed = hw.install_process(424_242, "com.example.player".to_owned(), vec![]);

    let obj = Process::with_pid(&hw, 0).unwrap();
    assert_eq!(obj.0, Obj(0));

    let objs = Process::list(&hw).unwrap();
    for obj in &objs {
        obj.bundle_id(&hw).unwrap();
    }
    assert_eq!(objs.len(), 1);

    let obj = Process::with_pid(&hw, 424_242).unwrap();
    assert_ne!(obj.0, Obj(0));
    assert_eq!(obj, installed);
    assert_eq!(obj.0.base_class(&hw).unwrap(), Class::object());
    let process_id = obj.pid(&hw).unwrap();
    assert_eq!(424_242, process_id);

    assert!(!obj.is_running(&hw).unwrap());

    let _devices = obj.devices(&hw).unwrap();
}

#[test]
fn hardware_tapping_basics() {
    let mut hw = Hardware::new();
    let tap_desc = TapDesc::with_stereo_global_tap_excluding_processes(&ns::Array::new());
    let tap = tap_desc.create_process_tap(&mut hw).unwrap();
    let uid = tap.uid(&hw).unwrap();
    assert_eq!(uid, "");
    let asbd = tap.asbd(&hw).unwrap();
    assert_eq!(asbd.channels_per_frame, 2);
    assert_eq!(asbd.bits_per_channel, 32);
    assert_eq!(asbd.reserved, 0);
    let desc = tap.desc(&hw).unwrap();
    assert!(desc.exclude_listed);
    assert!(!desc.mono);
}

#[test]
fn property_round_trip() {
    let (mut hw, dev) = demo_hardware();
    let addr = PropSelector::device_buf_frame_size().global_addr();

    assert_eq!(dev.0.prop(&hw, &addr).unwrap(), &PropValue::U32(512));
    assert_eq!(dev.0.prop_size(&hw, &addr).unwrap(), 4);
    assert!(dev.0.has_prop(&hw, &addr));
    assert!(dev.0.is_prop_settable(&hw, &addr).unwrap());

    dev.0.set_prop(&mut hw, &addr, PropValue::U32(256)).unwrap();
    assert_eq!(dev.0.prop(&hw, &addr).unwrap(), &PropValue::U32(256));
    assert!(dev.0.bool_prop(&hw, &addr).is_ok());

    // an array-valued property round-trips through the vector read
    let cfg_addr = PropAddr {
        selector: PropSelector::device_stream_cfg(),
        scope: PropScope::output(),
        element: PropElement::wildcard(),
    };
    assert_eq!(dev.0.prop_vec(&hw, &cfg_addr).unwrap(), vec![2]);
    assert_eq!(dev.0.prop_size(&hw, &cfg_addr).unwrap(), 4);

    // a struct-valued property reads back what the tap was created with
    let mut hw2 = Hardware::new();
    let tap = TapDesc::with_stereo_global_tap_excluding_processes(&ns::Array::new())
        .create_process_tap(&mut hw2)
        .unwrap();
    let asbd = tap.asbd(&hw2).unwrap();
    assert_eq!(asbd.sample_rate, 48000);
}

#[test]
fn property_errors() {
    let (mut hw, dev) = demo_hardware();
    let addr = PropSelector::device_buf_frame_size().global_addr();

    // a handle naming no object
    let ghostly = Obj(777);
    assert_eq!(ghostly.prop(&hw, &addr).unwrap_err().0, Status::bad_object());

    // an address naming no property
    let missing = PropSelector::device_mute().global_addr();
    assert_eq!(dev.0.prop(&hw, &missing).unwrap_err().0, Status::unknown_property());
    assert!(!dev.0.has_prop(&hw, &missing));

    // writing a read-only property
    let uid_addr = PropSelector::device_uid().global_addr();
    assert_eq!(
        dev.0.set_prop(&mut hw, &uid_addr, PropValue::Str("X".to_owned())).unwrap_err().0,
        Status::unsupported_operation()
    );

    // writing data of the wrong shape
    assert_eq!(
        dev.0.set_prop(&mut hw, &addr, PropValue::Str("X".to_owned())).unwrap_err().0,
        Status::bad_property_size()
    );

    // the failed writes left the value alone
    assert_eq!(dev.0.prop(&hw, &addr).unwrap(), &PropValue::U32(512));
}

#[test]
fn listener_notices() {
    let (mut hw, dev) = demo_hardware();
    let addr = PropSelector::device_buf_frame_size().global_addr();
    let listener: u64 = 71;

    dev.0.add_prop_listener(&mut hw, &addr, listener).unwrap();
    dev.0.set_prop(&mut hw, &addr, PropValue::U32(128)).unwrap();
    let notices = hw.take_pending_notices();
    assert_eq!(notices.len(), 1);
    assert_eq!(notices[0].listener, listener);
    assert_eq!(notices[0].obj_id, dev.0 .0);
    assert_eq!(notices[0].addr, addr);

    dev.0.remove_prop_listener(&mut hw, &addr, listener).unwrap();
    dev.0.set_prop(&mut hw, &addr, PropValue::U32(64)).unwrap();
    let notices = hw.take_pending_notices();
    assert!(notices.iter().all(|n| n.listener != listener));
}

#[test]
fn wildcard_listener_covers_all() {
    let (mut hw, dev) = demo_hardware();
    let wild = PropAddr {
        selector: PropSelector::wildcard(),
        scope: PropScope::wildcard(),
        element: PropElement::wildcard(),
    };
    dev.0.add_prop_listener(&mut hw, &wild, 9).unwrap();
    let addr = PropSelector::device_buf_frame_size().global_addr();
    dev.0.set_prop(&mut hw, &addr, PropValue::U32(96)).unwrap();
    let notices = hw.take_pending_notices();
    assert_eq!(notices.len(), 1);
    assert_eq!(notices[0].listener, 9);
    assert_eq!(notices[0].addr, addr);
}

#[test]
fn tap_and_aggregate_lifecycle() {
    // a tap on every process, an aggregate device over the default output
    // and that tap; destroying the aggregate removes it from the device
    // list
    let (mut hw, dev) = demo_hardware();
    let tap_desc = TapDesc::with_stereo_global_tap_excluding_processes(&ns::Array::new());
    assert!(tap_desc.processes.is_empty());
    let tap = tap_desc.create_process_tap(&mut hw).unwrap();

    let output_uid = dev.uid(&hw).unwrap();
    let desc = Composition {
        uid: "F1F7B873-0000-4000-8000-000000000001".to_owned(),
        name: "Tap".to_owned(),
        main_sub_device: output_uid.clone(),
        clock_device: String::new(),
        sub_devices: vec![SubDevice { uid: output_uid, drift_compensation: true }],
        tap_uids: vec![tap.uid(&hw).unwrap()],
        is_private: true,
        is_stacked: false,
        tap_auto_start: true,
    };
    let agg = AggregateDevice::with_desc(&mut hw, desc).unwrap();
    let agg_obj = agg.0 .0;
    assert_eq!(agg_obj.class(&hw).unwrap(), Class::aggregate_device());

    let composition = agg.composition(&hw).unwrap();
    assert!(composition.is_private);
    assert_eq!(composition.sub_devices.len(), 1);

    let before = System::devices(&hw).unwrap();
    assert!(before.iter().any(|d| d.0 == agg_obj));

    agg.destroy(&mut hw).unwrap();
    let after = System::devices(&hw).unwrap();
    assert!(!after.iter().any(|d| d.0 == agg_obj));
    assert!(agg_obj.class(&hw).is_err());

    tap.destroy(&mut hw).unwrap();
}

#[test]
fn selector_codes_match_their_mnemonics() {
    assert_eq!(PropSelector::hardware_devices().0, u32::from_be_bytes(*b"dev#"));
    assert_eq!(PropSelector::hardware_default_input_device().0, u32::from_be_bytes(*b"dIn "));
    assert_eq!(PropSelector::hardware_default_output_device().0, u32::from_be_bytes(*b"dOut"));
    assert_eq!(PropSelector::process_pid().0, u32::from_be_bytes(*b"ppid"));
    assert_eq!(PropSelector::device_uid().0, u32::from_be_bytes(*b"uid "));
    assert_eq!(PropSelector::tap_uid().0, u32::from_be_bytes(*b"tuid"));
    assert_eq!(PropSelector::aggregate_device_composition().0, u32::from_be_bytes(*b"acom"));
    assert_eq!(Class::system().0, u32::from_be_bytes(*b"asys"));
    assert_eq!(PropScope::global().0, u32::from_be_bytes(*b"glob"));
    assert_eq!(cidre::four_cc::four_cc(b'l', b'p', b'c', b'm'), u32::from_be_bytes(*b"lpcm"));
}

#[test]
fn clock_device_selectors_collide() {
    // two selectors of different object classes share the code `apcd`;
    // both names are kept on purpose
    assert_eq!(
        PropSelector::device_clock_device(),
        PropSelector::aggregate_device_clock_device()
    );
}

#[test]
fn status_codes() {
    assert_eq!(Status::no_err().0, 0);
    assert!(Status::no_err().result().is_ok());
    assert_eq!(Status::bad_object().0, u32::from_be_bytes(*b"!obj") as i32);
    assert_eq!(Status::unknown_property().0, u32::from_be_bytes(*b"who?") as i32);
    assert_eq!(Status::bad_property_size().0, u32::from_be_bytes(*b"!siz") as i32);
    assert_eq!(Status::unsupported_operation().0, u32::from_be_bytes(*b"unop") as i32);
    let err = Status::bad_object().result().unwrap_err();
    assert_eq!(err.0, Status::bad_object());
}

#[test]
fn stream_cfg_reports_channels() {
    let mut hw = Hardware::new();
    let dev = hw.install_device(
        "DuplexUID".to_owned(),
        "Duplex".to_owned(),
        vec![1, 2],
        vec![2],
    );
    let cfg = dev.input_stream_cfg(&hw).unwrap();
    assert_eq!(cfg.number_buffers(), 2);
    assert_eq!(cfg.buffers[0].number_channels, 1);
    assert_eq!(cfg.buffers[1].number_channels, 2);
    let out = dev.output_stream_cfg(&hw).unwrap();
    assert_eq!(out.number_buffers(), 1);
    let name = dev.0.name(&hw).unwrap();
    assert_eq!(name, "Duplex");
}

#[test]
fn composition_keys() {
    assert_eq!(cidre::core_audio::aggregate_device_keys::uid(), "uid");
    assert_eq!(cidre::core_audio::aggregate_device_keys::name(), "name");
    assert_eq!(cidre::core_audio::aggregate_device_keys::sub_device_list(), "subdevices");
    assert_eq!(cidre::core_audio::aggregate_device_keys::main_sub_device(), "master");
    assert_eq!(cidre::core_audio::aggregate_device_keys::clock_device(), "clock");
    assert_eq!(cidre::core_audio::aggregate_device_keys::is_private(), "private");
    assert_eq!(cidre::core_audio::aggregate_device_keys::is_stacked(), "stacked");
    assert_eq!(cidre::core_audio::aggregate_device_keys::tap_list(), "taps");
    assert_eq!(cidre::core_audio::aggregate_device_keys::tap_auto_start(), "tapautostart");
    assert_eq!(cidre::core_audio::sub_device_keys::uid(), "uid");
    assert_eq!(cidre::core_audio::sub_tap_keys::drift_compensation(), "drift");
}

#[test]
fn qualified_translation() {
    let (mut hw, dev) = demo_hardware();
    let proc_obj = hw.install_process(515, "com.example.mixer".to_owned(), vec![]);
    let sys = System::obj();

    // a process id translates to its process object
    let addr = PropSelector::hardware_translate_pid_to_process_obj().global_addr();
    let found = sys.prop_with_qualifier(&hw, &addr, &PropValue::I32(515)).unwrap();
    assert_eq!(found, PropValue::U32(proc_obj.0 .0));
    let missing = sys.prop_with_qualifier(&hw, &addr, &PropValue::I32(1)).unwrap();
    assert_eq!(missing, PropValue::U32(0));

    // a device uid translates to its device
    let addr = PropSelector::hardware_translate_uid_to_device().global_addr();
    let uid = PropValue::Str("BuiltInSpeakerUID".to_owned());
    let found = sys.prop_with_qualifier(&hw, &addr, &uid).unwrap();
    assert_eq!(found, PropValue::U32(dev.0 .0));
    let nobody = PropValue::Str("NoSuchUID".to_owned());
    assert_eq!(sys.prop_with_qualifier(&hw, &addr, &nobody).unwrap(), PropValue::U32(0));

    // a qualifier of the wrong shape is a size failure
    let wrong = sys.prop_with_qualifier(&hw, &addr, &PropValue::U32(3)).unwrap_err();
    assert_eq!(wrong.0, Status::bad_property_size());

    // any other address ignores the qualifier
    let plain = dev
        .0
        .prop_with_qualifier(&hw, &PropSelector::device_buf_frame_size().global_addr(), &uid)
        .unwrap();
    assert_eq!(plain, PropValue::U32(512));
}
