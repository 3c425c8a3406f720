//! The audio hardware property store.

use cidre::core_audio::{
    err_bad_prop_size, err_unknown_property, AudioHw, AudioObjId, AudioObjPropAddr,
    AudioObjPropElement, AudioObjPropScope, AudioObjPropSelector,
};

fn input_addr() -> AudioObjPropAddr {
    AudioObjPropAddr {
        selector: AudioObjPropSelector::hardware_default_input_device(),
        scope: AudioObjPropScope::global(),
        element: AudioObjPropElement::main(),
    }
}

#[test]
fn list_devices() {
    let mut hw = AudioHw::new();
    let sys = AudioObjId::sys_object();
    hw.add_entry(sys, input_addr(), vec![42]);
    let devices_addr = AudioObjPropAddr {
        selector: AudioObjPropSelector::hardware_devices(),
        scope: AudioObjPropScope::input(),
        element: AudioObjPropElement::main(),
    };
    hw.add_entry(sys, devices_addr, vec![42, 43]);

    let _device_id: AudioObjId = sys.prop(&hw, &input_addr()).unwrap();

    let devices: Vec<AudioObjId> = sys.prop_vec(&hw, &devices_addr).unwrap();
    assert!(!devices.is_empty());

    let name_addr = AudioObjPropAddr {
        selector: AudioObjPropSelector::name(),
        scope: AudioObjPropScope::global(),
        element: AudioObjPropElement::main(),
    };
    let man_addr = AudioObjPropAddr {
        selector: AudioObjPropSelector::manufacturer(),
        scope: AudioObjPropScope::global(),
        element: AudioObjPropElement::main(),
    };
    for d in &devices {
        hw.add_str_entry(*d, name_addr, String::from("Built-in"));
        hw.add_str_entry(*d, man_addr, String::from("Acme Audio"));
    }
    for d in devices {
        let _val: String = d.cf_prop(&hw, &name_addr).unwrap();
        let _val: String = d.cf_prop(&hw, &man_addr).unwrap();
    }
}

#[test]
fn prop_reads_the_first_word() {
    let mut hw = AudioHw::new();
    let sys = AudioObjId::sys_object();
    hw.add_entry(sys, input_addr(), vec![7, 8]);

    assert_eq!(sys.prop(&hw, &input_addr()), Ok(AudioObjId(7)));
    assert_eq!(sys.prop_size(&hw, &input_addr()), Ok(8));
}

#[test]
fn missing_property_reports_unknown() {
    let hw = AudioHw::new();
    let sys = AudioObjId::sys_object();
    assert_eq!(sys.prop(&hw, &input_addr()), Err(err_unknown_property()));
    assert_eq!(sys.prop_size(&hw, &input_addr()), Err(err_unknown_property()));
    assert!(sys.prop_vec(&hw, &input_addr()).is_err());
}

#[test]
fn empty_property_reports_bad_size() {
    let mut hw = AudioHw::new();
    let sys = AudioObjId::sys_object();
    hw.add_entry(sys, input_addr(), vec![]);
    assert_eq!(sys.prop(&hw, &input_addr()), Err(err_bad_prop_size()));
}

#[test]
fn set_prop_replaces_the_stored_value() {
    let mut hw = AudioHw::new();
    let sys = AudioObjId::sys_object();
    hw.add_entry(sys, input_addr(), vec![1]);

    assert_eq!(sys.set_prop(&mut hw, &input_addr(), vec![9]), Ok(()));
    assert_eq!(sys.prop(&hw, &input_addr()), Ok(AudioObjId(9)));

    // Writing a property the object does not have fails.
    let dev = AudioObjId(99);
    assert_eq!(
        dev.set_prop(&mut hw, &input_addr(), vec![5]),
        Err(err_unknown_property())
    );
}

#[test]
fn stream_cfg_lists_channel_counts() {
    let mut hw = AudioHw::new();
    let dev = AudioObjId(42);
    let cfg_addr = AudioObjPropAddr {
        selector: AudioObjPropSelector::stream_cfg(),
        scope: AudioObjPropScope::input(),
        element: AudioObjPropElement::wildcard(),
    };
    hw.add_entry(dev, cfg_addr, vec![2, 1]);

    let cfg = dev.input_stream_cfg(&hw).unwrap();
    assert_eq!(cfg.buffers_len(), 2);
    assert_eq!(cfg.channels(0), 2);
    assert_eq!(cfg.channels(1), 1);

    assert!(dev.output_stream_cfg(&hw).is_err());
}

#[test]
fn default_devices_come_from_their_addresses() {
    let mut hw = AudioHw::new();
    let sys = AudioObjId::sys_object();
    hw.add_entry(sys, input_addr(), vec![11]);
    let out_addr = AudioObjPropAddr {
        selector: AudioObjPropSelector::hardware_default_output_device(),
        scope: AudioObjPropScope::global(),
        element: AudioObjPropElement::main(),
    };
    hw.add_entry(sys, out_addr, vec![12]);
    let devs_addr = AudioObjPropAddr {
        selector: AudioObjPropSelector::hardware_devices(),
        scope: AudioObjPropScope::global(),
        element: AudioObjPropElement::wildcard(),
    };
    hw.add_entry(sys, devs_addr, vec![11, 12]);

    assert_eq!(sys.default_input_device(&hw), Ok(AudioObjId(11)));
    assert_eq!(sys.default_output_device(&hw), Ok(AudioObjId(12)));
    let devs = sys.hardware_devices(&hw).unwrap();
    assert_eq!(devs, vec![AudioObjId(11), AudioObjId(12)]);
}
