use jalwa::hardware::{
    detect_optical_type, is_class_relevant, is_media_relevant, is_on_removable_device, Device, DeviceClass,
    DeviceEvent, DeviceEventKind, DeviceState, DiscType, HardwareEvent, HardwareManager,
};

fn make_usb_device(id: &str, mounted: bool) -> Device {
    let mut info = Device::new(id, &format!("/dev/{id}"), DeviceClass::UsbStorage);
    if mounted {
        info.state = DeviceState::Mounted;
        info.mount_point = Some(format!("/mnt/{id}"));
    }
    info.label = Some("Test USB".into());
    info
}

fn make_optical_device(id: &str, has_media: bool) -> Device {
    let mut info = Device::new(id, &format!("/dev/{id}"), DeviceClass::Optical);
    if has_media {
        info.state = DeviceState::Ready;
        info.fs_type = Some("iso9660".into());
    } else {
        info.state = DeviceState::NoMedia;
    }
    info
}

fn event(id: &str, class: DeviceClass, kind: DeviceEventKind) -> DeviceEvent {
    DeviceEvent { device_id: id.to_string(), device_class: class, kind, device_info: None }
}

#[test]
fn new_creates_empty_manager() {
    let hw = HardwareManager::new();
    assert!(hw.devices().is_empty());
    assert!(hw.active_playback_paths().is_empty());
}

#[test]
fn register_and_unregister_playback_path() {
    let mut hw = HardwareManager::new();
    let path = "/mnt/usb/music/song.flac".to_string();

    hw.register_playback_path(path.clone());
    assert_eq!(hw.active_playback_paths().len(), 1);

    hw.register_playback_path(path.clone());
    assert_eq!(hw.active_playback_paths().len(), 1);

    hw.unregister_playback_path(&path);
    assert!(hw.active_playback_paths().is_empty());
}

#[test]
fn handle_device_info_usb_mounted() {
    let mut hw = HardwareManager::new();
    let info = make_usb_device("sdb1", true);

    let events = hw.handle_device_info(info);

    assert!(hw.device("sdb1").is_some());
    assert_eq!(events.len(), 1);
    match &events[0] {
        HardwareEvent::UsbMounted { device_id, label, mount_point } => {
            assert_eq!(device_id, "sdb1");
            assert_eq!(label, "Test USB");
            assert_eq!(mount_point, "/mnt/sdb1");
        },
        other => panic!("unexpected event {other:?}"),
    }
}

#[test]
fn handle_device_info_usb_not_mounted() {
    let mut hw = HardwareManager::new();
    let events = hw.handle_device_info(make_usb_device("sdb1", false));
    assert_eq!(hw.devices().len(), 1);
    assert!(events.is_empty());
}

#[test]
fn handle_device_info_optical_with_media() {
    let mut hw = HardwareManager::new();
    let events = hw.handle_device_info(make_optical_device("sr0", true));
    assert!(matches!(events[0], HardwareEvent::DiscInserted { disc_type: DiscType::CdData, .. }));
}

#[test]
fn handle_device_info_optical_no_media() {
    let mut hw = HardwareManager::new();
    let events = hw.handle_device_info(make_optical_device("sr0", false));
    assert_eq!(hw.devices().len(), 1);
    assert!(events.is_empty());
}

#[test]
fn handle_device_info_replaces_same_id() {
    let mut hw = HardwareManager::new();
    hw.handle_device_info(make_usb_device("sdb1", false));
    hw.handle_device_info(make_usb_device("sdb1", true));
    assert_eq!(hw.devices().len(), 1);
    assert!(hw.device("sdb1").unwrap().is_mounted());
}

#[test]
fn handle_detach_usb() {
    let mut hw = HardwareManager::new();
    hw.handle_device_info(make_usb_device("sdb1", true));

    let events = hw.handle_detach("sdb1", DeviceClass::UsbStorage);

    assert!(hw.device("sdb1").is_none());
    assert!(matches!(events[0], HardwareEvent::UsbRemoved { .. }));
}

#[test]
fn handle_detach_optical() {
    let mut hw = HardwareManager::new();
    hw.handle_device_info(make_optical_device("sr0", true));

    let events = hw.handle_detach("sr0", DeviceClass::Optical);

    assert!(hw.device("sr0").is_none());
    assert!(matches!(events[0], HardwareEvent::DiscEjected { .. }));
}

#[test]
fn handle_detach_during_playback() {
    let mut hw = HardwareManager::new();
    hw.handle_device_info(make_usb_device("sdb1", true));
    hw.register_playback_path("/mnt/sdb1/music/song.flac".to_string());

    let events = hw.handle_detach("sdb1", DeviceClass::UsbStorage);

    assert_eq!(events.len(), 2);
    assert!(matches!(events[0], HardwareEvent::PlaybackDeviceRemoved { .. }));
    assert!(matches!(events[1], HardwareEvent::UsbRemoved { .. }));
}

#[test]
fn handle_detach_unknown_usb_uses_id_as_label() {
    let mut hw = HardwareManager::new();
    let events = hw.handle_detach("sdz", DeviceClass::UsbStorage);
    match &events[0] {
        HardwareEvent::UsbRemoved { device_id, label } => {
            assert_eq!(device_id, "sdz");
            assert_eq!(label, "sdz");
        },
        other => panic!("unexpected event {other:?}"),
    }
}

#[test]
fn handle_mount_updates_state() {
    let mut hw = HardwareManager::new();
    hw.handle_device_info(make_usb_device("sdb1", false));

    let events = hw.handle_mount("sdb1", "/mnt/usb".to_string());

    let device = hw.device("sdb1").unwrap();
    assert_eq!(device.state, DeviceState::Mounted);
    assert_eq!(device.mount_point, Some("/mnt/usb".to_string()));
    assert!(matches!(events[0], HardwareEvent::UsbMounted { .. }));
}

#[test]
fn mounted_usb_devices_filter() {
    let mut hw = HardwareManager::new();
    hw.handle_device_info(make_usb_device("a", true));
    hw.handle_device_info(make_usb_device("b", false));
    hw.handle_device_info(make_optical_device("c", true));

    let mounted = hw.mounted_usb_devices();
    assert_eq!(mounted.len(), 1);
    assert_eq!(mounted[0].id, "a");
}

#[test]
fn optical_drives_filter() {
    let mut hw = HardwareManager::new();
    hw.handle_device_info(make_usb_device("a", true));
    hw.handle_device_info(make_optical_device("sr0", true));
    hw.handle_device_info(make_optical_device("sr1", false));

    let drives = hw.optical_drives();
    assert_eq!(drives.len(), 2);
}

#[test]
fn is_class_relevant_usb() {
    assert!(is_class_relevant(DeviceClass::UsbStorage));
    assert!(is_class_relevant(DeviceClass::Optical));
    assert!(is_class_relevant(DeviceClass::SdCard));
}

#[test]
fn is_class_relevant_internal_not() {
    assert!(!is_class_relevant(DeviceClass::BlockInternal));
    assert!(!is_class_relevant(DeviceClass::Network));
    assert!(!is_class_relevant(DeviceClass::Loop));
    assert!(!is_class_relevant(DeviceClass::DeviceMapper));
    assert!(!is_class_relevant(DeviceClass::Unknown));
}

#[test]
fn is_media_relevant_usb() {
    let info = make_usb_device("sdb1", true);
    assert!(is_media_relevant(&info));
}

#[test]
fn is_media_relevant_internal_no() {
    let info = Device::new("sda", "/dev/sda", DeviceClass::BlockInternal);
    assert!(!is_media_relevant(&info));
}

#[test]
fn detect_optical_type_iso9660() {
    let mut info = make_optical_device("sr0", true);
    info.fs_type = Some("iso9660".into());
    assert_eq!(detect_optical_type(&info), DiscType::CdData);
}

#[test]
fn detect_optical_type_udf() {
    let mut info = make_optical_device("sr0", true);
    info.fs_type = Some("udf".into());
    assert_eq!(detect_optical_type(&info), DiscType::DvdRom);
}

#[test]
fn detect_optical_type_unknown_fs() {
    let mut info = make_optical_device("sr0", true);
    info.fs_type = Some("ntfs".into());
    assert_eq!(detect_optical_type(&info), DiscType::Unknown);
}

#[test]
fn detect_optical_type_no_fs() {
    let mut no_fs = make_optical_device("sr0", true);
    no_fs.fs_type = None;
    assert_eq!(detect_optical_type(&no_fs), DiscType::Unknown);
}

#[test]
fn detect_optical_type_media_names() {
    let mut info = make_optical_device("sr0", true);
    info.fs_type = Some("DVD-ROM".into());
    assert_eq!(detect_optical_type(&info), DiscType::DvdRom);
    info.fs_type = Some("cd".into());
    assert_eq!(detect_optical_type(&info), DiscType::CdData);
    info.fs_type = Some("Blu-Ray".into());
    assert_eq!(detect_optical_type(&info), DiscType::BluRay);
}

#[test]
fn is_on_removable_device_found() {
    let dev = make_usb_device("sdb1", true);
    let devices = vec![&dev];
    let result = is_on_removable_device("/mnt/sdb1/music/song.flac", &devices);
    assert_eq!(result, Some("sdb1".to_string()));
}

#[test]
fn is_on_removable_device_not_found() {
    let dev = make_usb_device("sdb1", true);
    let devices = vec![&dev];
    let result = is_on_removable_device("/home/user/music/song.flac", &devices);
    assert!(result.is_none());
}

#[test]
fn is_on_removable_device_empty() {
    let devices: Vec<&Device> = vec![];
    let result = is_on_removable_device("/mnt/usb/song.flac", &devices);
    assert!(result.is_none());
}

#[test]
fn is_on_removable_device_whole_components() {
    let dev = make_usb_device("sdb1", true);
    let devices = vec![&dev];
    assert!(is_on_removable_device("/mnt/sdb10/song.flac", &devices).is_none());
}

#[test]
fn handle_yukti_event_attach() {
    let mut hw = HardwareManager::new();
    let info = make_usb_device("sdb1", true);
    let mut ev = event("sdb1", DeviceClass::UsbStorage, DeviceEventKind::Attached);
    ev.device_info = Some(info);

    let events = hw.handle_yukti_event(ev);

    assert_eq!(hw.devices().len(), 1);
    assert!(matches!(events[0], HardwareEvent::UsbMounted { .. }));
}

#[test]
fn handle_yukti_event_detach() {
    let mut hw = HardwareManager::new();
    hw.handle_device_info(make_usb_device("sdb1", true));

    let events = hw.handle_yukti_event(event("sdb1", DeviceClass::UsbStorage, DeviceEventKind::Detached));

    assert!(hw.devices().is_empty());
    assert!(matches!(events[0], HardwareEvent::UsbRemoved { .. }));
}

#[test]
fn handle_yukti_event_mounted() {
    let mut hw = HardwareManager::new();
    hw.handle_device_info(make_usb_device("sdb1", false));

    let events = hw.handle_yukti_event(event(
        "sdb1",
        DeviceClass::UsbStorage,
        DeviceEventKind::Mounted { mount_point: "/mnt/usb".to_string() },
    ));

    assert!(hw.device("sdb1").unwrap().is_mounted());
    assert!(matches!(events[0], HardwareEvent::UsbMounted { .. }));
}

#[test]
fn handle_yukti_event_media_changed_optical() {
    let mut hw = HardwareManager::new();
    hw.handle_device_info(make_optical_device("sr0", true));

    let events = hw.handle_yukti_event(event("sr0", DeviceClass::Optical, DeviceEventKind::MediaChanged));

    assert!(matches!(events[0], HardwareEvent::DiscInserted { .. }));
}

#[test]
fn handle_yukti_event_error() {
    let mut hw = HardwareManager::new();

    let events = hw.handle_yukti_event(event(
        "sdb1",
        DeviceClass::UsbStorage,
        DeviceEventKind::Error { message: "IO fault".into() },
    ));

    match &events[0] {
        HardwareEvent::DeviceError { message, .. } => assert_eq!(message, "IO fault"),
        _ => panic!("expected DeviceError"),
    }
}

#[test]
fn handle_yukti_event_irrelevant_class_ignored() {
    let mut hw = HardwareManager::new();

    let events = hw.handle_yukti_event(event("nvme0n1", DeviceClass::BlockInternal, DeviceEventKind::Attached));

    assert!(hw.devices().is_empty());
    assert!(events.is_empty());
}

#[test]
fn handle_yukti_event_unmounted() {
    let mut hw = HardwareManager::new();
    hw.handle_device_info(make_usb_device("sdb1", true));

    hw.handle_yukti_event(event("sdb1", DeviceClass::UsbStorage, DeviceEventKind::Unmounted));

    let device = hw.device("sdb1").unwrap();
    assert_eq!(device.state, DeviceState::Ready);
    assert!(device.mount_point.is_none());
}

#[test]
fn safe_eject_unknown_device() {
    let hw = HardwareManager::new();
    let result = hw.safe_eject("nonexistent");
    assert!(result.is_err());
    assert_eq!(result.unwrap_err().to_string(), "media not found: device nonexistent");
}

#[test]
fn safe_eject_warns_when_playing() {
    let mut hw = HardwareManager::new();
    hw.handle_device_info(make_usb_device("sdb1", true));
    assert!(hw.safe_eject("sdb1").unwrap().is_empty());
    hw.register_playback_path("/mnt/sdb1/a.flac".to_string());
    let events = hw.safe_eject("sdb1").unwrap();
    assert!(matches!(events[0], HardwareEvent::PlaybackDeviceRemoved { .. }));
}

#[test]
fn display_name_prefers_label_then_model() {
    let mut d = Device::new("x", "/dev/x", DeviceClass::UsbStorage);
    assert_eq!(d.display_name(), "/dev/x");
    d.model = Some("Stick".into());
    assert_eq!(d.display_name(), "Stick");
    d.label = Some("Mine".into());
    assert_eq!(d.display_name(), "Mine");
}

fn attach(device: Device) -> DeviceEvent {
    DeviceEvent {
        device_id: device.id.clone(),
        device_class: device.class,
        kind: DeviceEventKind::Attached,
        device_info: Some(device),
    }
}

#[test]
fn hardware_usb_lifecycle() {
    let mut hw = HardwareManager::new();
    let events = hw.handle_yukti_event(attach(make_usb_device("sdb1", true)));
    assert_eq!(hw.devices().len(), 1);
    assert_eq!(hw.mounted_usb_devices().len(), 1);
    assert_eq!(events.len(), 1);
    match &events[0] {
        HardwareEvent::UsbMounted { device_id, mount_point, .. } => {
            assert_eq!(device_id, "sdb1");
            assert_eq!(mount_point, "/mnt/sdb1");
        },
        other => panic!("expected UsbMounted, got {other:?}"),
    }

    hw.handle_yukti_event(event("sdb1", DeviceClass::UsbStorage, DeviceEventKind::Unmounted));
    assert_eq!(hw.devices().len(), 1);
    assert_eq!(hw.mounted_usb_devices().len(), 0);

    let events = hw.handle_yukti_event(event("sdb1", DeviceClass::UsbStorage, DeviceEventKind::Detached));
    assert!(hw.devices().is_empty());
    assert!(matches!(events.last(), Some(HardwareEvent::UsbRemoved { .. })));
}

#[test]
fn hardware_optical_lifecycle() {
    let mut hw = HardwareManager::new();
    let events = hw.handle_yukti_event(attach(make_optical_device("sr0", true)));
    assert_eq!(hw.optical_drives().len(), 1);
    match &events[0] {
        HardwareEvent::DiscInserted { device_id, .. } => assert_eq!(device_id, "sr0"),
        other => panic!("expected DiscInserted, got {other:?}"),
    }

    let events = hw.handle_yukti_event(event("sr0", DeviceClass::Optical, DeviceEventKind::MediaChanged));
    assert!(matches!(events.first(), Some(HardwareEvent::DiscInserted { .. })));

    let events = hw.handle_yukti_event(event("sr0", DeviceClass::Optical, DeviceEventKind::Detached));
    assert!(hw.devices().is_empty());
    assert!(matches!(events.last(), Some(HardwareEvent::DiscEjected { .. })));
}

#[test]
fn hardware_playback_device_removal() {
    let mut hw = HardwareManager::new();
    hw.handle_yukti_event(attach(make_usb_device("sdc1", true)));
    hw.register_playback_path("/mnt/sdc1/music/album/track03.flac".to_string());
    let events = hw.handle_yukti_event(event("sdc1", DeviceClass::UsbStorage, DeviceEventKind::Detached));
    assert_eq!(events.len(), 2);
    match &events[0] {
        HardwareEvent::PlaybackDeviceRemoved { device_id, mount_point } => {
            assert_eq!(device_id, "sdc1");
            assert_eq!(mount_point, "/mnt/sdc1");
        },
        other => panic!("expected PlaybackDeviceRemoved, got {other:?}"),
    }
    assert!(matches!(&events[1], HardwareEvent::UsbRemoved { .. }));
}

#[test]
fn hardware_usb_auto_scan_path() {
    let mut hw = HardwareManager::new();
    let events = hw.handle_yukti_event(attach(make_usb_device("sdd1", false)));
    assert!(events.is_empty());
    let events = hw.handle_yukti_event(event(
        "sdd1",
        DeviceClass::UsbStorage,
        DeviceEventKind::Mounted { mount_point: "/media/user/MyMusic".to_string() },
    ));
    let mount_point = match &events[0] {
        HardwareEvent::UsbMounted { mount_point, .. } => mount_point.clone(),
        other => panic!("expected UsbMounted, got {other:?}"),
    };
    let mut lib = jalwa::library::Library::new();
    lib.add_scan_path(mount_point.clone());
    assert!(lib.scan_paths.contains(&mount_point));
    assert_eq!(mount_point, "/media/user/MyMusic");
}

#[test]
fn library_with_hardware_devices() {
    let usb_dev = make_usb_device("sdb1", true);
    let optical_dev = make_optical_device("sr0", true);
    let devices: Vec<&Device> = vec![&usb_dev, &optical_dev];

    let mut item_on_usb = jalwa::media::make_media_item("USB Song", "USB Artist", 180);
    item_on_usb.path = "/mnt/sdb1/music/song.flac".to_string();
    let mut item_internal = jalwa::media::make_media_item("Local Song", "Local Artist", 240);
    item_internal.path = "/home/user/Music/song.flac".to_string();

    assert_eq!(is_on_removable_device(&item_on_usb.path, &devices), Some("sdb1".to_string()));
    assert!(is_on_removable_device(&item_internal.path, &devices).is_none());

    let mut lib = jalwa::library::Library::new();
    let usb_id = lib.add_item(item_on_usb);
    let local_id = lib.add_item(item_internal);
    assert!(lib.find_by_id(usb_id).is_some());
    assert!(lib.find_by_id(local_id).is_some());
    assert_eq!(lib.search("USB Song").len(), 1);
    assert_eq!(lib.search("Local Song").len(), 1);
}
