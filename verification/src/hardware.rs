//! Removable devices as the media player sees them: USB storage, optical
//! drives and card readers, the events they raise, and the bookkeeping
//! that turns raw device events into player-level notifications.
//!
//! The device monitor itself (udev, ioctl calls, ejecting) runs outside the
//! library; it hands device records and events in, and carries the
//! notifications this module returns out to the user interface.

use vstd::prelude::*;
use crate::seqs::{first, is_first, keep, lemma_first_exists, lemma_first_is, lemma_first_none, lemma_keep_step};
use crate::errors::{JalwaError, JalwaErrorView};
use crate::paths::{path_eq, path_starts_with, spec_path_eq, spec_path_starts_with};
use crate::text::{copy_opt_string, copy_string, eq_ignore_ascii_case, opt_seq, push_str, text_eq};

verus! {

/// Kind of block device.
#[derive(Debug, Clone, Copy, PartialEq, Eq, Structural)]
pub enum DeviceClass {
    UsbStorage,
    Optical,
    BlockInternal,
    SdCard,
    Network,
    Loop,
    DeviceMapper,
    Unknown,
}

/// Lifecycle state of a device.
#[derive(Debug, Clone, Copy, PartialEq, Eq, Structural)]
pub enum DeviceState {
    Ready,
    Mounted,
    NoMedia,
    Ejecting,
    Detached,
    Error,
}

/// Kind of disc in an optical drive.
#[derive(Debug, Clone, Copy, PartialEq, Eq, Structural)]
pub enum DiscType {
    CdAudio,
    CdData,
    CdMixed,
    DvdRom,
    DvdWritable,
    DvdVideo,
    BluRay,
    BluRayVideo,
    Blank,
    Unknown,
}

/// What the player knows about one device.
#[derive(Debug)]
pub struct Device {
    pub id: String,
    pub dev_path: String,
    pub class: DeviceClass,
    pub state: DeviceState,
    pub label: Option<String>,
    pub model: Option<String>,
    pub fs_type: Option<String>,
    pub mount_point: Option<String>,
}

/// The abstract value of a [`Device`].
pub struct DeviceView {
    pub id: Seq<char>,
    pub dev_path: Seq<char>,
    pub class: DeviceClass,
    pub state: DeviceState,
    pub label: Option<Seq<char>>,
    pub model: Option<Seq<char>>,
    pub fs_type: Option<Seq<char>>,
    pub mount_point: Option<Seq<char>>,
}

impl View for Device {
    type V = DeviceView;

    open spec fn view(&self) -> DeviceView {
        DeviceView {
            id: self.id@,
            dev_path: self.dev_path@,
            class: self.class,
            state: self.state,
            label: opt_seq(self.label),
            model: opt_seq(self.model),
            fs_type: opt_seq(self.fs_type),
            mount_point: opt_seq(self.mount_point),
        }
    }
}

/// The device is mounted: in the mounted state or with a mount point.
pub open spec fn is_mounted(d: DeviceView) -> bool {
    d.state == DeviceState::Mounted || d.mount_point is Some
}

/// Human-readable name of a device: its label, else its model, else its
/// device node path.
pub open spec fn display_name(d: DeviceView) -> Seq<char> {
    match d.label {
        Some(l) => l,
        None => match d.model {
            Some(m) => m,
            None => d.dev_path,
        },
    }
}

/// Device classes a media player cares about.
pub open spec fn class_relevant(c: DeviceClass) -> bool {
    c == DeviceClass::UsbStorage || c == DeviceClass::Optical || c == DeviceClass::SdCard
}

/// The disc type that a media-type text names, with whether the disc
/// holds audio and data tracks.
pub open spec fn disc_type_for(media: Seq<char>, has_audio: bool, has_data: bool) -> DiscType {
    let is = |lit: Seq<char>| eq_ignore_ascii_case(media, lit);
    if is("cd"@) || is("cd-rom"@) {
        if has_audio && has_data {
            DiscType::CdMixed
        } else if has_audio {
            DiscType::CdAudio
        } else {
            DiscType::CdData
        }
    } else if is("dvd"@) || is("dvd-rom"@) {
        DiscType::DvdRom
    } else if is("dvd-r"@) || is("dvd-rw"@) || is("dvd+r"@) || is("dvd+rw"@) {
        DiscType::DvdWritable
    } else if is("dvd-video"@) {
        DiscType::DvdVideo
    } else if is("bd"@) || is("blu-ray"@) || is("bd-rom"@) {
        DiscType::BluRay
    } else if is("bd-video"@) {
        DiscType::BluRayVideo
    } else if is("blank"@) || is("no_disc"@) {
        DiscType::Blank
    } else {
        DiscType::Unknown
    }
}

/// Calls `yukti::optical::detect_disc_type`, which maps a media-type text
/// (compared ignoring ASCII case) and the audio/data flags to a disc type;
/// the contract restates that mapping as the crate's source has it.
#[verifier::external_body]
fn detect_disc_type(media: &str, has_audio: bool, has_data: bool) -> (res: DiscType)
    ensures
        res == disc_type_for(media@, has_audio, has_data),
{
    match yukti::optical::detect_disc_type(media, has_audio, has_data) {
        yukti::optical::DiscType::CdAudio => DiscType::CdAudio,
        yukti::optical::DiscType::CdData => DiscType::CdData,
        yukti::optical::DiscType::CdMixed => DiscType::CdMixed,
        yukti::optical::DiscType::DvdRom => DiscType::DvdRom,
        yukti::optical::DiscType::DvdWritable => DiscType::DvdWritable,
        yukti::optical::DiscType::DvdVideo => DiscType::DvdVideo,
        yukti::optical::DiscType::BluRay => DiscType::BluRay,
        yukti::optical::DiscType::BluRayVideo => DiscType::BluRayVideo,
        yukti::optical::DiscType::Blank => DiscType::Blank,
        _ => DiscType::Unknown,
    }
}

/// The disc type the player assumes for an optical device: ISO 9660 means
/// a data CD, UDF a DVD, any other file system is looked up as a media
/// type, and without one the type is unknown.
pub open spec fn optical_type(d: DeviceView) -> DiscType {
    match d.fs_type {
        Some(fs) => if fs == "iso9660"@ {
            DiscType::CdData
        } else if fs == "udf"@ {
            DiscType::DvdRom
        } else {
            disc_type_for(fs, false, true)
        },
        None => DiscType::Unknown,
    }
}

impl Device {
    /// A ready device with no label, model, file system or mount point.
    pub fn new(id: &str, dev_path: &str, class: DeviceClass) -> (d: Device)
        ensures
            d@ == (DeviceView {
                id: id@,
                dev_path: dev_path@,
                class: class,
                state: DeviceState::Ready,
                label: None,
                model: None,
                fs_type: None,
                mount_point: None,
            }),
    {
        Device {
            id: id.to_string(),
            dev_path: dev_path.to_string(),
            class,
            state: DeviceState::Ready,
            label: None,
            model: None,
            fs_type: None,
            mount_point: None,
        }
    }

    /// Whether the device is mounted.
    pub fn is_mounted(&self) -> (res: bool)
        ensures
            res == is_mounted(self@),
    {
        self.state == DeviceState::Mounted || self.mount_point.is_some()
    }

    /// The device's human-readable name.
    pub fn display_name(&self) -> (res: String)
        ensures
            res@ == display_name(self@),
    {
        match &self.label {
            Some(l) => copy_string(l),
            None => match &self.model {
                Some(m) => copy_string(m),
                None => copy_string(&self.dev_path),
            },
        }
    }

    /// A copy of the record.
    pub fn copy(&self) -> (res: Device)
        ensures
            res@ == self@,
    {
        Device {
            id: copy_string(&self.id),
            dev_path: copy_string(&self.dev_path),
            class: self.class,
            state: self.state,
            label: copy_opt_string(&self.label),
            model: copy_opt_string(&self.model),
            fs_type: copy_opt_string(&self.fs_type),
            mount_point: copy_opt_string(&self.mount_point),
        }
    }
}

/// Whether a device class is relevant to a media player.
pub fn is_class_relevant(class: DeviceClass) -> (res: bool)
    ensures
        res == class_relevant(class),
{
    match class {
        DeviceClass::UsbStorage | DeviceClass::Optical | DeviceClass::SdCard => true,
        _ => false,
    }
}

/// Whether a device is relevant to a media player (by its class).
pub fn is_media_relevant(info: &Device) -> (res: bool)
    ensures
        res == class_relevant(info.class),
{
    is_class_relevant(info.class)
}

/// The disc type of an optical device, from its file system.
pub fn detect_optical_type(info: &Device) -> (res: DiscType)
    ensures
        res == optical_type(info@),
{
    match &info.fs_type {
        Some(fs) => {
            if text_eq(fs.as_str(), "iso9660") {
                DiscType::CdData
            } else if text_eq(fs.as_str(), "udf") {
                DiscType::DvdRom
            } else {
                detect_disc_type(fs.as_str(), false, true)
            }
        },
        None => DiscType::Unknown,
    }
}


/// Player-level device notifications for the user interface.
#[derive(Debug)]
pub enum HardwareEvent {
    /// A USB storage device was mounted; its mount point can be scanned.
    UsbMounted { device_id: String, label: String, mount_point: String },
    /// A USB storage device was removed.
    UsbRemoved { device_id: String, label: String },
    /// A disc was inserted into an optical drive.
    DiscInserted { device_id: String, disc_type: DiscType, dev_path: String },
    /// A disc was ejected.
    DiscEjected { device_id: String },
    /// A device that playback reads from was removed.
    PlaybackDeviceRemoved { device_id: String, mount_point: String },
    /// A device reported an error.
    DeviceError { device_id: String, message: String },
}

/// The abstract value of a [`HardwareEvent`].
pub enum HardwareEventView {
    UsbMounted { device_id: Seq<char>, label: Seq<char>, mount_point: Seq<char> },
    UsbRemoved { device_id: Seq<char>, label: Seq<char> },
    DiscInserted { device_id: Seq<char>, disc_type: DiscType, dev_path: Seq<char> },
    DiscEjected { device_id: Seq<char> },
    PlaybackDeviceRemoved { device_id: Seq<char>, mount_point: Seq<char> },
    DeviceError { device_id: Seq<char>, message: Seq<char> },
}

impl View for HardwareEvent {
    type V = HardwareEventView;

    open spec fn view(&self) -> HardwareEventView {
        match self {
            HardwareEvent::UsbMounted { device_id, label, mount_point } =>
                HardwareEventView::UsbMounted { device_id: device_id@, label: label@, mount_point: mount_point@ },
            HardwareEvent::UsbRemoved { device_id, label } =>
                HardwareEventView::UsbRemoved { device_id: device_id@, label: label@ },
            HardwareEvent::DiscInserted { device_id, disc_type, dev_path } =>
                HardwareEventView::DiscInserted { device_id: device_id@, disc_type: *disc_type, dev_path: dev_path@ },
            HardwareEvent::DiscEjected { device_id } => HardwareEventView::DiscEjected { device_id: device_id@ },
            HardwareEvent::PlaybackDeviceRemoved { device_id, mount_point } =>
                HardwareEventView::PlaybackDeviceRemoved { device_id: device_id@, mount_point: mount_point@ },
            HardwareEvent::DeviceError { device_id, message } =>
                HardwareEventView::DeviceError { device_id: device_id@, message: message@ },
        }
    }
}

pub open spec fn events_view(s: Seq<HardwareEvent>) -> Seq<HardwareEventView> {
    s.map_values(|e: HardwareEvent| e@)
}

/// What happened to a device, as the device monitor reports it.
#[derive(Debug)]
pub enum DeviceEventKind {
    /// A device appeared.
    Attached,
    /// A device went away.
    Detached,
    /// The medium changed (a new disc).
    MediaChanged,
    /// The device was mounted.
    Mounted { mount_point: String },
    /// The device was unmounted.
    Unmounted,
    /// The device reported an error.
    Error { message: String },
    /// Any other kind of report.
    Other,
}

/// A raw device event.
#[derive(Debug)]
pub struct DeviceEvent {
    pub device_id: String,
    pub device_class: DeviceClass,
    pub kind: DeviceEventKind,
    /// The full device record, where the monitor has one.
    pub device_info: Option<Device>,
}

/// The abstract value of a [`DeviceEventKind`].
pub enum DeviceEventKindView {
    Attached,
    Detached,
    MediaChanged,
    Mounted(Seq<char>),
    Unmounted,
    Error(Seq<char>),
    Other,
}

/// The abstract value of a [`DeviceEvent`].
pub struct DeviceEventView {
    pub device_id: Seq<char>,
    pub device_class: DeviceClass,
    pub kind: DeviceEventKindView,
    pub device_info: Option<DeviceView>,
}

impl View for DeviceEvent {
    type V = DeviceEventView;

    open spec fn view(&self) -> DeviceEventView {
        DeviceEventView {
            device_id: self.device_id@,
            device_class: self.device_class,
            kind: match &self.kind {
                DeviceEventKind::Attached => DeviceEventKindView::Attached,
                DeviceEventKind::Detached => DeviceEventKindView::Detached,
                DeviceEventKind::MediaChanged => DeviceEventKindView::MediaChanged,
                DeviceEventKind::Mounted { mount_point } => DeviceEventKindView::Mounted(mount_point@),
                DeviceEventKind::Unmounted => DeviceEventKindView::Unmounted,
                DeviceEventKind::Error { message } => DeviceEventKindView::Error(message@),
                DeviceEventKind::Other => DeviceEventKindView::Other,
            },
            device_info: match &self.device_info {
                Some(d) => Some(d@),
                None => None,
            },
        }
    }
}


/// The known devices and the paths playback reads from, with the event
/// handling of [`HardwareManager`].
#[derive(Debug)]
struct DeviceTable {
    devices: Vec<Device>,
    active_playback_paths: Vec<String>,
}

/// The abstract value of a [`HardwareManager`].
pub struct HardwareView {
    pub devices: Seq<DeviceView>,
    pub playback_paths: Seq<Seq<char>>,
}

pub open spec fn devices_view(s: Seq<Device>) -> Seq<DeviceView> {
    s.map_values(|d: Device| d@)
}

pub open spec fn device_refs_view(s: Seq<&Device>) -> Seq<DeviceView> {
    s.map_values(|d: &Device| d@)
}

impl View for DeviceTable {
    type V = HardwareView;

    closed spec fn view(&self) -> HardwareView {
        HardwareView {
            devices: devices_view(self.devices@),
            playback_paths: self.active_playback_paths.deep_view(),
        }
    }
}

/// No two known devices share an id.
pub open spec fn ids_unique(devs: Seq<DeviceView>) -> bool {
    forall|i: int, j: int| 0 <= i < j < devs.len() ==> (#[trigger] devs[i]).id != (#[trigger] devs[j]).id
}

/// Index of the device with the given id.
pub open spec fn device_index(devs: Seq<DeviceView>, id: Seq<char>) -> Option<int> {
    first(|i: int| devs[i].id == id, devs.len() as int)
}

/// The device with the given id.
pub open spec fn lookup_device(devs: Seq<DeviceView>, id: Seq<char>) -> Option<DeviceView> {
    match device_index(devs, id) {
        Some(i) => Some(devs[i]),
        None => None,
    }
}

/// The devices after recording `d`: it replaces the device with its id, or
/// joins the end.
pub open spec fn upsert_device(devs: Seq<DeviceView>, d: DeviceView) -> Seq<DeviceView> {
    match device_index(devs, d.id) {
        Some(i) => devs.update(i, d),
        None => devs.push(d),
    }
}

/// The devices after forgetting the one with the given id.
pub open spec fn remove_device(devs: Seq<DeviceView>, id: Seq<char>) -> Seq<DeviceView> {
    match device_index(devs, id) {
        Some(i) => devs.remove(i),
        None => devs,
    }
}

/// A device after it was mounted at `mp`.
pub open spec fn mounted_at(d: DeviceView, mp: Seq<char>) -> DeviceView {
    DeviceView { state: DeviceState::Mounted, mount_point: Some(mp), ..d }
}

/// A device after it was unmounted.
pub open spec fn unmounted(d: DeviceView) -> DeviceView {
    DeviceView { state: DeviceState::Ready, mount_point: None, ..d }
}

/// Some playback path lies under `mount`.
pub open spec fn plays_from(paths: Seq<Seq<char>>, mount: Seq<char>) -> bool {
    exists|k: int| 0 <= k < paths.len() && spec_path_starts_with(#[trigger] paths[k], mount)
}

/// Notifications raised by learning of a device: a mounted USB device can
/// be scanned, and a drive with a disc has one inserted.
pub open spec fn info_events(d: DeviceView) -> Seq<HardwareEventView> {
    match d.class {
        DeviceClass::UsbStorage => match d.mount_point {
            Some(m) => if is_mounted(d) {
                seq![HardwareEventView::UsbMounted { device_id: d.id, label: display_name(d), mount_point: m }]
            } else {
                seq![]
            },
            None => seq![],
        },
        DeviceClass::Optical => if d.state != DeviceState::NoMedia {
            seq![HardwareEventView::DiscInserted { device_id: d.id, disc_type: optical_type(d), dev_path: d.dev_path }]
        } else {
            seq![]
        },
        _ => seq![],
    }
}

/// The warning raised when the device with `id` goes away while playback
/// reads from under its mount point.
pub open spec fn removal_warning(h: HardwareView, id: Seq<char>) -> Seq<HardwareEventView> {
    match lookup_device(h.devices, id) {
        Some(d) => match d.mount_point {
            Some(m) => if plays_from(h.playback_paths, m) {
                seq![HardwareEventView::PlaybackDeviceRemoved { device_id: id, mount_point: m }]
            } else {
                seq![]
            },
            None => seq![],
        },
        None => seq![],
    }
}

/// Notifications raised when the device with `id` and class `class` is
/// detached: the playback warning first, then the removal itself.
pub open spec fn detach_events(h: HardwareView, id: Seq<char>, class: DeviceClass) -> Seq<HardwareEventView> {
    removal_warning(h, id) + match class {
        DeviceClass::UsbStorage => seq![HardwareEventView::UsbRemoved {
            device_id: id,
            label: match lookup_device(h.devices, id) {
                Some(d) => display_name(d),
                None => id,
            },
        }],
        DeviceClass::Optical => seq![HardwareEventView::DiscEjected { device_id: id }],
        _ => seq![],
    }
}

/// Learning of a device: it is recorded and its notifications raised.
pub open spec fn info_step(h: HardwareView, d: DeviceView) -> (HardwareView, Seq<HardwareEventView>) {
    (HardwareView { devices: upsert_device(h.devices, d), ..h }, info_events(d))
}

/// A device is detached: it is forgotten.
pub open spec fn detach_step(h: HardwareView, id: Seq<char>, class: DeviceClass) -> (HardwareView, Seq<HardwareEventView>) {
    (HardwareView { devices: remove_device(h.devices, id), ..h }, detach_events(h, id, class))
}

/// A known device is mounted at `mp`; a USB device can then be scanned.
pub open spec fn mount_step(h: HardwareView, id: Seq<char>, mp: Seq<char>) -> (HardwareView, Seq<HardwareEventView>) {
    match device_index(h.devices, id) {
        Some(i) => {
            let d = mounted_at(h.devices[i], mp);
            (
                HardwareView { devices: h.devices.update(i, d), ..h },
                if d.class == DeviceClass::UsbStorage {
                    seq![HardwareEventView::UsbMounted { device_id: id, label: display_name(d), mount_point: mp }]
                } else {
                    seq![]
                },
            )
        },
        None => (h, seq![]),
    }
}

/// A known device is unmounted.
pub open spec fn unmount_step(h: HardwareView, id: Seq<char>) -> HardwareView {
    match device_index(h.devices, id) {
        Some(i) => HardwareView { devices: h.devices.update(i, unmounted(h.devices[i])), ..h },
        None => h,
    }
}

/// A known optical drive has a new disc.
pub open spec fn optical_change_events(h: HardwareView, id: Seq<char>) -> Seq<HardwareEventView> {
    match lookup_device(h.devices, id) {
        Some(d) => seq![HardwareEventView::DiscInserted { device_id: id, disc_type: optical_type(d), dev_path: d.dev_path }],
        None => seq![],
    }
}

/// The effect of one raw device event: events about devices of other
/// classes are ignored.
pub open spec fn event_step(h: HardwareView, e: DeviceEventView) -> (HardwareView, Seq<HardwareEventView>) {
    if !class_relevant(e.device_class) {
        (h, seq![])
    } else {
        match e.kind {
            DeviceEventKindView::Attached => match e.device_info {
                Some(d) => info_step(h, d),
                None => (h, seq![]),
            },
            DeviceEventKindView::Detached => detach_step(h, e.device_id, e.device_class),
            DeviceEventKindView::Mounted(mp) => mount_step(h, e.device_id, mp),
            DeviceEventKindView::Unmounted => (unmount_step(h, e.device_id), seq![]),
            DeviceEventKindView::MediaChanged => if e.device_class == DeviceClass::Optical {
                (h, optical_change_events(h, e.device_id))
            } else {
                (h, seq![])
            },
            DeviceEventKindView::Error(message) => (h, seq![HardwareEventView::DeviceError { device_id: e.device_id, message }]),
            DeviceEventKindView::Other => (h, seq![]),
        }
    }
}

/// Unique ids survive the removal of one device.
proof fn lemma_remove_keeps_unique(devs: Seq<DeviceView>, i: int)
    requires
        ids_unique(devs),
        0 <= i < devs.len(),
    ensures
        ids_unique(devs.remove(i)),
        forall|k: int| 0 <= k < devs.remove(i).len() ==> (#[trigger] devs.remove(i)[k]).id != devs[i].id,
{
    let r = devs.remove(i);
    assert forall|a: int, b: int| 0 <= a < b < r.len() implies (#[trigger] r[a]).id != (#[trigger] r[b]).id by {
        let a2 = if a < i { a } else { a + 1 };
        let b2 = if b < i { b } else { b + 1 };
        assert(r[a] == devs[a2]);
        assert(r[b] == devs[b2]);
        assert(devs[a2].id != devs[b2].id);
    }
    assert forall|k: int| 0 <= k < r.len() implies (#[trigger] r[k]).id != devs[i].id by {
        let k2 = if k < i { k } else { k + 1 };
        assert(r[k] == devs[k2]);
        if k2 < i {
            assert(devs[k2].id != devs[i].id);
        } else {
            assert(devs[i].id != devs[k2].id);
        }
    }
}

impl DeviceTable {
    /// Its invariant: device ids are unique.
    spec fn wf(&self) -> bool {
        ids_unique(self@.devices)
    }

    /// A manager that knows no device and no playback path.
    fn new() -> (hw: DeviceTable)
        ensures
            hw.wf(),
            hw@.devices.len() == 0,
            hw@.playback_paths.len() == 0,
    {
        let hw = DeviceTable { devices: Vec::new(), active_playback_paths: Vec::new() };
        proof {
            assert(devices_view(hw.devices@) =~= Seq::empty());
            assert(hw.active_playback_paths.deep_view() =~= Seq::<Seq<char>>::empty());
        }
        hw
    }

    /// Index of the device with the given id.
    fn find(&self, id: &str) -> (res: Option<usize>)
        ensures
            match res {
                Some(i) => device_index(self@.devices, id@) == Some(i as int) && i < self@.devices.len(),
                None => device_index(self@.devices, id@) is None,
            },
    {
        let ghost devs = self@.devices;
        let ghost p = |i: int| devs[i].id == id@;
        let mut i: usize = 0;
        while i < self.devices.len()
            invariant
                i <= self.devices.len(),
                devs == devices_view(self.devices@),
                p == (|i: int| devs[i].id == id@),
                forall|j: int| 0 <= j < i ==> !#[trigger] p(j),
            decreases self.devices.len() - i,
        {
            if text_eq(self.devices[i].id.as_str(), id) {
                proof {
                    assert(is_first(p, devs.len() as int, i as int));
                    lemma_first_is(p, devs.len() as int, i as int);
                }
                return Some(i);
            }
            proof {
                assert(devs[i as int] == self.devices@[i as int]@);
            }
            i = i + 1;
        }
        proof {
            lemma_first_none(p, devs.len() as int);
        }
        None
    }

    /// The device with the given id.
    fn device(&self, id: &str) -> (res: Option<&Device>)
        ensures
            match res {
                Some(d) => lookup_device(self@.devices, id@) == Some(d@),
                None => lookup_device(self@.devices, id@) is None,
            },
    {
        match self.find(id) {
            Some(i) => Some(&self.devices[i]),
            None => None,
        }
    }

    /// All known devices.
    fn devices(&self) -> (res: Vec<&Device>)
        ensures
            device_refs_view(res@) == self@.devices,
    {
        let mut out: Vec<&Device> = Vec::new();
        let mut i: usize = 0;
        while i < self.devices.len()
            invariant
                i <= self.devices.len(),
                device_refs_view(out@) == devices_view(self.devices@).take(i as int),
            decreases self.devices.len() - i,
        {
            out.push(&self.devices[i]);
            proof {
                assert(device_refs_view(out@) =~= devices_view(self.devices@).take(i as int).push(devices_view(self.devices@)[i as int]));
                assert(devices_view(self.devices@).take(i as int).push(devices_view(self.devices@)[i as int]) =~= devices_view(self.devices@).take(i + 1));
            }
            i = i + 1;
        }
        assert(devices_view(self.devices@).take(i as int) =~= devices_view(self.devices@));
        out
    }

    /// Whether some playback path lies under `mount`.
    fn plays_from(&self, mount: &str) -> (res: bool)
        ensures
            res == plays_from(self@.playback_paths, mount@),
    {
        let ghost paths = self@.playback_paths;
        let mut i: usize = 0;
        while i < self.active_playback_paths.len()
            invariant
                i <= self.active_playback_paths.len(),
                paths == self.active_playback_paths.deep_view(),
                paths.len() == self.active_playback_paths.len(),
                forall|k: int| 0 <= k < i ==> !spec_path_starts_with(#[trigger] paths[k], mount@),
            decreases self.active_playback_paths.len() - i,
        {
            assert(paths[i as int] == self.active_playback_paths@[i as int]@);
            if path_starts_with(self.active_playback_paths[i].as_str(), mount) {
                return true;
            }
            i = i + 1;
        }
        false
    }

    /// Registers a path that playback reads from. A path equal to one
    /// already registered is not added again.
    fn register_playback_path(&mut self, path: String)
        requires
            old(self).wf(),
        ensures
            final(self).wf(),
            final(self)@.devices == old(self)@.devices,
            final(self)@.playback_paths == if exists|k: int|
                0 <= k < old(self)@.playback_paths.len() && spec_path_eq(#[trigger] old(self)@.playback_paths[k], path@) {
                old(self)@.playback_paths
            } else {
                old(self)@.playback_paths.push(path@)
            },
    {
        let ghost paths = self@.playback_paths;
        let mut i: usize = 0;
        while i < self.active_playback_paths.len()
            invariant
                i <= self.active_playback_paths.len(),
                paths == self.active_playback_paths.deep_view(),
                paths.len() == self.active_playback_paths.len(),
                forall|k: int| 0 <= k < i ==> !spec_path_eq(#[trigger] paths[k], path@),
                self@ == old(self)@,
                self.wf(),
            decreases self.active_playback_paths.len() - i,
        {
            assert(paths[i as int] == self.active_playback_paths@[i as int]@);
            if path_eq(self.active_playback_paths[i].as_str(), path.as_str()) {
                return;
            }
            i = i + 1;
        }
        self.active_playback_paths.push(path);
        proof {
            assert(self.active_playback_paths.deep_view() =~= paths.push(path@));
        }
    }

    /// Forgets every registered path equal to `path`.
    fn unregister_playback_path(&mut self, path: &str)
        requires
            old(self).wf(),
        ensures
            final(self).wf(),
            final(self)@.devices == old(self)@.devices,
            final(self)@.playback_paths == keep(old(self)@.playback_paths, |q: Seq<char>| !spec_path_eq(q, path@)),
    {
        let ghost paths = self@.playback_paths;
        let ghost f = |q: Seq<char>| !spec_path_eq(q, path@);
        let mut kept: Vec<String> = Vec::new();
        let mut i: usize = 0;
        while i < self.active_playback_paths.len()
            invariant
                i <= self.active_playback_paths.len(),
                paths == self.active_playback_paths.deep_view(),
                paths.len() == self.active_playback_paths.len(),
                f == (|q: Seq<char>| !spec_path_eq(q, path@)),
                kept.deep_view() == keep(paths.take(i as int), f),
            decreases self.active_playback_paths.len() - i,
        {
            proof {
                lemma_keep_step(paths, f, i as int);
            }
            assert(paths[i as int] == self.active_playback_paths@[i as int]@);
            if !path_eq(self.active_playback_paths[i].as_str(), path) {
                let ghost before = kept.deep_view();
                kept.push(copy_string(&self.active_playback_paths[i]));
                assert(kept.deep_view() =~= before.push(paths[i as int]));
            }
            i = i + 1;
        }
        assert(paths.take(i as int) =~= paths);
        self.active_playback_paths = kept;
    }

    /// Records a device, replacing the one with the same id.
    fn upsert(&mut self, info: Device)
        requires
            old(self).wf(),
        ensures
            final(self).wf(),
            final(self)@ == (HardwareView { devices: upsert_device(old(self)@.devices, info@), ..old(self)@ }),
    {
        let ghost devs = self@.devices;
        match self.find(info.id.as_str()) {
            Some(i) => {
                proof {
                    let p = |k: int| devs[k].id == info@.id;
                    assert(is_first(p, devs.len() as int, i as int));
                }
                self.devices.set(i, info);
                proof {
                    assert(devices_view(self.devices@) =~= devs.update(i as int, info@));
                }
            },
            None => {
                proof {
                    let p = |k: int| devs[k].id == info@.id;
                    assert forall|k: int| 0 <= k < devs.len() implies (#[trigger] devs[k]).id != info@.id by {
                        if devs[k].id == info@.id {
                            lemma_first_exists(p, devs.len() as int, k);
                        }
                    }
                }
                self.devices.push(info);
                proof {
                    assert(devices_view(self.devices@) =~= devs.push(info@));
                }
            },
        }
    }

    /// Learns of a device: records it (replacing an earlier record with its
    /// id) and raises its notifications.
    fn handle_device_info(&mut self, info: Device) -> (events: Vec<HardwareEvent>)
        requires
            old(self).wf(),
        ensures
            final(self).wf(),
            (final(self)@, events_view(events@)) == info_step(old(self)@, info@),
    {
        let mut events: Vec<HardwareEvent> = Vec::new();
        match info.class {
            DeviceClass::UsbStorage => {
                if info.is_mounted() {
                    match &info.mount_point {
                        Some(m) => {
                            events.push(HardwareEvent::UsbMounted {
                                device_id: copy_string(&info.id),
                                label: info.display_name(),
                                mount_point: copy_string(m),
                            });
                        },
                        None => {},
                    }
                }
            },
            DeviceClass::Optical => {
                if info.state != DeviceState::NoMedia {
                    events.push(HardwareEvent::DiscInserted {
                        device_id: copy_string(&info.id),
                        disc_type: detect_optical_type(&info),
                        dev_path: copy_string(&info.dev_path),
                    });
                }
            },
            _ => {},
        }
        assert(events_view(events@) =~= info_events(info@));
        self.upsert(info);
        events
    }

    /// A known device was mounted at `mount_point`: its record says so, and
    /// a USB device raises a notification that it can be scanned.
    fn handle_mount(&mut self, id: &str, mount_point: String) -> (events: Vec<HardwareEvent>)
        requires
            old(self).wf(),
        ensures
            final(self).wf(),
            (final(self)@, events_view(events@)) == mount_step(old(self)@, id@, mount_point@),
    {
        let ghost devs = self@.devices;
        let mut events: Vec<HardwareEvent> = Vec::new();
        match self.find(id) {
            Some(i) => {
                let mut d = self.devices[i].copy();
                d.state = DeviceState::Mounted;
                d.mount_point = Some(copy_string(&mount_point));
                let is_usb = d.class == DeviceClass::UsbStorage;
                let label = d.display_name();
                proof {
                    assert(d@ == mounted_at(devs[i as int], mount_point@));
                }
                self.devices.set(i, d);
                proof {
                    assert(devices_view(self.devices@) =~= devs.update(i as int, mounted_at(devs[i as int], mount_point@)));
                    let p = |k: int| devs[k].id == id@;
                    assert(is_first(p, devs.len() as int, i as int));
                }
                if is_usb {
                    events.push(HardwareEvent::UsbMounted { device_id: id.to_string(), label, mount_point });
                }
            },
            None => {},
        }
        assert(events_view(events@) =~= mount_step(old(self)@, id@, mount_point@).1);
        events
    }

    /// A known device was unmounted: its record says so.
    fn handle_unmount(&mut self, id: &str)
        requires
            old(self).wf(),
        ensures
            final(self).wf(),
            final(self)@ == unmount_step(old(self)@, id@),
    {
        let ghost devs = self@.devices;
        match self.find(id) {
            Some(i) => {
                let mut d = self.devices[i].copy();
                d.state = DeviceState::Ready;
                d.mount_point = None;
                self.devices.set(i, d);
                proof {
                    assert(devices_view(self.devices@) =~= devs.update(i as int, unmounted(devs[i as int])));
                    let p = |k: int| devs[k].id == id@;
                    assert(is_first(p, devs.len() as int, i as int));
                }
            },
            None => {},
        }
    }

    /// A device was detached: if playback reads from under its mount point a
    /// warning comes first, then the removal notice for its class; the
    /// device is forgotten.
    fn handle_detach(&mut self, id: &str, class: DeviceClass) -> (events: Vec<HardwareEvent>)
        requires
            old(self).wf(),
        ensures
            final(self).wf(),
            (final(self)@, events_view(events@)) == detach_step(old(self)@, id@, class),
            lookup_device(final(self)@.devices, id@) is None,
    {
        let ghost h = self@;
        let mut events: Vec<HardwareEvent> = Vec::new();
        let idx = self.find(id);
        match idx {
            Some(i) => {
                match &self.devices[i].mount_point {
                    Some(m) => {
                        if self.plays_from(m.as_str()) {
                            events.push(HardwareEvent::PlaybackDeviceRemoved {
                                device_id: id.to_string(),
                                mount_point: copy_string(m),
                            });
                        }
                    },
                    None => {},
                }
            },
            None => {},
        }
        assert(events_view(events@) =~= removal_warning(h, id@));
        let ghost warned = events_view(events@);
        match class {
            DeviceClass::UsbStorage => {
                let label = match idx {
                    Some(i) => self.devices[i].display_name(),
                    None => id.to_string(),
                };
                events.push(HardwareEvent::UsbRemoved { device_id: id.to_string(), label });
            },
            DeviceClass::Optical => {
                events.push(HardwareEvent::DiscEjected { device_id: id.to_string() });
            },
            _ => {},
        }
        assert(events_view(events@) =~= detach_events(h, id@, class));
        match idx {
            Some(i) => {
                proof {
                    lemma_remove_keeps_unique(h.devices, i as int);
                }
                self.devices.remove(i);
                proof {
                    assert(devices_view(self.devices@) =~= h.devices.remove(i as int));
                    let p = |k: int| h.devices[k].id == id@;
                    assert(h.devices[i as int].id == id@);
                    let r = h.devices.remove(i as int);
                    let q = |k: int| r[k].id == id@;
                    assert forall|k: int| 0 <= k < r.len() implies !#[trigger] q(k) by {}
                    lemma_first_none(q, r.len() as int);
                }
            },
            None => {
                proof {
                    let p = |k: int| h.devices[k].id == id@;
                    assert forall|k: int| 0 <= k < h.devices.len() implies !#[trigger] p(k) by {
                        if p(k) {
                            lemma_first_exists(p, h.devices.len() as int, k);
                        }
                    }
                }
            },
        }
        events
    }

    /// A known optical drive has a new disc: a disc-inserted notification.
    fn handle_optical_change(&self, id: &str) -> (events: Vec<HardwareEvent>)
        ensures
            events_view(events@) == optical_change_events(self@, id@),
    {
        let mut events: Vec<HardwareEvent> = Vec::new();
        match self.find(id) {
            Some(i) => {
                events.push(HardwareEvent::DiscInserted {
                    device_id: id.to_string(),
                    disc_type: detect_optical_type(&self.devices[i]),
                    dev_path: copy_string(&self.devices[i].dev_path),
                });
            },
            None => {},
        }
        assert(events_view(events@) =~= optical_change_events(self@, id@));
        events
    }

    /// Handles one raw device event and returns the notifications it
    /// raises. Events about devices of classes a player does not care about
    /// change nothing.
    fn handle_yukti_event(&mut self, event: DeviceEvent) -> (events: Vec<HardwareEvent>)
        requires
            old(self).wf(),
        ensures
            final(self).wf(),
            (final(self)@, events_view(events@)) == event_step(old(self)@, event@),
    {
        let ghost e = event@;
        let DeviceEvent { device_id, device_class, kind, device_info } = event;
        if !is_class_relevant(device_class) {
            let events: Vec<HardwareEvent> = Vec::new();
            assert(events_view(events@) =~= seq![]);
            return events;
        }
        match kind {
            DeviceEventKind::Attached => match device_info {
                Some(info) => self.handle_device_info(info),
                None => {
                    let events: Vec<HardwareEvent> = Vec::new();
                    assert(events_view(events@) =~= seq![]);
                    events
                },
            },
            DeviceEventKind::Detached => self.handle_detach(device_id.as_str(), device_class),
            DeviceEventKind::Mounted { mount_point } => self.handle_mount(device_id.as_str(), mount_point),
            DeviceEventKind::Unmounted => {
                self.handle_unmount(device_id.as_str());
                let events: Vec<HardwareEvent> = Vec::new();
                assert(events_view(events@) =~= seq![]);
                events
            },
            DeviceEventKind::MediaChanged => {
                if device_class == DeviceClass::Optical {
                    self.handle_optical_change(device_id.as_str())
                } else {
                    let events: Vec<HardwareEvent> = Vec::new();
                    assert(events_view(events@) =~= seq![]);
                    events
                }
            },
            DeviceEventKind::Error { message } => {
                let mut events: Vec<HardwareEvent> = Vec::new();
                events.push(HardwareEvent::DeviceError { device_id, message });
                assert(events_view(events@) =~= event_step(old(self)@, e).1);
                events
            },
            DeviceEventKind::Other => {
                let events: Vec<HardwareEvent> = Vec::new();
                assert(events_view(events@) =~= seq![]);
                events
            },
        }
    }

    /// The USB storage devices that are mounted, in order.
    fn mounted_usb_devices(&self) -> (res: Vec<&Device>)
        ensures
            device_refs_view(res@) == keep(self@.devices, |d: DeviceView| d.class == DeviceClass::UsbStorage && is_mounted(d)),
    {
        let ghost devs = self@.devices;
        let ghost f = |d: DeviceView| d.class == DeviceClass::UsbStorage && is_mounted(d);
        let mut out: Vec<&Device> = Vec::new();
        let mut i: usize = 0;
        while i < self.devices.len()
            invariant
                i <= self.devices.len(),
                devs == devices_view(self.devices@),
                f == (|d: DeviceView| d.class == DeviceClass::UsbStorage && is_mounted(d)),
                device_refs_view(out@) == keep(devs.take(i as int), f),
            decreases self.devices.len() - i,
        {
            proof {
                lemma_keep_step(devs, f, i as int);
            }
            let d = &self.devices[i];
            if d.class == DeviceClass::UsbStorage && d.is_mounted() {
                out.push(d);
                assert(device_refs_view(out@) =~= keep(devs.take(i as int), f).push(devs[i as int]));
            }
            i = i + 1;
        }
        assert(devs.take(i as int) =~= devs);
        out
    }

    /// The optical drives, in order.
    fn optical_drives(&self) -> (res: Vec<&Device>)
        ensures
            device_refs_view(res@) == keep(self@.devices, |d: DeviceView| d.class == DeviceClass::Optical),
    {
        let ghost devs = self@.devices;
        let ghost f = |d: DeviceView| d.class == DeviceClass::Optical;
        let mut out: Vec<&Device> = Vec::new();
        let mut i: usize = 0;
        while i < self.devices.len()
            invariant
                i <= self.devices.len(),
                devs == devices_view(self.devices@),
                f == (|d: DeviceView| d.class == DeviceClass::Optical),
                device_refs_view(out@) == keep(devs.take(i as int), f),
            decreases self.devices.len() - i,
        {
            proof {
                lemma_keep_step(devs, f, i as int);
            }
            let d = &self.devices[i];
            if d.class == DeviceClass::Optical {
                out.push(d);
                assert(device_refs_view(out@) =~= keep(devs.take(i as int), f).push(devs[i as int]));
            }
            i = i + 1;
        }
        assert(devs.take(i as int) =~= devs);
        out
    }

    /// Prepares a safe eject of the device with `id`: an unknown device is
    /// an error; otherwise the result holds the warning to raise first when
    /// playback reads from under the device's mount point. The eject itself
    /// is the device monitor's work.
    fn safe_eject(&self, id: &str) -> (res: Result<Vec<HardwareEvent>, JalwaError>)
        ensures
            match res {
                Ok(events) => lookup_device(self@.devices, id@) is Some && events_view(events@) == removal_warning(self@, id@),
                Err(e) => lookup_device(self@.devices, id@) is None && e@ == JalwaErrorView::NotFound("device "@ + id@),
            },
    {
        match self.find(id) {
            None => {
                let mut msg = String::from_str("device ");
                push_str(&mut msg, id);
                Err(JalwaError::NotFound(msg))
            },
            Some(i) => {
                let mut events: Vec<HardwareEvent> = Vec::new();
                match &self.devices[i].mount_point {
                    Some(m) => {
                        if self.plays_from(m.as_str()) {
                            events.push(HardwareEvent::PlaybackDeviceRemoved {
                                device_id: id.to_string(),
                                mount_point: copy_string(m),
                            });
                        }
                    },
                    None => {},
                }
                assert(events_view(events@) =~= removal_warning(self@, id@));
                Ok(events)
            },
        }
    }

    /// The paths playback currently reads from.
    fn active_playback_paths(&self) -> (res: &Vec<String>)
        ensures
            res.deep_view() == self@.playback_paths,
    {
        &self.active_playback_paths
    }
}

/// Tracks the removable devices the player knows of and the paths playback
/// reads from, and turns device events into [`HardwareEvent`]s. No two
/// known devices share an id.
///
/// Each method that handles an event returns the notifications it raises,
/// in the order they are to be delivered.
#[derive(Debug)]
pub struct HardwareManager {
    table: DeviceTable,
}

impl View for HardwareManager {
    type V = HardwareView;

    closed spec fn view(&self) -> HardwareView {
        self.table@
    }
}

impl HardwareManager {
    /// Every manager knows each device once.
    #[verifier::type_invariant]
    spec fn inv(self) -> bool {
        self.table.wf()
    }

    /// A manager that knows no device and no playback path.
    pub fn new() -> (hw: HardwareManager)
        ensures
            ids_unique(hw@.devices),
            hw@.devices.len() == 0,
            hw@.playback_paths.len() == 0,
    {
        HardwareManager { table: DeviceTable::new() }
    }

    /// The device with the given id.
    pub fn device(&self, id: &str) -> (res: Option<&Device>)
        ensures
            match res {
                Some(d) => lookup_device(self@.devices, id@) == Some(d@),
                None => lookup_device(self@.devices, id@) is None,
            },
    {
        proof {
            use_type_invariant(self);
        }
        self.table.device(id)
    }

    /// All known devices.
    pub fn devices(&self) -> (res: Vec<&Device>)
        ensures
            device_refs_view(res@) == self@.devices,
    {
        proof {
            use_type_invariant(self);
        }
        self.table.devices()
    }

    /// Registers a path that playback reads from. A path equal to one
    /// already registered is not added again.
    pub fn register_playback_path(&mut self, path: String)
        ensures
            ids_unique(final(self)@.devices),
            final(self)@.devices == old(self)@.devices,
            final(self)@.playback_paths == if exists|k: int|
                0 <= k < old(self)@.playback_paths.len() && spec_path_eq(#[trigger] old(self)@.playback_paths[k], path@) {
                old(self)@.playback_paths
            } else {
                old(self)@.playback_paths.push(path@)
            },
    {
        proof {
            use_type_invariant(&*self);
        }
        let mut t = DeviceTable::new();
        std::mem::swap(&mut t, &mut self.table);
        let r = t.register_playback_path(path);
        self.table = t;
        r
    }

    /// Forgets every registered path equal to `path`.
    pub fn unregister_playback_path(&mut self, path: &str)
        ensures
            ids_unique(final(self)@.devices),
            final(self)@.devices == old(self)@.devices,
            final(self)@.playback_paths == keep(old(self)@.playback_paths, |q: Seq<char>| !spec_path_eq(q, path@)),
    {
        proof {
            use_type_invariant(&*self);
        }
        let mut t = DeviceTable::new();
        std::mem::swap(&mut t, &mut self.table);
        let r = t.unregister_playback_path(path);
        self.table = t;
        r
    }

    /// Learns of a device: records it (replacing an earlier record with its
    /// id) and raises its notifications.
    pub fn handle_device_info(&mut self, info: Device) -> (events: Vec<HardwareEvent>)
        ensures
            ids_unique(final(self)@.devices),
            (final(self)@, events_view(events@)) == info_step(old(self)@, info@),
    {
        proof {
            use_type_invariant(&*self);
        }
        let mut t = DeviceTable::new();
        std::mem::swap(&mut t, &mut self.table);
        let r = t.handle_device_info(info);
        self.table = t;
        r
    }

    /// A known device was mounted at `mount_point`: its record says so, and
    /// a USB device raises a notification that it can be scanned.
    pub fn handle_mount(&mut self, id: &str, mount_point: String) -> (events: Vec<HardwareEvent>)
        ensures
            ids_unique(final(self)@.devices),
            (final(self)@, events_view(events@)) == mount_step(old(self)@, id@, mount_point@),
    {
        proof {
            use_type_invariant(&*self);
        }
        let mut t = DeviceTable::new();
        std::mem::swap(&mut t, &mut self.table);
        let r = t.handle_mount(id, mount_point);
        self.table = t;
        r
    }

    /// A device was detached: if playback reads from under its mount point a
    /// warning comes first, then the removal notice for its class; the
    /// device is forgotten.
    pub fn handle_detach(&mut self, id: &str, class: DeviceClass) -> (events: Vec<HardwareEvent>)
        ensures
            ids_unique(final(self)@.devices),
            (final(self)@, events_view(events@)) == detach_step(old(self)@, id@, class),
            lookup_device(final(self)@.devices, id@) is None,
    {
        proof {
            use_type_invariant(&*self);
        }
        let mut t = DeviceTable::new();
        std::mem::swap(&mut t, &mut self.table);
        let r = t.handle_detach(id, class);
        self.table = t;
        r
    }

    /// A known optical drive has a new disc: a disc-inserted notification.
    pub fn handle_optical_change(&self, id: &str) -> (events: Vec<HardwareEvent>)
        ensures
            events_view(events@) == optical_change_events(self@, id@),
    {
        proof {
            use_type_invariant(self);
        }
        self.table.handle_optical_change(id)
    }

    /// Handles one raw device event and returns the notifications it
    /// raises. Events about devices of classes a player does not care about
    /// change nothing.
    pub fn handle_yukti_event(&mut self, event: DeviceEvent) -> (events: Vec<HardwareEvent>)
        ensures
            ids_unique(final(self)@.devices),
            (final(self)@, events_view(events@)) == event_step(old(self)@, event@),
    {
        proof {
            use_type_invariant(&*self);
        }
        let mut t = DeviceTable::new();
        std::mem::swap(&mut t, &mut self.table);
        let r = t.handle_yukti_event(event);
        self.table = t;
        r
    }

    /// The USB storage devices that are mounted, in order.
    pub fn mounted_usb_devices(&self) -> (res: Vec<&Device>)
        ensures
            device_refs_view(res@) == keep(self@.devices, |d: DeviceView| d.class == DeviceClass::UsbStorage && is_mounted(d)),
    {
        proof {
            use_type_invariant(self);
        }
        self.table.mounted_usb_devices()
    }

    /// The optical drives, in order.
    pub fn optical_drives(&self) -> (res: Vec<&Device>)
        ensures
            device_refs_view(res@) == keep(self@.devices, |d: DeviceView| d.class == DeviceClass::Optical),
    {
        proof {
            use_type_invariant(self);
        }
        self.table.optical_drives()
    }

    /// Prepares a safe eject of the device with `id`: an unknown device is
    /// an error; otherwise the result holds the warning to raise first when
    /// playback reads from under the device's mount point. The eject itself
    /// is the device monitor's work.
    pub fn safe_eject(&self, id: &str) -> (res: Result<Vec<HardwareEvent>, JalwaError>)
        ensures
            match res {
                Ok(events) => lookup_device(self@.devices, id@) is Some && events_view(events@) == removal_warning(self@, id@),
                Err(e) => lookup_device(self@.devices, id@) is None && e@ == JalwaErrorView::NotFound("device "@ + id@),
            },
    {
        proof {
            use_type_invariant(self);
        }
        self.table.safe_eject(id)
    }

    /// The paths playback currently reads from.
    pub fn active_playback_paths(&self) -> (res: &Vec<String>)
        ensures
            res.deep_view() == self@.playback_paths,
    {
        proof {
            use_type_invariant(self);
        }
        self.table.active_playback_paths()
    }
}


/// The first device (in the given order) whose mount point holds `path`.
pub open spec fn removable_owner(path: Seq<char>, devs: Seq<DeviceView>) -> Option<Seq<char>> {
    match first(|k: int| devs[k].mount_point is Some && spec_path_starts_with(path, devs[k].mount_point->0), devs.len() as int) {
        Some(k) => Some(devs[k].id),
        None => None,
    }
}

/// The id of the first of `devices` that `path` lies on, judged by their
/// mount points.
pub fn is_on_removable_device(path: &str, devices: &[&Device]) -> (res: Option<String>)
    ensures
        opt_seq(res) == removable_owner(path@, device_refs_view(devices@)),
{
    let ghost devs = device_refs_view(devices@);
    let ghost p = |k: int| devs[k].mount_point is Some && spec_path_starts_with(path@, devs[k].mount_point->0);
    let mut i: usize = 0;
    while i < devices.len()
        invariant
            i <= devices.len(),
            devs == device_refs_view(devices@),
            p == (|k: int| devs[k].mount_point is Some && spec_path_starts_with(path@, devs[k].mount_point->0)),
            forall|j: int| 0 <= j < i ==> !#[trigger] p(j),
        decreases devices.len() - i,
    {
        let d: &Device = devices[i];
        assert(devs[i as int] == d@);
        match &d.mount_point {
            Some(m) => {
                if path_starts_with(path, m.as_str()) {
                    proof {
                        assert(is_first(p, devs.len() as int, i as int));
                        lemma_first_is(p, devs.len() as int, i as int);
                    }
                    return Some(copy_string(&d.id));
                }
            },
            None => {},
        }
        i = i + 1;
    }
    proof {
        lemma_first_none(p, devs.len() as int);
    }
    None
}

} // verus!
