//! The commands of the command socket and the typed values of their responses.
//!
//! Each response is a JSON document whose keys are matched exactly, some in
//! snake case and some in camel case. A field may be left out only where its
//! type is an `Option`; keys that this library does not know are passed over.

use serde_json::{Number, Value};
use vstd::prelude::*;

use crate::hyprland::ipc::json::{is_object, json_is_object, json_member};
use crate::hyprland::ipc::schema::{optional, optional_member, required, required_member, FromJson};

verus! {

/// A command of the command socket, named as it is sent; the implementing type
/// is that of the response.
pub trait Command: FromJson {
    /// The name of the command, as it is sent.
    const NAME: &'static str;

    /// The name of the command, as it is sent.
    spec fn name() -> Seq<char>;

    /// The name of the command, as it is sent.
    fn command_name() -> (r: &'static str)
        ensures
            r@ == Self::name(),
    ;
}

/// One workspace, as the `workspaces` command lists it.
#[derive(Debug, Clone, PartialEq, Eq)]
pub struct Workspace {
    pub id: u64,
    pub name: String,
    pub monitor: String,
    pub windows: u64,
    pub hasfullscreen: bool,
    pub lastwindow: String,
    pub lastwindowtitle: String,
}

/// The mathematical value of a [`Workspace`].
pub struct WorkspaceModel {
    pub id: u64,
    pub name: Seq<char>,
    pub monitor: Seq<char>,
    pub windows: u64,
    pub hasfullscreen: bool,
    pub lastwindow: Seq<char>,
    pub lastwindowtitle: Seq<char>,
}

impl FromJson for Workspace {
    type Model = WorkspaceModel;

    open spec fn model(&self) -> WorkspaceModel {
        WorkspaceModel {
            id: self.id.model(),
            name: self.name.model(),
            monitor: self.monitor.model(),
            windows: self.windows.model(),
            hasfullscreen: self.hasfullscreen.model(),
            lastwindow: self.lastwindow.model(),
            lastwindowtitle: self.lastwindowtitle.model(),
        }
    }

    open spec fn decoded(value: Value) -> Option<WorkspaceModel> {
        if json_is_object(value)
            && required_member::<u64>(value, "id"@) is Some
            && required_member::<String>(value, "name"@) is Some
            && required_member::<String>(value, "monitor"@) is Some
            && required_member::<u64>(value, "windows"@) is Some
            && required_member::<bool>(value, "hasfullscreen"@) is Some
            && required_member::<String>(value, "lastwindow"@) is Some
            && required_member::<String>(value, "lastwindowtitle"@) is Some
        {
            Some(
                WorkspaceModel {
                    id: required_member::<u64>(value, "id"@).unwrap(),
                    name: required_member::<String>(value, "name"@).unwrap(),
                    monitor: required_member::<String>(value, "monitor"@).unwrap(),
                    windows: required_member::<u64>(value, "windows"@).unwrap(),
                    hasfullscreen: required_member::<bool>(value, "hasfullscreen"@).unwrap(),
                    lastwindow: required_member::<String>(value, "lastwindow"@).unwrap(),
                    lastwindowtitle: required_member::<String>(value, "lastwindowtitle"@).unwrap(),
                },
            )
        } else {
            None
        }
    }

    fn from_json(value: &Value) -> (r: Option<Workspace>) {
        if !is_object(value) {
            return None;
        }
        let id = required::<u64>(value, "id")?;
        let name = required::<String>(value, "name")?;
        let monitor = required::<String>(value, "monitor")?;
        let windows = required::<u64>(value, "windows")?;
        let hasfullscreen = required::<bool>(value, "hasfullscreen")?;
        let lastwindow = required::<String>(value, "lastwindow")?;
        let lastwindowtitle = required::<String>(value, "lastwindowtitle")?;
        Some(Workspace { id, name, monitor, windows, hasfullscreen, lastwindow, lastwindowtitle })
    }
}

/// A pointer device. Its speed is kept as the number that the compositor wrote.
#[derive(Debug, Clone, PartialEq, Eq)]
pub struct Mouse {
    pub address: String,
    pub name: String,
    pub default_speed: Number,
}

/// The mathematical value of a [`Mouse`].
pub struct MouseModel {
    pub address: Seq<char>,
    pub name: Seq<char>,
    pub default_speed: Number,
}

impl FromJson for Mouse {
    type Model = MouseModel;

    open spec fn model(&self) -> MouseModel {
        MouseModel {
            address: self.address.model(),
            name: self.name.model(),
            default_speed: self.default_speed.model(),
        }
    }

    open spec fn decoded(value: Value) -> Option<MouseModel> {
        if json_is_object(value)
            && required_member::<String>(value, "address"@) is Some
            && required_member::<String>(value, "name"@) is Some
            && required_member::<Number>(value, "defaultSpeed"@) is Some
        {
            Some(
                MouseModel {
                    address: required_member::<String>(value, "address"@).unwrap(),
                    name: required_member::<String>(value, "name"@).unwrap(),
                    default_speed: required_member::<Number>(value, "defaultSpeed"@).unwrap(),
                },
            )
        } else {
            None
        }
    }

    fn from_json(value: &Value) -> (r: Option<Mouse>) {
        if !is_object(value) {
            return None;
        }
        let address = required::<String>(value, "address")?;
        let name = required::<String>(value, "name")?;
        let default_speed = required::<Number>(value, "defaultSpeed")?;
        Some(Mouse { address, name, default_speed })
    }
}

/// A keyboard, with its layout and the keymap that is active.
#[derive(Debug, Clone, PartialEq, Eq)]
pub struct Keyboard {
    pub address: String,
    pub name: String,
    pub rules: String,
    pub model: String,
    pub layout: String,
    pub variant: String,
    pub options: String,
    pub active_keymap: String,
    pub main: bool,
}

/// The mathematical value of a [`Keyboard`].
pub struct KeyboardModel {
    pub address: Seq<char>,
    pub name: Seq<char>,
    pub rules: Seq<char>,
    pub model: Seq<char>,
    pub layout: Seq<char>,
    pub variant: Seq<char>,
    pub options: Seq<char>,
    pub active_keymap: Seq<char>,
    pub main: bool,
}

impl FromJson for Keyboard {
    type Model = KeyboardModel;

    open spec fn model(&self) -> KeyboardModel {
        KeyboardModel {
            address: self.address.model(),
            name: self.name.model(),
            rules: self.rules.model(),
            model: self.model.model(),
            layout: self.layout.model(),
            variant: self.variant.model(),
            options: self.options.model(),
            active_keymap: self.active_keymap.model(),
            main: self.main.model(),
        }
    }

    open spec fn decoded(value: Value) -> Option<KeyboardModel> {
        if json_is_object(value)
            && required_member::<String>(value, "address"@) is Some
            && required_member::<String>(value, "name"@) is Some
            && required_member::<String>(value, "rules"@) is Some
            && required_member::<String>(value, "model"@) is Some
            && required_member::<String>(value, "layout"@) is Some
            && required_member::<String>(value, "variant"@) is Some
            && required_member::<String>(value, "options"@) is Some
            && required_member::<String>(value, "active_keymap"@) is Some
            && required_member::<bool>(value, "main"@) is Some
        {
            Some(
                KeyboardModel {
                    address: required_member::<String>(value, "address"@).unwrap(),
                    name: required_member::<String>(value, "name"@).unwrap(),
                    rules: required_member::<String>(value, "rules"@).unwrap(),
                    model: required_member::<String>(value, "model"@).unwrap(),
                    layout: required_member::<String>(value, "layout"@).unwrap(),
                    variant: required_member::<String>(value, "variant"@).unwrap(),
                    options: required_member::<String>(value, "options"@).unwrap(),
                    active_keymap: required_member::<String>(value, "active_keymap"@).unwrap(),
                    main: required_member::<bool>(value, "main"@).unwrap(),
                },
            )
        } else {
            None
        }
    }

    fn from_json(value: &Value) -> (r: Option<Keyboard>) {
        if !is_object(value) {
            return None;
        }
        let address = required::<String>(value, "address")?;
        let name = required::<String>(value, "name")?;
        let rules = required::<String>(value, "rules")?;
        let model = required::<String>(value, "model")?;
        let layout = required::<String>(value, "layout")?;
        let variant = required::<String>(value, "variant")?;
        let options = required::<String>(value, "options")?;
        let active_keymap = required::<String>(value, "active_keymap")?;
        let main = required::<bool>(value, "main")?;
        Some(Keyboard {
            address,
            name,
            rules,
            model,
            layout,
            variant,
            options,
            active_keymap,
            main,
        })
    }
}

/// The device that a tablet tool or pad belongs to.
#[derive(Debug, Clone, PartialEq, Eq)]
pub struct TabletOwner {
    pub address: String,
    pub name: String,
}

/// The mathematical value of a [`TabletOwner`].
pub struct TabletOwnerModel {
    pub address: Seq<char>,
    pub name: Seq<char>,
}

impl FromJson for TabletOwner {
    type Model = TabletOwnerModel;

    open spec fn model(&self) -> TabletOwnerModel {
        TabletOwnerModel {
            address: self.address.model(),
            name: self.name.model(),
        }
    }

    open spec fn decoded(value: Value) -> Option<TabletOwnerModel> {
        if json_is_object(value)
            && required_member::<String>(value, "address"@) is Some
            && required_member::<String>(value, "name"@) is Some
        {
            Some(
                TabletOwnerModel {
                    address: required_member::<String>(value, "address"@).unwrap(),
                    name: required_member::<String>(value, "name"@).unwrap(),
                },
            )
        } else {
            None
        }
    }

    fn from_json(value: &Value) -> (r: Option<TabletOwner>) {
        if !is_object(value) {
            return None;
        }
        let address = required::<String>(value, "address")?;
        let name = required::<String>(value, "name")?;
        Some(TabletOwner { address, name })
    }
}

/// A tablet tool or pad.
#[derive(Debug, Clone, PartialEq, Eq)]
pub struct Tablet {
    pub address: String,
    pub type_: String,
    pub belongs_to: TabletOwner,
}

/// The mathematical value of a [`Tablet`].
pub struct TabletModel {
    pub address: Seq<char>,
    pub type_: Seq<char>,
    pub belongs_to: TabletOwnerModel,
}

impl FromJson for Tablet {
    type Model = TabletModel;

    open spec fn model(&self) -> TabletModel {
        TabletModel {
            address: self.address.model(),
            type_: self.type_.model(),
            belongs_to: self.belongs_to.model(),
        }
    }

    open spec fn decoded(value: Value) -> Option<TabletModel> {
        if json_is_object(value)
            && required_member::<String>(value, "address"@) is Some
            && required_member::<String>(value, "type"@) is Some
            && required_member::<TabletOwner>(value, "belongsTo"@) is Some
        {
            Some(
                TabletModel {
                    address: required_member::<String>(value, "address"@).unwrap(),
                    type_: required_member::<String>(value, "type"@).unwrap(),
                    belongs_to: required_member::<TabletOwner>(value, "belongsTo"@).unwrap(),
                },
            )
        } else {
            None
        }
    }

    fn from_json(value: &Value) -> (r: Option<Tablet>) {
        if !is_object(value) {
            return None;
        }
        let address = required::<String>(value, "address")?;
        let type_ = required::<String>(value, "type")?;
        let belongs_to = required::<TabletOwner>(value, "belongsTo")?;
        Some(Tablet { address, type_, belongs_to })
    }
}

/// A touch device.
#[derive(Debug, Clone, PartialEq, Eq)]
pub struct Touch {
    pub address: String,
    pub name: String,
}

/// The mathematical value of a [`Touch`].
pub struct TouchModel {
    pub address: Seq<char>,
    pub name: Seq<char>,
}

impl FromJson for Touch {
    type Model = TouchModel;

    open spec fn model(&self) -> TouchModel {
        TouchModel {
            address: self.address.model(),
            name: self.name.model(),
        }
    }

    open spec fn decoded(value: Value) -> Option<TouchModel> {
        if json_is_object(value)
            && required_member::<String>(value, "address"@) is Some
            && required_member::<String>(value, "name"@) is Some
        {
            Some(
                TouchModel {
                    address: required_member::<String>(value, "address"@).unwrap(),
                    name: required_member::<String>(value, "name"@).unwrap(),
                },
            )
        } else {
            None
        }
    }

    fn from_json(value: &Value) -> (r: Option<Touch>) {
        if !is_object(value) {
            return None;
        }
        let address = required::<String>(value, "address")?;
        let name = required::<String>(value, "name")?;
        Some(Touch { address, name })
    }
}

/// A switch, such as a lid switch.
#[derive(Debug, Clone, PartialEq, Eq)]
pub struct Switch {
    pub address: String,
    pub name: String,
}

/// The mathematical value of a [`Switch`].
pub struct SwitchModel {
    pub address: Seq<char>,
    pub name: Seq<char>,
}

impl FromJson for Switch {
    type Model = SwitchModel;

    open spec fn model(&self) -> SwitchModel {
        SwitchModel {
            address: self.address.model(),
            name: self.name.model(),
        }
    }

    open spec fn decoded(value: Value) -> Option<SwitchModel> {
        if json_is_object(value)
            && required_member::<String>(value, "address"@) is Some
            && required_member::<String>(value, "name"@) is Some
        {
            Some(
                SwitchModel {
                    address: required_member::<String>(value, "address"@).unwrap(),
                    name: required_member::<String>(value, "name"@).unwrap(),
                },
            )
        } else {
            None
        }
    }

    fn from_json(value: &Value) -> (r: Option<Switch>) {
        if !is_object(value) {
            return None;
        }
        let address = required::<String>(value, "address")?;
        let name = required::<String>(value, "name")?;
        Some(Switch { address, name })
    }
}

/// The input devices, as the `devices` command lists them.
#[derive(Debug, Clone, PartialEq, Eq)]
pub struct Devices {
    pub mice: Vec<Mouse>,
    pub keyboards: Vec<Keyboard>,
    pub tablets: Vec<Tablet>,
    pub touch: Vec<Touch>,
    pub switches: Vec<Switch>,
}

/// The mathematical value of a [`Devices`].
pub struct DevicesModel {
    pub mice: Seq<MouseModel>,
    pub keyboards: Seq<KeyboardModel>,
    pub tablets: Seq<TabletModel>,
    pub touch: Seq<TouchModel>,
    pub switches: Seq<SwitchModel>,
}

impl FromJson for Devices {
    type Model = DevicesModel;

    open spec fn model(&self) -> DevicesModel {
        DevicesModel {
            mice: self.mice.model(),
            keyboards: self.keyboards.model(),
            tablets: self.tablets.model(),
            touch: self.touch.model(),
            switches: self.switches.model(),
        }
    }

    open spec fn decoded(value: Value) -> Option<DevicesModel> {
        if json_is_object(value)
            && required_member::<Vec<Mouse>>(value, "mice"@) is Some
            && required_member::<Vec<Keyboard>>(value, "keyboards"@) is Some
            && required_member::<Vec<Tablet>>(value, "tablets"@) is Some
            && required_member::<Vec<Touch>>(value, "touch"@) is Some
            && required_member::<Vec<Switch>>(value, "switches"@) is Some
        {
            Some(
                DevicesModel {
                    mice: required_member::<Vec<Mouse>>(value, "mice"@).unwrap(),
                    keyboards: required_member::<Vec<Keyboard>>(value, "keyboards"@).unwrap(),
                    tablets: required_member::<Vec<Tablet>>(value, "tablets"@).unwrap(),
                    touch: required_member::<Vec<Touch>>(value, "touch"@).unwrap(),
                    switches: required_member::<Vec<Switch>>(value, "switches"@).unwrap(),
                },
            )
        } else {
            None
        }
    }

    fn from_json(value: &Value) -> (r: Option<Devices>) {
        if !is_object(value) {
            return None;
        }
        let mice = required::<Vec<Mouse>>(value, "mice")?;
        let keyboards = required::<Vec<Keyboard>>(value, "keyboards")?;
        let tablets = required::<Vec<Tablet>>(value, "tablets")?;
        let touch = required::<Vec<Touch>>(value, "touch")?;
        let switches = required::<Vec<Switch>>(value, "switches")?;
        Some(Devices { mice, keyboards, tablets, touch, switches })
    }
}

/// A workspace named from within a window.
#[derive(Debug, Clone, PartialEq, Eq)]
pub struct PartialWorkspace {
    pub address: String,
    pub name: String,
}

/// The mathematical value of a [`PartialWorkspace`].
pub struct PartialWorkspaceModel {
    pub address: Seq<char>,
    pub name: Seq<char>,
}

impl FromJson for PartialWorkspace {
    type Model = PartialWorkspaceModel;

    open spec fn model(&self) -> PartialWorkspaceModel {
        PartialWorkspaceModel {
            address: self.address.model(),
            name: self.name.model(),
        }
    }

    open spec fn decoded(value: Value) -> Option<PartialWorkspaceModel> {
        if json_is_object(value)
            && required_member::<String>(value, "address"@) is Some
            && required_member::<String>(value, "name"@) is Some
        {
            Some(
                PartialWorkspaceModel {
                    address: required_member::<String>(value, "address"@).unwrap(),
                    name: required_member::<String>(value, "name"@).unwrap(),
                },
            )
        } else {
            None
        }
    }

    fn from_json(value: &Value) -> (r: Option<PartialWorkspace>) {
        if !is_object(value) {
            return None;
        }
        let address = required::<String>(value, "address")?;
        let name = required::<String>(value, "name")?;
        Some(PartialWorkspace { address, name })
    }
}

/// The focused window, as the `activewindow` command tells it. Every field is
/// optional: without a focused window the compositor answers with an empty
/// object, and all fields absent is that answer.
#[derive(Debug, Clone, PartialEq, Eq)]
pub struct ActiveWindow {
    pub address: Option<String>,
    pub mapped: Option<bool>,
    pub hidden: Option<bool>,
    pub at: Option<(u64, u64)>,
    pub size: Option<(u64, u64)>,
    pub workspace: Option<PartialWorkspace>,
    pub floating: Option<bool>,
    pub monitor: Option<u64>,
    pub class: Option<String>,
    pub title: Option<String>,
    pub initial_class: Option<String>,
    pub initial_title: Option<String>,
    pub pid: Option<u64>,
    pub xwayland: Option<bool>,
    pub pinned: Option<bool>,
    pub fullscreen: Option<bool>,
    pub fullscreen_mode: Option<i32>,
    pub fake_fullscreen: Option<bool>,
    pub grouped: Option<Vec<String>>,
    pub swallowing: Option<String>,
}

/// The mathematical value of a [`ActiveWindow`].
pub struct ActiveWindowModel {
    pub address: Option<Seq<char>>,
    pub mapped: Option<bool>,
    pub hidden: Option<bool>,
    pub at: Option<(u64, u64)>,
    pub size: Option<(u64, u64)>,
    pub workspace: Option<PartialWorkspaceModel>,
    pub floating: Option<bool>,
    pub monitor: Option<u64>,
    pub class: Option<Seq<char>>,
    pub title: Option<Seq<char>>,
    pub initial_class: Option<Seq<char>>,
    pub initial_title: Option<Seq<char>>,
    pub pid: Option<u64>,
    pub xwayland: Option<bool>,
    pub pinned: Option<bool>,
    pub fullscreen: Option<bool>,
    pub fullscreen_mode: Option<i32>,
    pub fake_fullscreen: Option<bool>,
    pub grouped: Option<Seq<Seq<char>>>,
    pub swallowing: Option<Seq<char>>,
}

impl FromJson for ActiveWindow {
    type Model = ActiveWindowModel;

    open spec fn model(&self) -> ActiveWindowModel {
        ActiveWindowModel {
            address: self.address.model(),
            mapped: self.mapped.model(),
            hidden: self.hidden.model(),
            at: self.at.model(),
            size: self.size.model(),
            workspace: self.workspace.model(),
            floating: self.floating.model(),
            monitor: self.monitor.model(),
            class: self.class.model(),
            title: self.title.model(),
            initial_class: self.initial_class.model(),
            initial_title: self.initial_title.model(),
            pid: self.pid.model(),
            xwayland: self.xwayland.model(),
            pinned: self.pinned.model(),
            fullscreen: self.fullscreen.model(),
            fullscreen_mode: self.fullscreen_mode.model(),
            fake_fullscreen: self.fake_fullscreen.model(),
            grouped: self.grouped.model(),
            swallowing: self.swallowing.model(),
        }
    }

    open spec fn decoded(value: Value) -> Option<ActiveWindowModel> {
        if json_is_object(value)
            && optional_member::<String>(value, "address"@) is Some
            && optional_member::<bool>(value, "mapped"@) is Some
            && optional_member::<bool>(value, "hidden"@) is Some
            && optional_member::<(u64, u64)>(value, "at"@) is Some
            && optional_member::<(u64, u64)>(value, "size"@) is Some
            && optional_member::<PartialWorkspace>(value, "workspace"@) is Some
            && optional_member::<bool>(value, "floating"@) is Some
            && optional_member::<u64>(value, "monitor"@) is Some
            && optional_member::<String>(value, "class"@) is Some
            && optional_member::<String>(value, "title"@) is Some
            && optional_member::<String>(value, "initialClass"@) is Some
            && optional_member::<String>(value, "initialTitle"@) is Some
            && optional_member::<u64>(value, "pid"@) is Some
            && optional_member::<bool>(value, "xwayland"@) is Some
            && optional_member::<bool>(value, "pinned"@) is Some
            && optional_member::<bool>(value, "fullscreen"@) is Some
            && optional_member::<i32>(value, "fullscreenMode"@) is Some
            && optional_member::<bool>(value, "fakeFullscreen"@) is Some
            && optional_member::<Vec<String>>(value, "grouped"@) is Some
            && optional_member::<String>(value, "swallowing"@) is Some
        {
            Some(
                ActiveWindowModel {
                    address: optional_member::<String>(value, "address"@).unwrap(),
                    mapped: optional_member::<bool>(value, "mapped"@).unwrap(),
                    hidden: optional_member::<bool>(value, "hidden"@).unwrap(),
                    at: optional_member::<(u64, u64)>(value, "at"@).unwrap(),
                    size: optional_member::<(u64, u64)>(value, "size"@).unwrap(),
                    workspace: optional_member::<PartialWorkspace>(value, "workspace"@).unwrap(),
                    floating: optional_member::<bool>(value, "floating"@).unwrap(),
                    monitor: optional_member::<u64>(value, "monitor"@).unwrap(),
                    class: optional_member::<String>(value, "class"@).unwrap(),
                    title: optional_member::<String>(value, "title"@).unwrap(),
                    initial_class: optional_member::<String>(value, "initialClass"@).unwrap(),
                    initial_title: optional_member::<String>(value, "initialTitle"@).unwrap(),
                    pid: optional_member::<u64>(value, "pid"@).unwrap(),
                    xwayland: optional_member::<bool>(value, "xwayland"@).unwrap(),
                    pinned: optional_member::<bool>(value, "pinned"@).unwrap(),
                    fullscreen: optional_member::<bool>(value, "fullscreen"@).unwrap(),
                    fullscreen_mode: optional_member::<i32>(value, "fullscreenMode"@).unwrap(),
                    fake_fullscreen: optional_member::<bool>(value, "fakeFullscreen"@).unwrap(),
                    grouped: optional_member::<Vec<String>>(value, "grouped"@).unwrap(),
                    swallowing: optional_member::<String>(value, "swallowing"@).unwrap(),
                },
            )
        } else {
            None
        }
    }

    fn from_json(value: &Value) -> (r: Option<ActiveWindow>) {
        if !is_object(value) {
            return None;
        }
        let address = optional::<String>(value, "address")?;
        let mapped = optional::<bool>(value, "mapped")?;
        let hidden = optional::<bool>(value, "hidden")?;
        let at = optional::<(u64, u64)>(value, "at")?;
        let size = optional::<(u64, u64)>(value, "size")?;
        let workspace = optional::<PartialWorkspace>(value, "workspace")?;
        let floating = optional::<bool>(value, "floating")?;
        let monitor = optional::<u64>(value, "monitor")?;
        let class = optional::<String>(value, "class")?;
        let title = optional::<String>(value, "title")?;
        let initial_class = optional::<String>(value, "initialClass")?;
        let initial_title = optional::<String>(value, "initialTitle")?;
        let pid = optional::<u64>(value, "pid")?;
        let xwayland = optional::<bool>(value, "xwayland")?;
        let pinned = optional::<bool>(value, "pinned")?;
        let fullscreen = optional::<bool>(value, "fullscreen")?;
        let fullscreen_mode = optional::<i32>(value, "fullscreenMode")?;
        let fake_fullscreen = optional::<bool>(value, "fakeFullscreen")?;
        let grouped = optional::<Vec<String>>(value, "grouped")?;
        let swallowing = optional::<String>(value, "swallowing")?;
        Some(ActiveWindow {
            address,
            mapped,
            hidden,
            at,
            size,
            workspace,
            floating,
            monitor,
            class,
            title,
            initial_class,
            initial_title,
            pid,
            xwayland,
            pinned,
            fullscreen,
            fullscreen_mode,
            fake_fullscreen,
            grouped,
            swallowing,
        })
    }
}

/// A workspace named from within a monitor.
#[derive(Debug, Clone, PartialEq, Eq)]
pub struct PartialWorkspaceId {
    pub id: u64,
    pub name: String,
}

/// The mathematical value of a [`PartialWorkspaceId`].
pub struct PartialWorkspaceIdModel {
    pub id: u64,
    pub name: Seq<char>,
}

impl FromJson for PartialWorkspaceId {
    type Model = PartialWorkspaceIdModel;

    open spec fn model(&self) -> PartialWorkspaceIdModel {
        PartialWorkspaceIdModel {
            id: self.id.model(),
            name: self.name.model(),
        }
    }

    open spec fn decoded(value: Value) -> Option<PartialWorkspaceIdModel> {
        if json_is_object(value)
            && required_member::<u64>(value, "id"@) is Some
            && required_member::<String>(value, "name"@) is Some
        {
            Some(
                PartialWorkspaceIdModel {
                    id: required_member::<u64>(value, "id"@).unwrap(),
                    name: required_member::<String>(value, "name"@).unwrap(),
                },
            )
        } else {
            None
        }
    }

    fn from_json(value: &Value) -> (r: Option<PartialWorkspaceId>) {
        if !is_object(value) {
            return None;
        }
        let id = required::<u64>(value, "id")?;
        let name = required::<String>(value, "name")?;
        Some(PartialWorkspaceId { id, name })
    }
}

/// One monitor, as the `monitors` command lists it. Refresh rate and scale are
/// kept as the numbers that the compositor wrote.
#[derive(Debug, Clone, PartialEq, Eq)]
pub struct Monitor {
    pub id: u64,
    pub name: String,
    pub description: String,
    pub make: String,
    pub model: String,
    pub serial: String,
    pub width: i32,
    pub height: i32,
    pub refresh_rate: Number,
    pub x: i32,
    pub y: i32,
    pub active_workspace: PartialWorkspaceId,
    pub special_workspace: PartialWorkspaceId,
    pub reserved: [i32; 4],
    pub scale: Number,
    pub transform: i32,
    pub focused: bool,
    pub dpms_status: bool,
    pub vrr: bool,
}

/// The mathematical value of a [`Monitor`].
pub struct MonitorModel {
    pub id: u64,
    pub name: Seq<char>,
    pub description: Seq<char>,
    pub make: Seq<char>,
    pub model: Seq<char>,
    pub serial: Seq<char>,
    pub width: i32,
    pub height: i32,
    pub refresh_rate: Number,
    pub x: i32,
    pub y: i32,
    pub active_workspace: PartialWorkspaceIdModel,
    pub special_workspace: PartialWorkspaceIdModel,
    pub reserved: Seq<i32>,
    pub scale: Number,
    pub transform: i32,
    pub focused: bool,
    pub dpms_status: bool,
    pub vrr: bool,
}

impl FromJson for Monitor {
    type Model = MonitorModel;

    open spec fn model(&self) -> MonitorModel {
        MonitorModel {
            id: self.id.model(),
            name: self.name.model(),
            description: self.description.model(),
            make: self.make.model(),
            model: self.model.model(),
            serial: self.serial.model(),
            width: self.width.model(),
            height: self.height.model(),
            refresh_rate: self.refresh_rate.model(),
            x: self.x.model(),
            y: self.y.model(),
            active_workspace: self.active_workspace.model(),
            special_workspace: self.special_workspace.model(),
            reserved: self.reserved.model(),
            scale: self.scale.model(),
            transform: self.transform.model(),
            focused: self.focused.model(),
            dpms_status: self.dpms_status.model(),
            vrr: self.vrr.model(),
        }
    }

    open spec fn decoded(value: Value) -> Option<MonitorModel> {
        if json_is_object(value)
            && required_member::<u64>(value, "id"@) is Some
            && required_member::<String>(value, "name"@) is Some
            && required_member::<String>(value, "description"@) is Some
            && required_member::<String>(value, "make"@) is Some
            && required_member::<String>(value, "model"@) is Some
            && required_member::<String>(value, "serial"@) is Some
            && required_member::<i32>(value, "width"@) is Some
            && required_member::<i32>(value, "height"@) is Some
            && required_member::<Number>(value, "refreshRate"@) is Some
            && required_member::<i32>(value, "x"@) is Some
            && required_member::<i32>(value, "y"@) is Some
            && required_member::<PartialWorkspaceId>(value, "activeWorkspace"@) is Some
            && required_member::<PartialWorkspaceId>(value, "specialWorkspace"@) is Some
            && required_member::<[i32; 4]>(value, "reserved"@) is Some
            && required_member::<Number>(value, "scale"@) is Some
            && required_member::<i32>(value, "transform"@) is Some
            && required_member::<bool>(value, "focused"@) is Some
            && required_member::<bool>(value, "dpmsStatus"@) is Some
            && required_member::<bool>(value, "vrr"@) is Some
        {
            Some(
                MonitorModel {
                    id: required_member::<u64>(value, "id"@).unwrap(),
                    name: required_member::<String>(value, "name"@).unwrap(),
                    description: required_member::<String>(value, "description"@).unwrap(),
                    make: required_member::<String>(value, "make"@).unwrap(),
                    model: required_member::<String>(value, "model"@).unwrap(),
                    serial: required_member::<String>(value, "serial"@).unwrap(),
                    width: required_member::<i32>(value, "width"@).unwrap(),
                    height: required_member::<i32>(value, "height"@).unwrap(),
                    refresh_rate: required_member::<Number>(value, "refreshRate"@).unwrap(),
                    x: required_member::<i32>(value, "x"@).unwrap(),
                    y: required_member::<i32>(value, "y"@).unwrap(),
                    active_workspace: required_member::<PartialWorkspaceId>(
                        value,
                        "activeWorkspace"@,
                    ).unwrap(),
                    special_workspace: required_member::<PartialWorkspaceId>(
                        value,
                        "specialWorkspace"@,
                    ).unwrap(),
                    reserved: required_member::<[i32; 4]>(value, "reserved"@).unwrap(),
                    scale: required_member::<Number>(value, "scale"@).unwrap(),
                    transform: required_member::<i32>(value, "transform"@).unwrap(),
                    focused: required_member::<bool>(value, "focused"@).unwrap(),
                    dpms_status: required_member::<bool>(value, "dpmsStatus"@).unwrap(),
                    vrr: required_member::<bool>(value, "vrr"@).unwrap(),
                },
            )
        } else {
            None
        }
    }

    fn from_json(value: &Value) -> (r: Option<Monitor>) {
        if !is_object(value) {
            return None;
        }
        let id = required::<u64>(value, "id")?;
        let name = required::<String>(value, "name")?;
        let description = required::<String>(value, "description")?;
        let make = required::<String>(value, "make")?;
        let model = required::<String>(value, "model")?;
        let serial = required::<String>(value, "serial")?;
        let width = required::<i32>(value, "width")?;
        let height = required::<i32>(value, "height")?;
        let refresh_rate = required::<Number>(value, "refreshRate")?;
        let x = required::<i32>(value, "x")?;
        let y = required::<i32>(value, "y")?;
        let active_workspace = required::<PartialWorkspaceId>(value, "activeWorkspace")?;
        let special_workspace = required::<PartialWorkspaceId>(value, "specialWorkspace")?;
        let reserved = required::<[i32; 4]>(value, "reserved")?;
        let scale = required::<Number>(value, "scale")?;
        let transform = required::<i32>(value, "transform")?;
        let focused = required::<bool>(value, "focused")?;
        let dpms_status = required::<bool>(value, "dpmsStatus")?;
        let vrr = required::<bool>(value, "vrr")?;
        Some(Monitor {
            id,
            name,
            description,
            make,
            model,
            serial,
            width,
            height,
            refresh_rate,
            x,
            y,
            active_workspace,
            special_workspace,
            reserved,
            scale,
            transform,
            focused,
            dpms_status,
            vrr,
        })
    }
}

/// The response of the `workspaces` command.
pub type Workspaces = Vec<Workspace>;

/// The response of the `monitors` command.
pub type Monitors = Vec<Monitor>;

impl Command for Vec<Workspace> {
    const NAME: &'static str = "workspaces";

    open spec fn name() -> Seq<char> {
        "workspaces"@
    }

    fn command_name() -> (r: &'static str) {
        Self::NAME
    }
}

impl Command for Devices {
    const NAME: &'static str = "devices";

    open spec fn name() -> Seq<char> {
        "devices"@
    }

    fn command_name() -> (r: &'static str) {
        Self::NAME
    }
}

impl Command for ActiveWindow {
    const NAME: &'static str = "activewindow";

    open spec fn name() -> Seq<char> {
        "activewindow"@
    }

    fn command_name() -> (r: &'static str) {
        Self::NAME
    }
}

impl Command for Vec<Monitor> {
    const NAME: &'static str = "monitors";

    open spec fn name() -> Seq<char> {
        "monitors"@
    }

    fn command_name() -> (r: &'static str) {
        Self::NAME
    }
}

impl Default for ActiveWindow {
    /// No focused window: every field absent.
    fn default() -> (r: ActiveWindow)
        ensures
            r.address is None,
            r.mapped is None,
            r.hidden is None,
            r.at is None,
            r.size is None,
            r.workspace is None,
            r.floating is None,
            r.monitor is None,
            r.class is None,
            r.title is None,
            r.initial_class is None,
            r.initial_title is None,
            r.pid is None,
            r.xwayland is None,
            r.pinned is None,
            r.fullscreen is None,
            r.fullscreen_mode is None,
            r.fake_fullscreen is None,
            r.grouped is None,
            r.swallowing is None,
    {
        ActiveWindow {
            address: None,
            mapped: None,
            hidden: None,
            at: None,
            size: None,
            workspace: None,
            floating: None,
            monitor: None,
            class: None,
            title: None,
            initial_class: None,
            initial_title: None,
            pid: None,
            xwayland: None,
            pinned: None,
            fullscreen: None,
            fullscreen_mode: None,
            fake_fullscreen: None,
            grouped: None,
            swallowing: None,
        }
    }
}

/// The value of "no focused window": every field absent.
pub open spec fn absent_window() -> ActiveWindowModel {
    ActiveWindowModel {
        address: None,
        mapped: None,
        hidden: None,
        at: None,
        size: None,
        workspace: None,
        floating: None,
        monitor: None,
        class: None,
        title: None,
        initial_class: None,
        initial_title: None,
        pid: None,
        xwayland: None,
        pinned: None,
        fullscreen: None,
        fullscreen_mode: None,
        fake_fullscreen: None,
        grouped: None,
        swallowing: None,
    }
}

/// An object without members, such as `{}`, is a valid answer to
/// `activewindow`: it decodes, to the window with every field absent.
pub proof fn lemma_empty_object_is_no_window(value: Value)
    requires
        json_is_object(value),
        forall|key: Seq<char>| json_member(value, key) is None,
    ensures
        <ActiveWindow as FromJson>::decoded(value) == Some(absent_window()),
{
}

} // verus!
