//! The notifications that the compositor pushes, as typed values.

use vstd::prelude::*;

verus! {

/// What a screen share captures.
#[derive(Debug, Clone, Copy, PartialEq, Eq)]
pub enum ScreenCastOwner {
    Monitor,
    Window,
}

/// One notification of the compositor. Every variant carries exactly the
/// fields that its line supplies; window addresses are 64-bit identifiers.
#[derive(Debug, Clone, PartialEq, Eq)]
pub enum Event {
    /// A workspace became the active one.
    Workspace {
        name: String,
    },
    /// The focus moved to another monitor.
    FocusedMonitor {
        monitor: String,
        workspace: String,
    },
    /// The active window changed, told by class and title.
    ActiveWindow {
        class: String,
        title: String,
    },
    /// The active window changed, told by address; `None` when no window is active.
    ActiveWindowV2 {
        address: Option<u64>,
    },
    /// A window entered or left fullscreen.
    FullScreen {
        active: bool,
    },
    /// A monitor was disconnected.
    MonitorRemoved {
        monitor: String,
    },
    /// A monitor was connected.
    MonitorAdded {
        monitor: String,
    },
    /// A workspace was created.
    CreateWorkspace {
        name: String,
    },
    /// A workspace was destroyed.
    DestroyWorkspace {
        name: String,
    },
    /// A workspace moved to another monitor.
    MoveWorkspace {
        workspace: String,
        monitor: String,
    },
    /// A keyboard switched its layout.
    ActiveLayout {
        keyboard_name: String,
        layout_name: String,
    },
    /// A window was opened.
    OpenWindow {
        address: u64,
        workspace: String,
        class: String,
        title: String,
    },
    /// A window was closed.
    CloseWindow {
        address: u64,
    },
    /// A window moved to another workspace.
    MoveWindow {
        address: u64,
        workspace: String,
    },
    /// A layer surface was mapped.
    OpenLayer {
        name: String,
    },
    /// A layer surface was unmapped.
    CloseLayer {
        name: String,
    },
    /// The keybind submap changed.
    SubMap {
        name: String,
    },
    /// A window changed between tiled and floating.
    ChangeFloatingMode {
        address: u64,
        active: bool,
    },
    /// A window asked for attention.
    Urgent {
        address: u64,
    },
    /// A window was minimized or restored.
    Minimize {
        address: u64,
        active: bool,
    },
    /// A screen share started or stopped.
    ScreenCast {
        state: bool,
        owner: ScreenCastOwner,
    },
    /// A window changed its title.
    WindowTitle {
        address: u64,
    },
    /// Ignoring of group locks was toggled.
    IgnoreGroupLock {
        ignore: bool,
    },
    /// Locking of groups was toggled.
    LockGroups {
        lock: bool,
    },
    /// The compositor reloaded its configuration.
    ConfigReloaded,
    /// A monitor was connected, told with its id and description.
    MonitorAddedV2 {
        id: u64,
        name: String,
        description: String,
    },
    /// A notification of a kind this library does not know, kept as the whole line.
    Unknown {
        raw: String,
    },
}

/// The mathematical value of an [`Event`]: the same variants, with text as
/// sequences of characters.
pub enum EventView {
    Workspace {
        name: Seq<char>,
    },
    FocusedMonitor {
        monitor: Seq<char>,
        workspace: Seq<char>,
    },
    ActiveWindow {
        class: Seq<char>,
        title: Seq<char>,
    },
    ActiveWindowV2 {
        address: Option<u64>,
    },
    FullScreen {
        active: bool,
    },
    MonitorRemoved {
        monitor: Seq<char>,
    },
    MonitorAdded {
        monitor: Seq<char>,
    },
    CreateWorkspace {
        name: Seq<char>,
    },
    DestroyWorkspace {
        name: Seq<char>,
    },
    MoveWorkspace {
        workspace: Seq<char>,
        monitor: Seq<char>,
    },
    ActiveLayout {
        keyboard_name: Seq<char>,
        layout_name: Seq<char>,
    },
    OpenWindow {
        address: u64,
        workspace: Seq<char>,
        class: Seq<char>,
        title: Seq<char>,
    },
    CloseWindow {
        address: u64,
    },
    MoveWindow {
        address: u64,
        workspace: Seq<char>,
    },
    OpenLayer {
        name: Seq<char>,
    },
    CloseLayer {
        name: Seq<char>,
    },
    SubMap {
        name: Seq<char>,
    },
    ChangeFloatingMode {
        address: u64,
        active: bool,
    },
    Urgent {
        address: u64,
    },
    Minimize {
        address: u64,
        active: bool,
    },
    ScreenCast {
        state: bool,
        owner: ScreenCastOwner,
    },
    WindowTitle {
        address: u64,
    },
    IgnoreGroupLock {
        ignore: bool,
    },
    LockGroups {
        lock: bool,
    },
    ConfigReloaded,
    MonitorAddedV2 {
        id: u64,
        name: Seq<char>,
        description: Seq<char>,
    },
    Unknown {
        raw: Seq<char>,
    },
}

impl View for Event {
    type V = EventView;

    open spec fn view(&self) -> EventView {
        match *self {
            Event::Workspace { name } => EventView::Workspace { name: name@ },
            Event::FocusedMonitor { monitor, workspace } => EventView::FocusedMonitor {
                monitor: monitor@,
                workspace: workspace@,
            },
            Event::ActiveWindow { class, title } => EventView::ActiveWindow {
                class: class@,
                title: title@,
            },
            Event::ActiveWindowV2 { address } => EventView::ActiveWindowV2 { address },
            Event::FullScreen { active } => EventView::FullScreen { active },
            Event::MonitorRemoved { monitor } => EventView::MonitorRemoved { monitor: monitor@ },
            Event::MonitorAdded { monitor } => EventView::MonitorAdded { monitor: monitor@ },
            Event::CreateWorkspace { name } => EventView::CreateWorkspace { name: name@ },
            Event::DestroyWorkspace { name } => EventView::DestroyWorkspace { name: name@ },
            Event::MoveWorkspace { workspace, monitor } => EventView::MoveWorkspace {
                workspace: workspace@,
                monitor: monitor@,
            },
            Event::ActiveLayout { keyboard_name, layout_name } => EventView::ActiveLayout {
                keyboard_name: keyboard_name@,
                layout_name: layout_name@,
            },
            Event::OpenWindow { address, workspace, class, title } => EventView::OpenWindow {
                address,
                workspace: workspace@,
                class: class@,
                title: title@,
            },
            Event::CloseWindow { address } => EventView::CloseWindow { address },
            Event::MoveWindow { address, workspace } => EventView::MoveWindow {
                address,
                workspace: workspace@,
            },
            Event::OpenLayer { name } => EventView::OpenLayer { name: name@ },
            Event::CloseLayer { name } => EventView::CloseLayer { name: name@ },
            Event::SubMap { name } => EventView::SubMap { name: name@ },
            Event::ChangeFloatingMode { address, active } => EventView::ChangeFloatingMode {
                address,
                active,
            },
            Event::Urgent { address } => EventView::Urgent { address },
            Event::Minimize { address, active } => EventView::Minimize { address, active },
            Event::ScreenCast { state, owner } => EventView::ScreenCast { state, owner },
            Event::WindowTitle { address } => EventView::WindowTitle { address },
            Event::IgnoreGroupLock { ignore } => EventView::IgnoreGroupLock { ignore },
            Event::LockGroups { lock } => EventView::LockGroups { lock },
            Event::ConfigReloaded => EventView::ConfigReloaded,
            Event::MonitorAddedV2 { id, name, description } => EventView::MonitorAddedV2 {
                id,
                name: name@,
                description: description@,
            },
            Event::Unknown { raw } => EventView::Unknown { raw: raw@ },
        }
    }
}

} // verus!
