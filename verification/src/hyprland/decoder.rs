//! Decoding of the event socket's lines.
//!
//! A line is `<name>>><fields>`: the name of the notification, the separator
//! `>>`, then the fields, delimited by commas. Each kind of notification has a
//! fixed number of fields, and the last field keeps any further comma, so that a
//! window title may hold one. A name that is not known decodes to
//! [`Event::Unknown`] and keeps the whole line.

use vstd::prelude::*;

use crate::hyprland::events::{Event, EventView, ScreenCastOwner};
use crate::text::{
    lemma_split_exact_len, parse_u64, parsed_u64, split_at_first, split_exact, split_fields,
    split_once, str_equal, views,
};

verus! {

/// Why a line could not be decoded.
#[derive(Debug, Clone, Copy, PartialEq, Eq)]
pub enum DecodeError {
    /// The line holds no `>>`.
    MissingSeparator,
    /// The line holds fewer fields than its kind of notification has.
    MissingField,
    /// A window address is not a hexadecimal 64-bit number.
    InvalidAddress,
    /// A monitor id is not a decimal 64-bit number.
    InvalidNumber,
}

/// The kinds of notification that have a layout of their own.
#[derive(Debug, Clone, Copy, PartialEq, Eq)]
pub enum EventKind {
    Workspace,
    FocusedMonitor,
    ActiveWindow,
    ActiveWindowV2,
    FullScreen,
    MonitorRemoved,
    MonitorAdded,
    CreateWorkspace,
    DestroyWorkspace,
    MoveWorkspace,
    ActiveLayout,
    OpenWindow,
    CloseWindow,
    MoveWindow,
    OpenLayer,
    CloseLayer,
    SubMap,
    ChangeFloatingMode,
    Urgent,
    Minimize,
    ScreenCast,
    WindowTitle,
    IgnoreGroupLock,
    LockGroups,
    ConfigReloaded,
    MonitorAddedV2,
}

/// Separator between the name of a notification and its fields.
pub open spec fn name_separator() -> Seq<char> {
    ">>"@
}

/// Delimiter between the fields of a notification.
pub open spec fn field_delimiter() -> Seq<char> {
    ","@
}

/// The field that stands for "no window" where an address is expected.
pub open spec fn no_window() -> Seq<char> {
    ","@
}

impl EventKind {
    /// The name under which the compositor announces this kind.
    pub open spec fn name(self) -> Seq<char> {
        match self {
            EventKind::Workspace => "workspace"@,
            EventKind::FocusedMonitor => "focusedmon"@,
            EventKind::ActiveWindow => "activewindow"@,
            EventKind::ActiveWindowV2 => "activewindowv2"@,
            EventKind::FullScreen => "fullscreen"@,
            EventKind::MonitorRemoved => "monitorremoved"@,
            EventKind::MonitorAdded => "monitoradded"@,
            EventKind::CreateWorkspace => "createworkspace"@,
            EventKind::DestroyWorkspace => "destroyworkspace"@,
            EventKind::MoveWorkspace => "moveworkspace"@,
            EventKind::ActiveLayout => "activelayout"@,
            EventKind::OpenWindow => "openwindow"@,
            EventKind::CloseWindow => "closewindow"@,
            EventKind::MoveWindow => "movewindow"@,
            EventKind::OpenLayer => "openlayer"@,
            EventKind::CloseLayer => "closelayer"@,
            EventKind::SubMap => "submap"@,
            EventKind::ChangeFloatingMode => "changefloatingmode"@,
            EventKind::Urgent => "urgent"@,
            EventKind::Minimize => "minimize"@,
            EventKind::ScreenCast => "screencast"@,
            EventKind::WindowTitle => "windowtitle"@,
            EventKind::IgnoreGroupLock => "ignoregrouplock"@,
            EventKind::LockGroups => "lockgroups"@,
            EventKind::ConfigReloaded => "configreloaded"@,
            EventKind::MonitorAddedV2 => "monitoraddedv2"@,
        }
    }

    /// Into how many fields the payload of this kind is cut.
    pub open spec fn field_count(self) -> nat {
        match self {
            EventKind::Workspace
            | EventKind::ActiveWindowV2
            | EventKind::FullScreen
            | EventKind::MonitorRemoved
            | EventKind::MonitorAdded
            | EventKind::CreateWorkspace
            | EventKind::DestroyWorkspace
            | EventKind::CloseWindow
            | EventKind::OpenLayer
            | EventKind::CloseLayer
            | EventKind::SubMap
            | EventKind::Urgent
            | EventKind::WindowTitle
            | EventKind::IgnoreGroupLock
            | EventKind::LockGroups
            | EventKind::ConfigReloaded => 1,
            EventKind::FocusedMonitor
            | EventKind::ActiveWindow
            | EventKind::MoveWorkspace
            | EventKind::ActiveLayout
            | EventKind::MoveWindow
            | EventKind::ChangeFloatingMode
            | EventKind::Minimize
            | EventKind::ScreenCast => 2,
            EventKind::MonitorAddedV2 => 3,
            EventKind::OpenWindow => 4,
        }
    }

    /// The kind that `name` announces, if it is a known one. Names are matched
    /// exactly, case included.
    pub open spec fn of_name(name: Seq<char>) -> Option<EventKind> {
        if name == "workspace"@ {
            Some(EventKind::Workspace)
        } else if name == "focusedmon"@ {
            Some(EventKind::FocusedMonitor)
        } else if name == "activewindow"@ {
            Some(EventKind::ActiveWindow)
        } else if name == "activewindowv2"@ {
            Some(EventKind::ActiveWindowV2)
        } else if name == "fullscreen"@ {
            Some(EventKind::FullScreen)
        } else if name == "monitorremoved"@ {
            Some(EventKind::MonitorRemoved)
        } else if name == "monitoradded"@ {
            Some(EventKind::MonitorAdded)
        } else if name == "createworkspace"@ {
            Some(EventKind::CreateWorkspace)
        } else if name == "destroyworkspace"@ {
            Some(EventKind::DestroyWorkspace)
        } else if name == "moveworkspace"@ {
            Some(EventKind::MoveWorkspace)
        } else if name == "activelayout"@ {
            Some(EventKind::ActiveLayout)
        } else if name == "openwindow"@ {
            Some(EventKind::OpenWindow)
        } else if name == "closewindow"@ {
            Some(EventKind::CloseWindow)
        } else if name == "movewindow"@ {
            Some(EventKind::MoveWindow)
        } else if name == "openlayer"@ {
            Some(EventKind::OpenLayer)
        } else if name == "closelayer"@ {
            Some(EventKind::CloseLayer)
        } else if name == "submap"@ {
            Some(EventKind::SubMap)
        } else if name == "changefloatingmode"@ {
            Some(EventKind::ChangeFloatingMode)
        } else if name == "urgent"@ {
            Some(EventKind::Urgent)
        } else if name == "minimize"@ {
            Some(EventKind::Minimize)
        } else if name == "screencast"@ {
            Some(EventKind::ScreenCast)
        } else if name == "windowtitle"@ {
            Some(EventKind::WindowTitle)
        } else if name == "ignoregrouplock"@ {
            Some(EventKind::IgnoreGroupLock)
        } else if name == "lockgroups"@ {
            Some(EventKind::LockGroups)
        } else if name == "configreloaded"@ {
            Some(EventKind::ConfigReloaded)
        } else if name == "monitoraddedv2"@ {
            Some(EventKind::MonitorAddedV2)
        } else {
            None
        }
    }

    /// The name under which the compositor announces this kind.
    pub fn wire_name(self) -> (r: &'static str)
        ensures
            r@ == self.name(),
    {
        match self {
            EventKind::Workspace => "workspace",
            EventKind::FocusedMonitor => "focusedmon",
            EventKind::ActiveWindow => "activewindow",
            EventKind::ActiveWindowV2 => "activewindowv2",
            EventKind::FullScreen => "fullscreen",
            EventKind::MonitorRemoved => "monitorremoved",
            EventKind::MonitorAdded => "monitoradded",
            EventKind::CreateWorkspace => "createworkspace",
            EventKind::DestroyWorkspace => "destroyworkspace",
            EventKind::MoveWorkspace => "moveworkspace",
            EventKind::ActiveLayout => "activelayout",
            EventKind::OpenWindow => "openwindow",
            EventKind::CloseWindow => "closewindow",
            EventKind::MoveWindow => "movewindow",
            EventKind::OpenLayer => "openlayer",
            EventKind::CloseLayer => "closelayer",
            EventKind::SubMap => "submap",
            EventKind::ChangeFloatingMode => "changefloatingmode",
            EventKind::Urgent => "urgent",
            EventKind::Minimize => "minimize",
            EventKind::ScreenCast => "screencast",
            EventKind::WindowTitle => "windowtitle",
            EventKind::IgnoreGroupLock => "ignoregrouplock",
            EventKind::LockGroups => "lockgroups",
            EventKind::ConfigReloaded => "configreloaded",
            EventKind::MonitorAddedV2 => "monitoraddedv2",
        }
    }

    /// Into how many fields the payload of this kind is cut.
    pub fn fields(self) -> (r: usize)
        ensures
            r == self.field_count(),
            1 <= r <= 4,
    {
        match self {
            EventKind::Workspace
            | EventKind::ActiveWindowV2
            | EventKind::FullScreen
            | EventKind::MonitorRemoved
            | EventKind::MonitorAdded
            | EventKind::CreateWorkspace
            | EventKind::DestroyWorkspace
            | EventKind::CloseWindow
            | EventKind::OpenLayer
            | EventKind::CloseLayer
            | EventKind::SubMap
            | EventKind::Urgent
            | EventKind::WindowTitle
            | EventKind::IgnoreGroupLock
            | EventKind::LockGroups
            | EventKind::ConfigReloaded => 1,
            EventKind::FocusedMonitor
            | EventKind::ActiveWindow
            | EventKind::MoveWorkspace
            | EventKind::ActiveLayout
            | EventKind::MoveWindow
            | EventKind::ChangeFloatingMode
            | EventKind::Minimize
            | EventKind::ScreenCast => 2,
            EventKind::MonitorAddedV2 => 3,
            EventKind::OpenWindow => 4,
        }
    }

    /// Looks a name up among the known kinds.
    pub fn from_name(name: &str) -> (r: Option<EventKind>)
        ensures
            r == EventKind::of_name(name@),
    {
        if str_equal(name, "workspace") {
            Some(EventKind::Workspace)
        } else if str_equal(name, "focusedmon") {
            Some(EventKind::FocusedMonitor)
        } else if str_equal(name, "activewindow") {
            Some(EventKind::ActiveWindow)
        } else if str_equal(name, "activewindowv2") {
            Some(EventKind::ActiveWindowV2)
        } else if str_equal(name, "fullscreen") {
            Some(EventKind::FullScreen)
        } else if str_equal(name, "monitorremoved") {
            Some(EventKind::MonitorRemoved)
        } else if str_equal(name, "monitoradded") {
            Some(EventKind::MonitorAdded)
        } else if str_equal(name, "createworkspace") {
            Some(EventKind::CreateWorkspace)
        } else if str_equal(name, "destroyworkspace") {
            Some(EventKind::DestroyWorkspace)
        } else if str_equal(name, "moveworkspace") {
            Some(EventKind::MoveWorkspace)
        } else if str_equal(name, "activelayout") {
            Some(EventKind::ActiveLayout)
        } else if str_equal(name, "openwindow") {
            Some(EventKind::OpenWindow)
        } else if str_equal(name, "closewindow") {
            Some(EventKind::CloseWindow)
        } else if str_equal(name, "movewindow") {
            Some(EventKind::MoveWindow)
        } else if str_equal(name, "openlayer") {
            Some(EventKind::OpenLayer)
        } else if str_equal(name, "closelayer") {
            Some(EventKind::CloseLayer)
        } else if str_equal(name, "submap") {
            Some(EventKind::SubMap)
        } else if str_equal(name, "changefloatingmode") {
            Some(EventKind::ChangeFloatingMode)
        } else if str_equal(name, "urgent") {
            Some(EventKind::Urgent)
        } else if str_equal(name, "minimize") {
            Some(EventKind::Minimize)
        } else if str_equal(name, "screencast") {
            Some(EventKind::ScreenCast)
        } else if str_equal(name, "windowtitle") {
            Some(EventKind::WindowTitle)
        } else if str_equal(name, "ignoregrouplock") {
            Some(EventKind::IgnoreGroupLock)
        } else if str_equal(name, "lockgroups") {
            Some(EventKind::LockGroups)
        } else if str_equal(name, "configreloaded") {
            Some(EventKind::ConfigReloaded)
        } else if str_equal(name, "monitoraddedv2") {
            Some(EventKind::MonitorAddedV2)
        } else {
            None
        }
    }
}

/// A flag is set by the field `1` and by nothing else.
pub open spec fn flag_of(field: Seq<char>) -> bool {
    field == "1"@
}

/// The owner of a screen share: the field `0` names the monitor, anything else
/// the window.
pub open spec fn owner_of(field: Seq<char>) -> ScreenCastOwner {
    if field == "0"@ {
        ScreenCastOwner::Monitor
    } else {
        ScreenCastOwner::Window
    }
}

/// A window address: hexadecimal digits of either case and nothing else,
/// neither sign nor prefix.
pub open spec fn address_of(field: Seq<char>) -> Option<u64> {
    parsed_u64(field, 16)
}

/// A monitor id: decimal digits and nothing else.
pub open spec fn number_of(field: Seq<char>) -> Option<u64> {
    parsed_u64(field, 10)
}

/// The event that the fields `f` of a notification of kind `kind` make up.
/// `f` holds `kind.field_count()` fields.
pub open spec fn event_of_fields(kind: EventKind, f: Seq<Seq<char>>) -> Result<
    EventView,
    DecodeError,
> {
    match kind {
        EventKind::Workspace => Ok(EventView::Workspace { name: f[0] }),
        EventKind::FocusedMonitor => Ok(EventView::FocusedMonitor {
            monitor: f[0],
            workspace: f[1],
        }),
        EventKind::ActiveWindow => Ok(EventView::ActiveWindow { class: f[0], title: f[1] }),
        EventKind::ActiveWindowV2 => if f[0] == no_window() {
            Ok(EventView::ActiveWindowV2 { address: None })
        } else {
            match address_of(f[0]) {
                Some(a) => Ok(EventView::ActiveWindowV2 { address: Some(a) }),
                None => Err(DecodeError::InvalidAddress),
            }
        },
        EventKind::FullScreen => Ok(EventView::FullScreen { active: flag_of(f[0]) }),
        EventKind::MonitorRemoved => Ok(EventView::MonitorRemoved { monitor: f[0] }),
        EventKind::MonitorAdded => Ok(EventView::MonitorAdded { monitor: f[0] }),
        EventKind::CreateWorkspace => Ok(EventView::CreateWorkspace { name: f[0] }),
        EventKind::DestroyWorkspace => Ok(EventView::DestroyWorkspace { name: f[0] }),
        EventKind::MoveWorkspace => Ok(EventView::MoveWorkspace { workspace: f[0], monitor: f[1] }),
        EventKind::ActiveLayout => Ok(EventView::ActiveLayout {
            keyboard_name: f[0],
            layout_name: f[1],
        }),
        EventKind::OpenWindow => match address_of(f[0]) {
            Some(address) => Ok(EventView::OpenWindow {
                address,
                workspace: f[1],
                class: f[2],
                title: f[3],
            }),
            None => Err(DecodeError::InvalidAddress),
        },
        EventKind::CloseWindow => match address_of(f[0]) {
            Some(address) => Ok(EventView::CloseWindow { address }),
            None => Err(DecodeError::InvalidAddress),
        },
        EventKind::MoveWindow => match address_of(f[0]) {
            Some(address) => Ok(EventView::MoveWindow { address, workspace: f[1] }),
            None => Err(DecodeError::InvalidAddress),
        },
        EventKind::OpenLayer => Ok(EventView::OpenLayer { name: f[0] }),
        EventKind::CloseLayer => Ok(EventView::CloseLayer { name: f[0] }),
        EventKind::SubMap => Ok(EventView::SubMap { name: f[0] }),
        EventKind::ChangeFloatingMode => match address_of(f[0]) {
            Some(address) => Ok(EventView::ChangeFloatingMode { address, active: flag_of(f[1]) }),
            None => Err(DecodeError::InvalidAddress),
        },
        EventKind::Urgent => match address_of(f[0]) {
            Some(address) => Ok(EventView::Urgent { address }),
            None => Err(DecodeError::InvalidAddress),
        },
        EventKind::Minimize => match address_of(f[0]) {
            Some(address) => Ok(EventView::Minimize { address, active: flag_of(f[1]) }),
            None => Err(DecodeError::InvalidAddress),
        },
        EventKind::ScreenCast => Ok(EventView::ScreenCast {
            state: flag_of(f[0]),
            owner: owner_of(f[1]),
        }),
        EventKind::WindowTitle => match address_of(f[0]) {
            Some(address) => Ok(EventView::WindowTitle { address }),
            None => Err(DecodeError::InvalidAddress),
        },
        EventKind::IgnoreGroupLock => Ok(EventView::IgnoreGroupLock { ignore: flag_of(f[0]) }),
        EventKind::LockGroups => Ok(EventView::LockGroups { lock: flag_of(f[0]) }),
        EventKind::ConfigReloaded => Ok(EventView::ConfigReloaded),
        EventKind::MonitorAddedV2 => match number_of(f[0]) {
            Some(id) => Ok(EventView::MonitorAddedV2 { id, name: f[1], description: f[2] }),
            None => Err(DecodeError::InvalidNumber),
        },
    }
}

/// The event that the payload `data` of a notification of kind `kind` holds.
pub open spec fn decode_payload(kind: EventKind, data: Seq<char>) -> Result<
    EventView,
    DecodeError,
> {
    match split_exact(data, field_delimiter(), kind.field_count()) {
        Some(f) => event_of_fields(kind, f),
        None => Err(DecodeError::MissingField),
    }
}

/// The event that a line holds.
pub open spec fn decode_line(line: Seq<char>) -> Result<EventView, DecodeError> {
    match split_at_first(line, name_separator()) {
        Some((name, data)) => match EventKind::of_name(name) {
            Some(kind) => decode_payload(kind, data),
            None => Ok(EventView::Unknown { raw: line }),
        },
        None => Err(DecodeError::MissingSeparator),
    }
}

/// What [`decode`] returned, as a mathematical value.
pub open spec fn decoded_view(r: Result<Event, DecodeError>) -> Result<EventView, DecodeError> {
    match r {
        Ok(event) => Ok(event@),
        Err(e) => Err(e),
    }
}

fn flag(field: &str) -> (r: bool)
    ensures
        r == flag_of(field@),
{
    str_equal(field, "1")
}

fn owner(field: &str) -> (r: ScreenCastOwner)
    ensures
        r == owner_of(field@),
{
    if str_equal(field, "0") {
        ScreenCastOwner::Monitor
    } else {
        ScreenCastOwner::Window
    }
}

fn address(field: &str) -> (r: Result<u64, DecodeError>)
    ensures
        match r {
            Ok(a) => address_of(field@) == Some(a),
            Err(e) => address_of(field@) is None && e == DecodeError::InvalidAddress,
        },
{
    match parse_u64(field, 16) {
        Some(a) => Ok(a),
        None => Err(DecodeError::InvalidAddress),
    }
}

fn number(field: &str) -> (r: Result<u64, DecodeError>)
    ensures
        match r {
            Ok(n) => number_of(field@) == Some(n),
            Err(e) => number_of(field@) is None && e == DecodeError::InvalidNumber,
        },
{
    match parse_u64(field, 10) {
        Some(n) => Ok(n),
        None => Err(DecodeError::InvalidNumber),
    }
}

/// Builds the event of kind `kind` from its fields.
fn event_from_fields(kind: EventKind, f: &Vec<&str>) -> (r: Result<Event, DecodeError>)
    requires
        f.len() == kind.field_count(),
    ensures
        decoded_view(r) == event_of_fields(kind, views(f@)),
{
    match kind {
        EventKind::Workspace => Ok(Event::Workspace { name: f[0].to_owned() }),
        EventKind::FocusedMonitor => Ok(Event::FocusedMonitor {
            monitor: f[0].to_owned(),
            workspace: f[1].to_owned(),
        }),
        EventKind::ActiveWindow => Ok(Event::ActiveWindow {
            class: f[0].to_owned(),
            title: f[1].to_owned(),
        }),
        EventKind::ActiveWindowV2 => if str_equal(f[0], ",") {
            Ok(Event::ActiveWindowV2 { address: None })
        } else {
            match address(f[0]) {
                Ok(a) => Ok(Event::ActiveWindowV2 { address: Some(a) }),
                Err(e) => Err(e),
            }
        },
        EventKind::FullScreen => Ok(Event::FullScreen { active: flag(f[0]) }),
        EventKind::MonitorRemoved => Ok(Event::MonitorRemoved { monitor: f[0].to_owned() }),
        EventKind::MonitorAdded => Ok(Event::MonitorAdded { monitor: f[0].to_owned() }),
        EventKind::CreateWorkspace => Ok(Event::CreateWorkspace { name: f[0].to_owned() }),
        EventKind::DestroyWorkspace => Ok(Event::DestroyWorkspace { name: f[0].to_owned() }),
        EventKind::MoveWorkspace => Ok(Event::MoveWorkspace {
            workspace: f[0].to_owned(),
            monitor: f[1].to_owned(),
        }),
        EventKind::ActiveLayout => Ok(Event::ActiveLayout {
            keyboard_name: f[0].to_owned(),
            layout_name: f[1].to_owned(),
        }),
        EventKind::OpenWindow => match address(f[0]) {
            Ok(address) => Ok(Event::OpenWindow {
                address,
                workspace: f[1].to_owned(),
                class: f[2].to_owned(),
                title: f[3].to_owned(),
            }),
            Err(e) => Err(e),
        },
        EventKind::CloseWindow => match address(f[0]) {
            Ok(address) => Ok(Event::CloseWindow { address }),
            Err(e) => Err(e),
        },
        EventKind::MoveWindow => match address(f[0]) {
            Ok(address) => Ok(Event::MoveWindow { address, workspace: f[1].to_owned() }),
            Err(e) => Err(e),
        },
        EventKind::OpenLayer => Ok(Event::OpenLayer { name: f[0].to_owned() }),
        EventKind::CloseLayer => Ok(Event::CloseLayer { name: f[0].to_owned() }),
        EventKind::SubMap => Ok(Event::SubMap { name: f[0].to_owned() }),
        EventKind::ChangeFloatingMode => match address(f[0]) {
            Ok(address) => Ok(Event::ChangeFloatingMode { address, active: flag(f[1]) }),
            Err(e) => Err(e),
        },
        EventKind::Urgent => match address(f[0]) {
            Ok(address) => Ok(Event::Urgent { address }),
            Err(e) => Err(e),
        },
        EventKind::Minimize => match address(f[0]) {
            Ok(address) => Ok(Event::Minimize { address, active: flag(f[1]) }),
            Err(e) => Err(e),
        },
        EventKind::ScreenCast => Ok(Event::ScreenCast { state: flag(f[0]), owner: owner(f[1]) }),
        EventKind::WindowTitle => match address(f[0]) {
            Ok(address) => Ok(Event::WindowTitle { address }),
            Err(e) => Err(e),
        },
        EventKind::IgnoreGroupLock => Ok(Event::IgnoreGroupLock { ignore: flag(f[0]) }),
        EventKind::LockGroups => Ok(Event::LockGroups { lock: flag(f[0]) }),
        EventKind::ConfigReloaded => Ok(Event::ConfigReloaded),
        EventKind::MonitorAddedV2 => match number(f[0]) {
            Ok(id) => Ok(Event::MonitorAddedV2 {
                id,
                name: f[1].to_owned(),
                description: f[2].to_owned(),
            }),
            Err(e) => Err(e),
        },
    }
}

/// Decodes one line of the event socket, already stripped of its line end.
///
/// Exactly one event or one error comes out of each line: a line without `>>`,
/// with too few fields for its kind or with a malformed number is an error,
/// and a line whose name is not known is kept whole as [`Event::Unknown`].
pub fn decode(line: &str) -> (r: Result<Event, DecodeError>)
    ensures
        decoded_view(r) == decode_line(line@),
{
    let (name, data) = match split_once(line, ">>") {
        Some(parts) => parts,
        None => {
            return Err(DecodeError::MissingSeparator);
        },
    };
    let kind = match EventKind::from_name(name) {
        Some(kind) => kind,
        None => {
            return Ok(Event::Unknown { raw: line.to_owned() });
        },
    };
    proof {
        lemma_split_exact_len(data@, field_delimiter(), kind.field_count());
    }
    match split_fields(data, ",", kind.fields()) {
        Some(f) => event_from_fields(kind, &f),
        None => Err(DecodeError::MissingField),
    }
}

} // verus!
