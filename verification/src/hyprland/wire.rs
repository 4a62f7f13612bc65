//! The lines that the compositor writes, seen from its side: how an event is
//! written down, and the proof that decoding reads back what was written.

use vstd::prelude::*;

use crate::hyprland::decoder::{
    decode_line, event_of_fields, field_delimiter, flag_of, name_separator, no_window, owner_of,
    DecodeError, EventKind,
};
use crate::hyprland::events::{EventView, ScreenCastOwner};
use crate::text::{
    digit_value, digits_of, free_of, joined, lemma_digits_of, lemma_parse_digits_of,
    lemma_split_after_prefix, lemma_split_joined, split_at_first,
};

verus! {

/// The line that announces a notification of kind `kind` with the fields `f`.
pub open spec fn line_of(kind: EventKind, f: Seq<Seq<char>>) -> Seq<char> {
    kind.name() + name_separator() + joined(f, field_delimiter())
}

/// How a flag is written.
pub open spec fn flag_text(flag: bool) -> Seq<char> {
    if flag {
        "1"@
    } else {
        "0"@
    }
}

/// How the owner of a screen share is written.
pub open spec fn owner_text(owner: ScreenCastOwner) -> Seq<char> {
    match owner {
        ScreenCastOwner::Monitor => "0"@,
        ScreenCastOwner::Window => "1"@,
    }
}

/// How a window address is written: in hexadecimal, without prefix.
pub open spec fn address_text(address: u64) -> Seq<char> {
    digits_of(address as nat, 16)
}

/// How a monitor id is written: in decimal.
pub open spec fn number_text(id: u64) -> Seq<char> {
    digits_of(id as nat, 10)
}

/// The kind of an event, for every event but [`EventView::Unknown`].
pub open spec fn kind_of(event: EventView) -> Option<EventKind> {
    match event {
        EventView::Workspace { .. } => Some(EventKind::Workspace),
        EventView::FocusedMonitor { .. } => Some(EventKind::FocusedMonitor),
        EventView::ActiveWindow { .. } => Some(EventKind::ActiveWindow),
        EventView::ActiveWindowV2 { .. } => Some(EventKind::ActiveWindowV2),
        EventView::FullScreen { .. } => Some(EventKind::FullScreen),
        EventView::MonitorRemoved { .. } => Some(EventKind::MonitorRemoved),
        EventView::MonitorAdded { .. } => Some(EventKind::MonitorAdded),
        EventView::CreateWorkspace { .. } => Some(EventKind::CreateWorkspace),
        EventView::DestroyWorkspace { .. } => Some(EventKind::DestroyWorkspace),
        EventView::MoveWorkspace { .. } => Some(EventKind::MoveWorkspace),
        EventView::ActiveLayout { .. } => Some(EventKind::ActiveLayout),
        EventView::OpenWindow { .. } => Some(EventKind::OpenWindow),
        EventView::CloseWindow { .. } => Some(EventKind::CloseWindow),
        EventView::MoveWindow { .. } => Some(EventKind::MoveWindow),
        EventView::OpenLayer { .. } => Some(EventKind::OpenLayer),
        EventView::CloseLayer { .. } => Some(EventKind::CloseLayer),
        EventView::SubMap { .. } => Some(EventKind::SubMap),
        EventView::ChangeFloatingMode { .. } => Some(EventKind::ChangeFloatingMode),
        EventView::Urgent { .. } => Some(EventKind::Urgent),
        EventView::Minimize { .. } => Some(EventKind::Minimize),
        EventView::ScreenCast { .. } => Some(EventKind::ScreenCast),
        EventView::WindowTitle { .. } => Some(EventKind::WindowTitle),
        EventView::IgnoreGroupLock { .. } => Some(EventKind::IgnoreGroupLock),
        EventView::LockGroups { .. } => Some(EventKind::LockGroups),
        EventView::ConfigReloaded => Some(EventKind::ConfigReloaded),
        EventView::MonitorAddedV2 { .. } => Some(EventKind::MonitorAddedV2),
        EventView::Unknown { .. } => None,
    }
}

/// The fields that write `event` down, in the order of its line.
pub open spec fn fields_of(event: EventView) -> Seq<Seq<char>> {
    match event {
        EventView::Workspace { name } => seq![name],
        EventView::FocusedMonitor { monitor, workspace } => seq![monitor, workspace],
        EventView::ActiveWindow { class, title } => seq![class, title],
        EventView::ActiveWindowV2 { address } => seq![
            match address {
                Some(a) => address_text(a),
                None => no_window(),
            },
        ],
        EventView::FullScreen { active } => seq![flag_text(active)],
        EventView::MonitorRemoved { monitor } => seq![monitor],
        EventView::MonitorAdded { monitor } => seq![monitor],
        EventView::CreateWorkspace { name } => seq![name],
        EventView::DestroyWorkspace { name } => seq![name],
        EventView::MoveWorkspace { workspace, monitor } => seq![workspace, monitor],
        EventView::ActiveLayout { keyboard_name, layout_name } => seq![keyboard_name, layout_name],
        EventView::OpenWindow {
            address,
            workspace,
            class,
            title,
        } => seq![address_text(address), workspace, class, title],
        EventView::CloseWindow { address } => seq![address_text(address)],
        EventView::MoveWindow { address, workspace } => seq![address_text(address), workspace],
        EventView::OpenLayer { name } => seq![name],
        EventView::CloseLayer { name } => seq![name],
        EventView::SubMap { name } => seq![name],
        EventView::ChangeFloatingMode {
            address,
            active,
        } => seq![address_text(address), flag_text(active)],
        EventView::Urgent { address } => seq![address_text(address)],
        EventView::Minimize { address, active } => seq![address_text(address), flag_text(active)],
        EventView::ScreenCast { state, owner } => seq![flag_text(state), owner_text(owner)],
        EventView::WindowTitle { address } => seq![address_text(address)],
        EventView::IgnoreGroupLock { ignore } => seq![flag_text(ignore)],
        EventView::LockGroups { lock } => seq![flag_text(lock)],
        EventView::ConfigReloaded => seq![Seq::empty()],
        EventView::MonitorAddedV2 {
            id,
            name,
            description,
        } => seq![number_text(id), name, description],
        EventView::Unknown { raw } => seq![raw],
    }
}

/// The line that announces `event`; an unknown notification is its own line.
pub open spec fn written(event: EventView) -> Seq<char> {
    match kind_of(event) {
        Some(kind) => line_of(kind, fields_of(event)),
        None => fields_of(event)[0],
    }
}

/// Every field but the last is free of commas, so that no field is cut in two.
pub open spec fn delimitable(f: Seq<Seq<char>>) -> bool {
    forall|i: int| 0 <= i < f.len() - 1 ==> free_of(#[trigger] f[i], ',')
}

/// The names of the kinds hold no `>`.
pub proof fn lemma_names_are_plain(kind: EventKind)
    ensures
        free_of(kind.name(), '>'),
{
    match kind {
        EventKind::Workspace => {
            reveal_strlit("workspace");
        },
        EventKind::FocusedMonitor => {
            reveal_strlit("focusedmon");
        },
        EventKind::ActiveWindow => {
            reveal_strlit("activewindow");
        },
        EventKind::ActiveWindowV2 => {
            reveal_strlit("activewindowv2");
        },
        EventKind::FullScreen => {
            reveal_strlit("fullscreen");
        },
        EventKind::MonitorRemoved => {
            reveal_strlit("monitorremoved");
        },
        EventKind::MonitorAdded => {
            reveal_strlit("monitoradded");
        },
        EventKind::CreateWorkspace => {
            reveal_strlit("createworkspace");
        },
        EventKind::DestroyWorkspace => {
            reveal_strlit("destroyworkspace");
        },
        EventKind::MoveWorkspace => {
            reveal_strlit("moveworkspace");
        },
        EventKind::ActiveLayout => {
            reveal_strlit("activelayout");
        },
        EventKind::OpenWindow => {
            reveal_strlit("openwindow");
        },
        EventKind::CloseWindow => {
            reveal_strlit("closewindow");
        },
        EventKind::MoveWindow => {
            reveal_strlit("movewindow");
        },
        EventKind::OpenLayer => {
            reveal_strlit("openlayer");
        },
        EventKind::CloseLayer => {
            reveal_strlit("closelayer");
        },
        EventKind::SubMap => {
            reveal_strlit("submap");
        },
        EventKind::ChangeFloatingMode => {
            reveal_strlit("changefloatingmode");
        },
        EventKind::Urgent => {
            reveal_strlit("urgent");
        },
        EventKind::Minimize => {
            reveal_strlit("minimize");
        },
        EventKind::ScreenCast => {
            reveal_strlit("screencast");
        },
        EventKind::WindowTitle => {
            reveal_strlit("windowtitle");
        },
        EventKind::IgnoreGroupLock => {
            reveal_strlit("ignoregrouplock");
        },
        EventKind::LockGroups => {
            reveal_strlit("lockgroups");
        },
        EventKind::ConfigReloaded => {
            reveal_strlit("configreloaded");
        },
        EventKind::MonitorAddedV2 => {
            reveal_strlit("monitoraddedv2");
        },
    }
}

/// What tells the names of the kinds apart: the length, the first character
/// and the eighth, where there is one.
spec fn mark_of(name: Seq<char>) -> (nat, char, char) {
    (
        name.len(),
        name[0],
        if name.len() > 7 {
            name[7]
        } else {
            ' '
        },
    )
}

/// Each kind is found again by its name: no two kinds share one.
pub proof fn lemma_names_are_distinct(kind: EventKind)
    ensures
        EventKind::of_name(kind.name()) == Some(kind),
{
    reveal_strlit("workspace");
    reveal_strlit("focusedmon");
    reveal_strlit("activewindow");
    reveal_strlit("activewindowv2");
    reveal_strlit("fullscreen");
    reveal_strlit("monitorremoved");
    reveal_strlit("monitoradded");
    reveal_strlit("createworkspace");
    reveal_strlit("destroyworkspace");
    reveal_strlit("moveworkspace");
    reveal_strlit("activelayout");
    reveal_strlit("openwindow");
    reveal_strlit("closewindow");
    reveal_strlit("movewindow");
    reveal_strlit("openlayer");
    reveal_strlit("closelayer");
    reveal_strlit("submap");
    reveal_strlit("changefloatingmode");
    reveal_strlit("urgent");
    reveal_strlit("minimize");
    reveal_strlit("screencast");
    reveal_strlit("windowtitle");
    reveal_strlit("ignoregrouplock");
    reveal_strlit("lockgroups");
    reveal_strlit("configreloaded");
    reveal_strlit("monitoraddedv2");
    assert(mark_of("workspace"@) == (9nat, 'w', 'c'));
    assert(mark_of("focusedmon"@) == (10nat, 'f', 'm'));
    assert(mark_of("activewindow"@) == (12nat, 'a', 'i'));
    assert(mark_of("activewindowv2"@) == (14nat, 'a', 'i'));
    assert(mark_of("fullscreen"@) == (10nat, 'f', 'e'));
    assert(mark_of("monitorremoved"@) == (14nat, 'm', 'r'));
    assert(mark_of("monitoradded"@) == (12nat, 'm', 'a'));
    assert(mark_of("createworkspace"@) == (15nat, 'c', 'o'));
    assert(mark_of("destroyworkspace"@) == (16nat, 'd', 'w'));
    assert(mark_of("moveworkspace"@) == (13nat, 'm', 'k'));
    assert(mark_of("activelayout"@) == (12nat, 'a', 'a'));
    assert(mark_of("openwindow"@) == (10nat, 'o', 'd'));
    assert(mark_of("closewindow"@) == (11nat, 'c', 'n'));
    assert(mark_of("movewindow"@) == (10nat, 'm', 'd'));
    assert(mark_of("openlayer"@) == (9nat, 'o', 'e'));
    assert(mark_of("closelayer"@) == (10nat, 'c', 'y'));
    assert(mark_of("submap"@) == (6nat, 's', ' '));
    assert(mark_of("changefloatingmode"@) == (18nat, 'c', 'l'));
    assert(mark_of("urgent"@) == (6nat, 'u', ' '));
    assert(mark_of("minimize"@) == (8nat, 'm', 'e'));
    assert(mark_of("screencast"@) == (10nat, 's', 'a'));
    assert(mark_of("windowtitle"@) == (11nat, 'w', 'i'));
    assert(mark_of("ignoregrouplock"@) == (15nat, 'i', 'r'));
    assert(mark_of("lockgroups"@) == (10nat, 'l', 'u'));
    assert(mark_of("configreloaded"@) == (14nat, 'c', 'e'));
    assert(mark_of("monitoraddedv2"@) == (14nat, 'm', 'a'));
}

/// A line made of a known name, the separator and fields of which all but the
/// last are free of commas decodes to the event of exactly those fields.
pub proof fn lemma_line_decodes_to_its_fields(kind: EventKind, f: Seq<Seq<char>>)
    requires
        f.len() == kind.field_count(),
        delimitable(f),
    ensures
        decode_line(line_of(kind, f)) == event_of_fields(kind, f),
{
    reveal_strlit(">>");
    reveal_strlit(",");
    let payload = joined(f, field_delimiter());
    lemma_names_are_plain(kind);
    lemma_split_after_prefix(kind.name(), name_separator(), payload);
    lemma_names_are_distinct(kind);
    lemma_split_joined(f, field_delimiter());
}

/// Numbers are written without commas.
proof fn lemma_digits_are_delimitable(n: nat, radix: nat)
    requires
        2 <= radix <= 36,
    ensures
        free_of(digits_of(n, radix), ','),
        digits_of(n, radix) != no_window(),
{
    reveal_strlit(",");
    lemma_digits_of(n, radix);
    let s = digits_of(n, radix);
    assert(digit_value(',') is None);
    assert forall|i: int| 0 <= i < s.len() implies s[i] != ',' by {
        assert(digit_value(s[i]) is Some);
    }
    assert(digit_value(s[0]) is Some);
}

/// Flags and owners are written without commas, and read back as themselves.
proof fn lemma_marks_read_back(flag: bool, owner: ScreenCastOwner)
    ensures
        free_of(flag_text(flag), ','),
        free_of(owner_text(owner), ','),
        flag_of(flag_text(flag)) == flag,
        owner_of(owner_text(owner)) == owner,
{
    reveal_strlit("0");
    reveal_strlit("1");
    reveal_strlit(",");
    assert("0"@[0] == '0');
    assert("1"@[0] == '1');
}

/// The fields that write an event down are read back as that event, each in
/// its type.
pub proof fn lemma_fields_read_back(event: EventView)
    requires
        kind_of(event) is Some,
    ensures
        fields_of(event).len() == kind_of(event).unwrap().field_count(),
        event_of_fields(kind_of(event).unwrap(), fields_of(event)) == Ok::<
            EventView,
            DecodeError,
        >(event),
{
    match event {
        EventView::Workspace { name } => {
        },
        EventView::FocusedMonitor { monitor, workspace } => {
        },
        EventView::ActiveWindow { class, title } => {
        },
        EventView::ActiveWindowV2 { address } => {
            match address {
                Some(a) => {
                    lemma_parse_digits_of(a, 16);
                    lemma_digits_are_delimitable(a as nat, 16);
                },
                None => {},
            }
        },
        EventView::FullScreen { active } => {
            lemma_marks_read_back(active, ScreenCastOwner::Monitor);
        },
        EventView::MonitorRemoved { monitor } => {
        },
        EventView::MonitorAdded { monitor } => {
        },
        EventView::CreateWorkspace { name } => {
        },
        EventView::DestroyWorkspace { name } => {
        },
        EventView::MoveWorkspace { workspace, monitor } => {
        },
        EventView::ActiveLayout { keyboard_name, layout_name } => {
        },
        EventView::OpenWindow { address, workspace, class, title } => {
            lemma_parse_digits_of(address, 16);
        },
        EventView::CloseWindow { address } => {
            lemma_parse_digits_of(address, 16);
        },
        EventView::MoveWindow { address, workspace } => {
            lemma_parse_digits_of(address, 16);
        },
        EventView::OpenLayer { name } => {
        },
        EventView::CloseLayer { name } => {
        },
        EventView::SubMap { name } => {
        },
        EventView::ChangeFloatingMode { address, active } => {
            lemma_parse_digits_of(address, 16);
            lemma_marks_read_back(active, ScreenCastOwner::Monitor);
        },
        EventView::Urgent { address } => {
            lemma_parse_digits_of(address, 16);
        },
        EventView::Minimize { address, active } => {
            lemma_parse_digits_of(address, 16);
            lemma_marks_read_back(active, ScreenCastOwner::Monitor);
        },
        EventView::ScreenCast { state, owner } => {
            lemma_marks_read_back(state, ScreenCastOwner::Monitor);
            lemma_marks_read_back(true, owner);
        },
        EventView::WindowTitle { address } => {
            lemma_parse_digits_of(address, 16);
        },
        EventView::IgnoreGroupLock { ignore } => {
            lemma_marks_read_back(ignore, ScreenCastOwner::Monitor);
        },
        EventView::LockGroups { lock } => {
            lemma_marks_read_back(lock, ScreenCastOwner::Monitor);
        },
        EventView::ConfigReloaded => {},
        EventView::MonitorAddedV2 { id, name, description } => {
            lemma_parse_digits_of(id, 10);
        },
        EventView::Unknown { .. } => {},
    }
}

/// Round trip: the line that announces an event of a known kind decodes to
/// that very event, with every field of its type: an address from its
/// hexadecimal digits, a flag from `1`, an absent window from the lone comma.
/// Text fields are free, except that only the last of a line may hold a comma.
pub proof fn lemma_round_trip(event: EventView)
    requires
        kind_of(event) is Some,
        delimitable(fields_of(event)),
    ensures
        decode_line(written(event)) == Ok::<EventView, DecodeError>(event),
{
    lemma_fields_read_back(event);
    lemma_line_decodes_to_its_fields(kind_of(event).unwrap(), fields_of(event));
}

/// Written numbers, flags and owners never stand in the way: an event whose
/// text fields, but the last, hold no comma can be written and read back.
pub proof fn lemma_fields_are_delimitable(event: EventView)
    requires
        match event {
            EventView::Workspace { .. } => true,
            EventView::FocusedMonitor { monitor, .. } => free_of(monitor, ','),
            EventView::ActiveWindow { class, .. } => free_of(class, ','),
            EventView::ActiveWindowV2 { .. } => true,
            EventView::FullScreen { .. } => true,
            EventView::MonitorRemoved { .. } => true,
            EventView::MonitorAdded { .. } => true,
            EventView::CreateWorkspace { .. } => true,
            EventView::DestroyWorkspace { .. } => true,
            EventView::MoveWorkspace { workspace, .. } => free_of(workspace, ','),
            EventView::ActiveLayout { keyboard_name, .. } => free_of(keyboard_name, ','),
            EventView::OpenWindow {
                workspace,
                class,
                ..
            } => free_of(workspace, ',') && free_of(class, ','),
            EventView::CloseWindow { .. } => true,
            EventView::MoveWindow { .. } => true,
            EventView::OpenLayer { .. } => true,
            EventView::CloseLayer { .. } => true,
            EventView::SubMap { .. } => true,
            EventView::ChangeFloatingMode { .. } => true,
            EventView::Urgent { .. } => true,
            EventView::Minimize { .. } => true,
            EventView::ScreenCast { .. } => true,
            EventView::WindowTitle { .. } => true,
            EventView::IgnoreGroupLock { .. } => true,
            EventView::LockGroups { .. } => true,
            EventView::ConfigReloaded => true,
            EventView::MonitorAddedV2 { name, .. } => free_of(name, ','),
            EventView::Unknown { .. } => true,
        },
    ensures
        delimitable(fields_of(event)),
{
    match event {
        EventView::Workspace { name } => {
        },
        EventView::FocusedMonitor { monitor, workspace } => {
        },
        EventView::ActiveWindow { class, title } => {
        },
        EventView::ActiveWindowV2 { address } => {
        },
        EventView::FullScreen { active } => {
        },
        EventView::MonitorRemoved { monitor } => {
        },
        EventView::MonitorAdded { monitor } => {
        },
        EventView::CreateWorkspace { name } => {
        },
        EventView::DestroyWorkspace { name } => {
        },
        EventView::MoveWorkspace { workspace, monitor } => {
        },
        EventView::ActiveLayout { keyboard_name, layout_name } => {
        },
        EventView::OpenWindow { address, workspace, class, title } => {
            lemma_digits_are_delimitable(address as nat, 16);
        },
        EventView::CloseWindow { address } => {
        },
        EventView::MoveWindow { address, workspace } => {
            lemma_digits_are_delimitable(address as nat, 16);
        },
        EventView::OpenLayer { name } => {
        },
        EventView::CloseLayer { name } => {
        },
        EventView::SubMap { name } => {
        },
        EventView::ChangeFloatingMode { address, active } => {
            lemma_digits_are_delimitable(address as nat, 16);
        },
        EventView::Urgent { address } => {
        },
        EventView::Minimize { address, active } => {
            lemma_digits_are_delimitable(address as nat, 16);
        },
        EventView::ScreenCast { state, owner } => {
            lemma_marks_read_back(state, ScreenCastOwner::Monitor);
        },
        EventView::WindowTitle { address } => {
        },
        EventView::IgnoreGroupLock { ignore } => {
        },
        EventView::LockGroups { lock } => {
        },
        EventView::ConfigReloaded => {},
        EventView::MonitorAddedV2 { id, name, description } => {
            lemma_digits_are_delimitable(id as nat, 10);
        },
        EventView::Unknown { .. } => {},
    }
}

/// Totality on unknown names: a line that holds the separator and whose name
/// is none of the known ones always decodes, to [`EventView::Unknown`] with
/// the whole line, whatever follows the separator.
pub proof fn lemma_unknown_name_is_kept(line: Seq<char>)
    requires
        split_at_first(line, name_separator()) matches Some((name, _)) && EventKind::of_name(name)
            is None,
    ensures
        decode_line(line) == Ok::<EventView, DecodeError>(EventView::Unknown { raw: line }),
{
}

} // verus!
