//! The state behind the client's debug menu, and the decisions the menu
//! takes on it.

use vstd::prelude::*;
use vstd::string::*;

use crate::text::{trim, trim_text};

verus! {

/// The camera the debug menu puts in control.
#[derive(Copy, Clone, Debug, PartialEq, Eq, Structural)]
pub enum DebugCameraType {
    Orbit,
    Free,
}

impl Default for DebugCameraType {
    fn default() -> (camera: Self)
        ensures
            camera == DebugCameraType::Orbit,
    {
        DebugCameraType::Orbit
    }
}

/// Which debug windows are open.
pub struct UiStateDebugWindows {
    pub debug_ui_open: bool,
    pub camera_info_open: bool,
    pub client_entity_list_open: bool,
    pub command_viewer_open: bool,
    pub debug_render_open: bool,
    pub dialog_list_open: bool,
    pub effect_list_open: bool,
    pub item_list_open: bool,
    pub npc_list_open: bool,
    pub object_inspector_open: bool,
    pub physics_open: bool,
    pub skill_list_open: bool,
    pub zone_list_open: bool,
    pub zone_lighting_open: bool,
    pub zone_time_open: bool,
}

impl Default for UiStateDebugWindows {
    fn default() -> (windows: Self)
        ensures
            windows == (UiStateDebugWindows {
                debug_ui_open: false,
                camera_info_open: false,
                client_entity_list_open: false,
                command_viewer_open: false,
                debug_render_open: false,
                dialog_list_open: false,
                effect_list_open: false,
                item_list_open: false,
                npc_list_open: false,
                object_inspector_open: false,
                physics_open: false,
                skill_list_open: false,
                zone_list_open: false,
                zone_lighting_open: false,
                zone_time_open: false,
            }),
    {
        UiStateDebugWindows {
            debug_ui_open: false,
            camera_info_open: false,
            client_entity_list_open: false,
            command_viewer_open: false,
            debug_render_open: false,
            dialog_list_open: false,
            effect_list_open: false,
            item_list_open: false,
            npc_list_open: false,
            object_inspector_open: false,
            physics_open: false,
            skill_list_open: false,
            zone_list_open: false,
            zone_lighting_open: false,
            zone_time_open: false,
        }
    }
}

/// The debug windows after the hotkey check: the debug interface toggled
/// where left Ctrl is held while D is pressed, everything else as it was.
pub open spec fn after_debug_hotkey(
    w: UiStateDebugWindows,
    control_held: bool,
    d_just_pressed: bool,
) -> UiStateDebugWindows {
    UiStateDebugWindows { debug_ui_open: w.debug_ui_open != (control_held && d_just_pressed), ..w }
}

/// The hotkey is a toggle: pressing it twice restores every window as it
/// was, and D without Ctrl, or Ctrl without D, changes nothing.
pub proof fn lemma_debug_hotkey_toggles(w: UiStateDebugWindows)
    ensures
        after_debug_hotkey(after_debug_hotkey(w, true, true), true, true) == w,
        after_debug_hotkey(w, false, true) == w,
        after_debug_hotkey(w, true, false) == w,
        after_debug_hotkey(w, true, true).debug_ui_open != w.debug_ui_open,
{
}

/// Only left Ctrl held together with D just pressed does anything: without
/// both, every window stays as it is; with both, the debug interface flips
/// and every other window stays as it is.
pub proof fn lemma_debug_hotkey_needs_both_keys(
    w: UiStateDebugWindows,
    control_held: bool,
    d_just_pressed: bool,
)
    ensures
        !(control_held && d_just_pressed) ==> after_debug_hotkey(w, control_held, d_just_pressed)
            == w,
        control_held && d_just_pressed ==> {
            let a = after_debug_hotkey(w, control_held, d_just_pressed);
            &&& a.debug_ui_open == !w.debug_ui_open
            &&& a.camera_info_open == w.camera_info_open
            &&& a.client_entity_list_open == w.client_entity_list_open
            &&& a.command_viewer_open == w.command_viewer_open
            &&& a.debug_render_open == w.debug_render_open
            &&& a.dialog_list_open == w.dialog_list_open
            &&& a.effect_list_open == w.effect_list_open
            &&& a.item_list_open == w.item_list_open
            &&& a.npc_list_open == w.npc_list_open
            &&& a.object_inspector_open == w.object_inspector_open
            &&& a.physics_open == w.physics_open
            &&& a.skill_list_open == w.skill_list_open
            &&& a.zone_list_open == w.zone_list_open
            &&& a.zone_lighting_open == w.zone_lighting_open
            &&& a.zone_time_open == w.zone_time_open
        },
{
}

/// Once a cheat was added its inputs are empty, and nothing can be added from
/// empty inputs: the same cheat is not added twice by one click each.
pub proof fn lemma_no_cheat_from_empty_inputs()
    ensures
        !cheat_addable(Seq::<char>::empty(), Seq::<char>::empty()),
{
}

impl UiStateDebugWindows {
    /// Left Ctrl held while D is pressed toggles the debug interface; gives
    /// whether it is open afterwards. No other window changes.
    pub fn handle_debug_hotkey(&mut self, control_held: bool, d_just_pressed: bool) -> (open: bool)
        ensures
            *final(self) == after_debug_hotkey(*old(self), control_held, d_just_pressed),
            open == final(self).debug_ui_open,
    {
        if control_held && d_just_pressed {
            self.debug_ui_open = !self.debug_ui_open;
        }
        self.debug_ui_open
    }
}

/// A chat command the debug menu offers as a button.
pub struct UserCheat {
    pub name: String,
    pub command: String,
}

/// The debug menu's own state: the camera chosen, whether the window that
/// manages cheats is open, and the new cheat being typed in.
pub struct UiStateDebugMenu {
    pub selected_camera_type: DebugCameraType,
    pub cheats_manage_open: bool,
    pub new_cheat_name: String,
    pub new_cheat_command: String,
}

impl Default for UiStateDebugMenu {
    fn default() -> (menu: Self)
        ensures
            menu.selected_camera_type == DebugCameraType::Orbit,
            !menu.cheats_manage_open,
            menu.new_cheat_name@ == Seq::<char>::empty(),
            menu.new_cheat_command@ == Seq::<char>::empty(),
    {
        UiStateDebugMenu {
            selected_camera_type: DebugCameraType::Orbit,
            cheats_manage_open: false,
            new_cheat_name: String::new(),
            new_cheat_command: String::new(),
        }
    }
}

/// Whether a cheat with this name and command can be added: neither is empty
/// once trimmed.
pub open spec fn cheat_addable(name: Seq<char>, command: Seq<char>) -> bool {
    trim(name).len() > 0 && trim(command).len() > 0
}

/// The camera to switch to after the camera menu: none while the choice is
/// unchanged; the orbit camera only where there is a player to orbit.
pub open spec fn camera_switch_to(
    previous: DebugCameraType,
    selected: DebugCameraType,
    player_present: bool,
) -> Option<DebugCameraType> {
    if selected != previous && (selected == DebugCameraType::Free || player_present) {
        Some(selected)
    } else {
        None
    }
}

/// The name and command of each cheat.
pub open spec fn cheat_views(cheats: Seq<UserCheat>) -> Seq<(Seq<char>, Seq<char>)> {
    cheats.map_values(|c: UserCheat| (c.name@, c.command@))
}

/// Whether the Manage Cheats window adds the cheat being typed in: its Add
/// button, enabled only while that cheat can be added, was clicked.
pub open spec fn cheat_added(menu: UiStateDebugMenu, add_clicked: bool) -> bool {
    add_clicked && cheat_addable(menu.new_cheat_name@, menu.new_cheat_command@)
}

/// The cheats after the Manage Cheats window: the cheat being typed in,
/// trimmed, appended where it is added; then the one at `remove` removed.
pub open spec fn cheats_after(
    cheats: Seq<(Seq<char>, Seq<char>)>,
    menu: UiStateDebugMenu,
    add_clicked: bool,
    remove: Option<usize>,
) -> Seq<(Seq<char>, Seq<char>)> {
    let with_new = if cheat_added(menu, add_clicked) {
        cheats.push((trim(menu.new_cheat_name@), trim(menu.new_cheat_command@)))
    } else {
        cheats
    };
    match remove {
        Some(i) => with_new.remove(i as int),
        None => with_new,
    }
}

/// A cheat is added exactly when both its name and its command hold more
/// than white space.
pub proof fn lemma_cheat_addable(name: Seq<char>, command: Seq<char>)
    ensures
        trim(name).len() == 0 ==> !cheat_addable(name, command),
        trim(command).len() == 0 ==> !cheat_addable(name, command),
        trim(name).len() > 0 && trim(command).len() > 0 ==> cheat_addable(name, command),
{
}

/// The cheat list after the Manage Cheats window: without an addition or a
/// removal it is unchanged; an addition appends the trimmed new cheat after
/// all others; a removal at `i` drops exactly that entry, keeping the ones
/// before it and moving the ones after it down by one.
pub proof fn lemma_cheats_after(
    cheats: Seq<(Seq<char>, Seq<char>)>,
    menu: UiStateDebugMenu,
    add_clicked: bool,
    remove: Option<usize>,
)
    ensures
        !cheat_added(menu, add_clicked) && remove is None ==> cheats_after(
            cheats,
            menu,
            add_clicked,
            remove,
        ) == cheats,
        cheat_added(menu, add_clicked) && remove is None ==> {
            let r = cheats_after(cheats, menu, add_clicked, remove);
            &&& r.len() == cheats.len() + 1
            &&& forall|k: int| 0 <= k < cheats.len() ==> #[trigger] r[k] == cheats[k]
            &&& r[cheats.len() as int] == (trim(menu.new_cheat_name@), trim(menu.new_cheat_command@))
        },
        !cheat_added(menu, add_clicked) && (remove matches Some(i) && i < cheats.len()) ==> {
            let r = cheats_after(cheats, menu, add_clicked, remove);
            let i = remove->0 as int;
            &&& r.len() == cheats.len() - 1
            &&& forall|k: int| 0 <= k < i ==> #[trigger] r[k] == cheats[k]
            &&& forall|k: int| i <= k < r.len() ==> #[trigger] r[k] == cheats[k + 1]
        },
{
}

/// The Manage Cheats window: adds the cheat being typed in where its Add
/// button was clicked, then removes the cheat whose Remove button was
/// clicked, and says whether the configuration is to be saved, which it is
/// exactly when the list changed.
pub fn manage_cheats(
    cheats: &mut Vec<UserCheat>,
    menu: &mut UiStateDebugMenu,
    add_clicked: bool,
    remove: Option<usize>,
) -> (save: bool)
    requires
        remove matches Some(i) ==> i < old(cheats)@.len() + if cheat_added(*old(menu), add_clicked) {
            1int
        } else {
            0int
        },
    ensures
        cheat_views(final(cheats)@) == cheats_after(
            cheat_views(old(cheats)@),
            *old(menu),
            add_clicked,
            remove,
        ),
        save == (cheat_added(*old(menu), add_clicked) || remove is Some),
        final(menu).selected_camera_type == old(menu).selected_camera_type,
        final(menu).cheats_manage_open == old(menu).cheats_manage_open,
        if cheat_added(*old(menu), add_clicked) {
            &&& final(menu).new_cheat_name@ == Seq::<char>::empty()
            &&& final(menu).new_cheat_command@ == Seq::<char>::empty()
        } else {
            &&& final(menu).new_cheat_name == old(menu).new_cheat_name
            &&& final(menu).new_cheat_command == old(menu).new_cheat_command
        },
{
    let ghost before = cheat_views(cheats@);
    let mut added = false;
    if add_clicked {
        if let Some(cheat) = menu.take_new_cheat() {
            cheats.push(cheat);
            added = true;
        }
    }
    let ghost with_new = cheat_views(cheats@);
    assert(with_new =~= if added {
        before.push((trim(old(menu).new_cheat_name@), trim(old(menu).new_cheat_command@)))
    } else {
        before
    });
    match remove {
        Some(i) => {
            cheats.remove(i);
            assert(cheat_views(cheats@) =~= with_new.remove(i as int));
            true
        },
        None => added,
    }
}

/// The camera changes only when the choice changed. A change to the free
/// camera always switches to it, player or not; a change to the orbit camera
/// switches to it exactly when there is a player to orbit.
pub proof fn lemma_camera_switch(
    previous: DebugCameraType,
    selected: DebugCameraType,
    player_present: bool,
)
    ensures
        selected == previous ==> camera_switch_to(previous, selected, player_present) is None,
        selected != previous && selected == DebugCameraType::Free ==> camera_switch_to(
            previous,
            selected,
            player_present,
        ) == Some(DebugCameraType::Free),
        selected != previous && selected == DebugCameraType::Orbit ==> (camera_switch_to(
            previous,
            selected,
            player_present,
        ) == if player_present {
            Some(DebugCameraType::Orbit)
        } else {
            None
        }),
{
}

impl UiStateDebugMenu {
    /// Whether the cheat being typed in can be added.
    pub fn can_add_cheat(&self) -> (ok: bool)
        ensures
            ok == cheat_addable(self.new_cheat_name@, self.new_cheat_command@),
    {
        let name = trim_text(self.new_cheat_name.as_str());
        let command = trim_text(self.new_cheat_command.as_str());
        !name.as_str().is_empty() && !command.as_str().is_empty()
    }

    /// Adds the cheat being typed in, if it can be added: gives it with its
    /// name and command trimmed and empties both inputs. Otherwise gives
    /// nothing and changes nothing.
    pub fn take_new_cheat(&mut self) -> (cheat: Option<UserCheat>)
        ensures
            final(self).selected_camera_type == old(self).selected_camera_type,
            final(self).cheats_manage_open == old(self).cheats_manage_open,
            if cheat_addable(old(self).new_cheat_name@, old(self).new_cheat_command@) {
                &&& cheat matches Some(c) && c.name@ == trim(old(self).new_cheat_name@)
                    && c.command@ == trim(old(self).new_cheat_command@)
                &&& final(self).new_cheat_name@ == Seq::<char>::empty()
                &&& final(self).new_cheat_command@ == Seq::<char>::empty()
            } else {
                &&& cheat is None
                &&& final(self).new_cheat_name == old(self).new_cheat_name
                &&& final(self).new_cheat_command == old(self).new_cheat_command
            },
    {
        let name = trim_text(self.new_cheat_name.as_str());
        let command = trim_text(self.new_cheat_command.as_str());
        if !name.as_str().is_empty() && !command.as_str().is_empty() {
            self.new_cheat_name = String::new();
            self.new_cheat_command = String::new();
            Some(UserCheat { name, command })
        } else {
            None
        }
    }

    /// The camera to switch to, given the choice before the camera menu was
    /// shown and whether there is a player.
    pub fn camera_switch(&self, previous: DebugCameraType, player_present: bool) -> (switch_to:
        Option<DebugCameraType>)
        ensures
            switch_to == camera_switch_to(previous, self.selected_camera_type, player_present),
    {
        if self.selected_camera_type != previous && (self.selected_camera_type
            == DebugCameraType::Free || player_present) {
            Some(self.selected_camera_type)
        } else {
            None
        }
    }
}

/// What the object inspector looks at.
pub struct DebugInspector {
    pub enable_picking: bool,
    /// The entity inspected, by its bits.
    pub entity: Option<u64>,
}

impl DebugInspector {
    /// Follows the object inspector's check box being clicked: opening it
    /// turns picking on and inspects the player, where there is one; closing
    /// it turns picking off.
    pub fn object_inspector_toggled(&mut self, open: bool, player: Option<u64>)
        ensures
            final(self).enable_picking == open,
            final(self).entity == if open && player is Some {
                player
            } else {
                old(self).entity
            },
    {
        if open {
            self.enable_picking = true;
            if let Some(p) = player {
                self.entity = Some(p);
            }
        } else {
            self.enable_picking = false;
        }
    }
}

} // verus!
