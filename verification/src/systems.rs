//! Decisions taken by the client's game systems, on the plain values they
//! read from the game's state.

use vstd::prelude::*;

verus! {

/// Pressing Tab toggles between walking and running: the toggle is sent when
/// the interface does not want the keyboard, Tab was just pressed, and there
/// is a game connection to send it on.
pub fn run_toggle_system(wants_keyboard_input: bool, tab_just_pressed: bool, connected: bool) -> (send:
    bool)
    ensures
        send == (!wants_keyboard_input && tab_just_pressed && connected),
{
    if wants_keyboard_input {
        return false;
    }
    if !tab_just_pressed {
        return false;
    }
    connected
}

/// Whether every part of a vehicle's body model has its bounding box yet;
/// until then its height is computed again next frame.
pub fn vehicle_body_loaded(part_loaded: &Vec<bool>) -> (loaded: bool)
    ensures
        loaded == forall|i: int| 0 <= i < part_loaded@.len() ==> part_loaded@[i],
{
    let mut i: usize = 0;
    while i < part_loaded.len()
        invariant
            i <= part_loaded@.len(),
            forall|k: int| 0 <= k < i ==> part_loaded@[k],
        decreases part_loaded.len() - i,
    {
        if !part_loaded[i] {
            return false;
        }
        i = i + 1;
    }
    true
}

/// The first of the vehicle owners whose vehicle model is `vehicle_model`;
/// owners and models are given by their entities' bits.
pub fn find_vehicle_driver(owner_vehicle_models: &Vec<u64>, vehicle_model: u64) -> (driver: Option<
    usize,
>)
    ensures
        match driver {
            Some(i) => i < owner_vehicle_models@.len() && owner_vehicle_models@[i as int]
                == vehicle_model && forall|k: int|
                0 <= k < i ==> owner_vehicle_models@[k] != vehicle_model,
            None => forall|k: int|
                0 <= k < owner_vehicle_models@.len() ==> owner_vehicle_models@[k] != vehicle_model,
        },
{
    let mut i: usize = 0;
    while i < owner_vehicle_models.len()
        invariant
            i <= owner_vehicle_models@.len(),
            forall|k: int| 0 <= k < i ==> owner_vehicle_models@[k] != vehicle_model,
        decreases owner_vehicle_models.len() - i,
    {
        if owner_vehicle_models[i] == vehicle_model {
            return Some(i);
        }
        i = i + 1;
    }
    None
}

/// The classes of weapon that the equipped-weapon slot tells apart.
#[derive(Clone, Copy, Debug, PartialEq, Eq, Structural)]
pub enum WeaponClass {
    Bow,
    Crossbow,
    Gun,
    DualGuns,
    Launcher,
    /// Any weapon that takes no ammunition.
    Other,
}

/// The kinds of ammunition.
#[derive(Clone, Copy, Debug, PartialEq, Eq, Structural)]
pub enum AmmoIndex {
    Arrow,
    Bullet,
    Throw,
}

/// The ammunition a weapon of this class fires: arrows for bows and
/// crossbows, bullets for guns, throwing ammunition for launchers.
pub fn ammo_index_for(class: WeaponClass) -> (ammo: Option<AmmoIndex>)
    ensures
        ammo == ammo_of(class),
{
    match class {
        WeaponClass::Bow | WeaponClass::Crossbow => Some(AmmoIndex::Arrow),
        WeaponClass::Gun | WeaponClass::DualGuns => Some(AmmoIndex::Bullet),
        WeaponClass::Launcher => Some(AmmoIndex::Throw),
        WeaponClass::Other => None,
    }
}

/// What the equipped-weapon slot shows.
#[derive(Clone, Copy, Debug, PartialEq, Eq, Structural)]
pub enum WeaponSlotItem {
    Nothing,
    Weapon,
    Ammo(AmmoIndex),
}

/// What the equipped-weapon slot shows: nothing without a weapon; the
/// ammunition the weapon fires where its class is known and that ammunition
/// is equipped; else the weapon.
pub open spec fn weapon_slot_shows(
    weapon_equipped: bool,
    weapon_class: Option<WeaponClass>,
    equipped_ammo: Seq<AmmoIndex>,
) -> WeaponSlotItem {
    if !weapon_equipped {
        WeaponSlotItem::Nothing
    } else {
        match weapon_class {
            Some(class) => match ammo_of(class) {
                Some(ammo) => if equipped_ammo.contains(ammo) {
                    WeaponSlotItem::Ammo(ammo)
                } else {
                    WeaponSlotItem::Weapon
                },
                None => WeaponSlotItem::Weapon,
            },
            None => WeaponSlotItem::Weapon,
        }
    }
}

/// The ammunition of a weapon class.
pub open spec fn ammo_of(class: WeaponClass) -> Option<AmmoIndex> {
    match class {
        WeaponClass::Bow | WeaponClass::Crossbow => Some(AmmoIndex::Arrow),
        WeaponClass::Gun | WeaponClass::DualGuns => Some(AmmoIndex::Bullet),
        WeaponClass::Launcher => Some(AmmoIndex::Throw),
        WeaponClass::Other => None,
    }
}

/// The equipped-weapon slot: without a weapon it is empty. With a weapon
/// that fires ammunition `a`, it shows `a` whenever `a` is anywhere among
/// the equipped kinds, whatever its position; it shows ammunition only of
/// the kind the weapon fires and only when that kind is equipped; otherwise
/// it shows the weapon.
pub proof fn lemma_weapon_slot(
    weapon_equipped: bool,
    weapon_class: Option<WeaponClass>,
    equipped_ammo: Seq<AmmoIndex>,
    i: int,
)
    ensures
        !weapon_equipped ==> weapon_slot_shows(weapon_equipped, weapon_class, equipped_ammo)
            == WeaponSlotItem::Nothing,
        weapon_equipped && 0 <= i < equipped_ammo.len() && (weapon_class matches Some(c)
            && ammo_of(c) == Some(equipped_ammo[i])) ==> weapon_slot_shows(
            weapon_equipped,
            weapon_class,
            equipped_ammo,
        ) == WeaponSlotItem::Ammo(equipped_ammo[i]),
        weapon_slot_shows(weapon_equipped, weapon_class, equipped_ammo) matches WeaponSlotItem::Ammo(
            a,
        ) ==> weapon_equipped && equipped_ammo.contains(a) && (weapon_class matches Some(c)
            && ammo_of(c) == Some(a)),
        weapon_equipped && !(exists|k: int|
            0 <= k < equipped_ammo.len() && (weapon_class matches Some(c) && ammo_of(c) == Some(
                #[trigger] equipped_ammo[k],
            ))) ==> weapon_slot_shows(weapon_equipped, weapon_class, equipped_ammo)
            == WeaponSlotItem::Weapon,
{
    if weapon_equipped && 0 <= i < equipped_ammo.len() {
        assert(equipped_ammo.contains(equipped_ammo[i]));
    }
}

/// Bows and crossbows fire arrows, guns and dual guns bullets, launchers
/// throwing ammunition; no other weapon fires anything.
pub proof fn lemma_ammo_of_classes(class: WeaponClass)
    ensures
        (class == WeaponClass::Bow || class == WeaponClass::Crossbow) <==> ammo_of(class) == Some(
            AmmoIndex::Arrow,
        ),
        (class == WeaponClass::Gun || class == WeaponClass::DualGuns) <==> ammo_of(class) == Some(
            AmmoIndex::Bullet,
        ),
        class == WeaponClass::Launcher <==> ammo_of(class) == Some(AmmoIndex::Throw),
        class == WeaponClass::Other <==> ammo_of(class) is None,
{
}

/// What the equipped-weapon slot shows, given whether a weapon is equipped,
/// its class where the weapon's data is known, and the kinds of ammunition
/// equipped.
pub fn weapon_slot_item(
    weapon_equipped: bool,
    weapon_class: Option<WeaponClass>,
    equipped_ammo: &Vec<AmmoIndex>,
) -> (item: WeaponSlotItem)
    ensures
        item == weapon_slot_shows(weapon_equipped, weapon_class, equipped_ammo@),
{
    if !weapon_equipped {
        return WeaponSlotItem::Nothing;
    }
    let class = match weapon_class {
        Some(c) => c,
        None => return WeaponSlotItem::Weapon,
    };
    let ammo = match ammo_index_for(class) {
        Some(a) => a,
        None => return WeaponSlotItem::Weapon,
    };
    let mut i: usize = 0;
    while i < equipped_ammo.len()
        invariant
            i <= equipped_ammo@.len(),
            weapon_equipped,
            weapon_class == Some(class),
            ammo_of(class) == Some(ammo),
            forall|k: int| 0 <= k < i ==> equipped_ammo@[k] != ammo,
        decreases equipped_ammo.len() - i,
    {
        if equipped_ammo[i] == ammo {
            assert(equipped_ammo@[i as int] == ammo);
            assert(equipped_ammo@.contains(ammo));
            return WeaponSlotItem::Ammo(ammo);
        }
        i = i + 1;
    }
    WeaponSlotItem::Weapon
}

/// Whether the game menu is open after the menu button of the player
/// information window was handled: a click on the button toggles it, a click
/// elsewhere closes it.
pub fn menu_open_after(menu_open: bool, clicked: bool, clicked_elsewhere: bool) -> (open: bool)
    ensures
        open == (!clicked_elsewhere && (menu_open != clicked)),
{
    let mut open = menu_open;
    if clicked {
        open = !open;
    }
    if clicked_elsewhere {
        open = false;
    }
    open
}

} // verus!
