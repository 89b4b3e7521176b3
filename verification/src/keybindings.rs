//! Keybindings: reading them from the lines of the settings, ordering them so
//! that the most specific come first, finding the one a key press selects,
//! and the key grabs they need; and the commands a startup line runs.
use vstd::prelude::*;
use vstd::slice::slice_subrange;
use crate::config::Config;
use crate::keycodes::{
    keycode_by_name, keycode_value, modifier_mask, Keycodes, XCB_MOD_MASK_2, XCB_MOD_MASK_LOCK,
};
use crate::sorting::{
    apply_order_move, int_keys, is_stable_order, lemma_stable_order_distinct, reorder, stable_order,
};
use crate::text::{
    contains_str, has_substring, join, join_strs, parse_i32, parse_i32_str, parse_unsigned,
    parse_unsigned_radix, IntErrorKind, split_char, split_on, split_on_str, split_str, split_whitespace, str_eq,
    views, words,
};
use crate::bar_message::Message;
use crate::monitor::{
    focus_change_post, focus_change_pre, kill_post, kill_pre, move_to_post, move_to_pre,
    move_window_post, move_window_pre, resize_post, resize_pre, switch_post, switch_pre, Monitor,
    MonitorView,
};
use crate::workspace::XRequest;

verus! {

#[derive(Debug, PartialEq, Eq, Clone, Copy, Structural)]
pub enum Direction {
    Left,
    Right,
    Up,
    Down,
}

#[derive(Debug, PartialEq, Eq, Clone, Copy, Structural)]
pub enum Dimension {
    Horizontal,
    Vertical,
}

#[derive(Debug, PartialEq, Eq)]
pub enum KeybindingAction {
    Exec(String),
    FocusWindow(Direction),
    MoveWindow(Direction),
    ResizeWindow(Dimension, i32),
    SwitchToWorkspace(u32),
    MoveFocusedWindowToWorkspace(u32),
    KillFocusedWindow,
    CenterFocusedWindow,
}

/// What an action does, with the command of `Exec` as characters.
pub enum ActionSpec {
    Exec(Seq<char>),
    FocusWindow(Direction),
    MoveWindow(Direction),
    ResizeWindow(Dimension, i32),
    SwitchToWorkspace(u32),
    MoveFocusedWindowToWorkspace(u32),
    KillFocusedWindow,
    CenterFocusedWindow,
}

impl View for KeybindingAction {
    type V = ActionSpec;

    open spec fn view(&self) -> ActionSpec {
        match self {
            KeybindingAction::Exec(cmd) => ActionSpec::Exec(cmd@),
            KeybindingAction::FocusWindow(d) => ActionSpec::FocusWindow(*d),
            KeybindingAction::MoveWindow(d) => ActionSpec::MoveWindow(*d),
            KeybindingAction::ResizeWindow(d, px) => ActionSpec::ResizeWindow(*d, *px),
            KeybindingAction::SwitchToWorkspace(id) => ActionSpec::SwitchToWorkspace(*id),
            KeybindingAction::MoveFocusedWindowToWorkspace(id) => ActionSpec::MoveFocusedWindowToWorkspace(*id),
            KeybindingAction::KillFocusedWindow => ActionSpec::KillFocusedWindow,
            KeybindingAction::CenterFocusedWindow => ActionSpec::CenterFocusedWindow,
        }
    }
}

#[derive(Debug, PartialEq, Eq)]
pub struct Keybinding {
    pub modifiers: u32,
    pub modifiers_count: usize,
    pub keycode: Keycodes,
    pub action: KeybindingAction,
}

/// A keybinding as the contracts speak of it.
pub struct KeybindingSpec {
    pub modifiers: u32,
    pub modifiers_count: nat,
    pub keycode: Keycodes,
    pub action: ActionSpec,
}

impl View for Keybinding {
    type V = KeybindingSpec;

    open spec fn view(&self) -> KeybindingSpec {
        KeybindingSpec {
            modifiers: self.modifiers,
            modifiers_count: self.modifiers_count as nat,
            keycode: self.keycode,
            action: self.action@,
        }
    }
}

pub open spec fn direction_of(w: Seq<char>) -> Option<Direction> {
    if w == "left"@ {
        Some(Direction::Left)
    } else if w == "right"@ {
        Some(Direction::Right)
    } else if w == "up"@ {
        Some(Direction::Up)
    } else if w == "down"@ {
        Some(Direction::Down)
    } else {
        None
    }
}

pub open spec fn dimension_of(w: Seq<char>) -> Option<Dimension> {
    if w == "horizontal"@ {
        Some(Dimension::Horizontal)
    } else if w == "vertical"@ {
        Some(Dimension::Vertical)
    } else {
        None
    }
}

/// The modifier mask a key name stands for, if it names a modifier key.
pub open spec fn modifier_of_name(name: Seq<char>) -> Option<u32> {
    match keycode_by_name(name) {
        Some(key) => modifier_mask(key),
        None => None,
    }
}

/// The mask and the count of the modifier keys `names` stand for, if each
/// names a modifier key.
pub open spec fn modifiers_of(names: Seq<Seq<char>>) -> Option<(u32, nat)>
    decreases names.len(),
{
    if names.len() == 0 {
        Some((0u32, 0nat))
    } else {
        match modifiers_of(names.drop_last()) {
            None => None,
            Some((mask, count)) => match modifier_of_name(names.last()) {
                None => None,
                Some(m) => Some((mask | m, count + 1)),
            },
        }
    }
}

/// A workspace id written in decimal.
pub open spec fn workspace_id_of(w: Seq<char>) -> Option<u32> {
    match parse_unsigned(w, 10, u32::MAX as nat) {
        Ok(v) => Some(v as u32),
        Err(_) => None,
    }
}

/// The action that the words of a binding line name, from the second word on.
pub open spec fn action_of(ws: Seq<Seq<char>>) -> Option<ActionSpec>
    recommends
        ws.len() >= 2,
{
    let command = ws[1];
    if command == "exec"@ {
        Some(ActionSpec::Exec(join(ws.skip(2), " "@)))
    } else if command == "focus_window"@ {
        if ws.len() < 3 {
            None
        } else {
            match direction_of(ws[2]) {
                Some(d) => Some(ActionSpec::FocusWindow(d)),
                None => None,
            }
        }
    } else if command == "move_window"@ {
        if ws.len() < 3 {
            None
        } else {
            match direction_of(ws[2]) {
                Some(d) => Some(ActionSpec::MoveWindow(d)),
                None => None,
            }
        }
    } else if command == "window_size_change"@ {
        if ws.len() < 4 {
            None
        } else {
            match parse_i32(ws[3]) {
                Err(_) => None,
                Ok(px) => match dimension_of(ws[2]) {
                    Some(d) => Some(ActionSpec::ResizeWindow(d, px as i32)),
                    None => None,
                },
            }
        }
    } else if command == "switch_to_workspace"@ {
        if ws.len() < 3 {
            None
        } else {
            match workspace_id_of(ws[2]) {
                Some(id) => Some(ActionSpec::SwitchToWorkspace(id)),
                None => None,
            }
        }
    } else if command == "move_focused_window_to_workspace"@ {
        if ws.len() < 3 {
            None
        } else {
            match workspace_id_of(ws[2]) {
                Some(id) => Some(ActionSpec::MoveFocusedWindowToWorkspace(id)),
                None => None,
            }
        }
    } else if command == "kill_focused_window"@ {
        Some(ActionSpec::KillFocusedWindow)
    } else if command == "center_focused_window"@ {
        Some(ActionSpec::CenterFocusedWindow)
    } else {
        None
    }
}

/// The arguments of a binding name what its action works on, by a fixed
/// table: `window_size_change vertical <n>` resizes vertically by `n` and
/// `window_size_change horizontal <n>` horizontally; `focus_window` and
/// `move_window` take `left`, `right`, `up` and `down` to those directions.
pub proof fn law_action_words(ws: Seq<Seq<char>>, px: int)
    requires
        ws.len() >= 2,
    ensures
        ws.len() >= 4 && ws[1] == "window_size_change"@ && parse_i32(ws[3]) == Ok::<int, IntErrorKind>(px) ==> {
            &&& ws[2] == "vertical"@ ==> action_of(ws) == Some(ActionSpec::ResizeWindow(Dimension::Vertical, #[verifier::truncate] (px as i32)))
            &&& ws[2] == "horizontal"@ ==> action_of(ws) == Some(ActionSpec::ResizeWindow(Dimension::Horizontal, #[verifier::truncate] (px as i32)))
        },
        ws.len() >= 3 && ws[1] == "focus_window"@ ==> {
            &&& ws[2] == "left"@ ==> action_of(ws) == Some(ActionSpec::FocusWindow(Direction::Left))
            &&& ws[2] == "right"@ ==> action_of(ws) == Some(ActionSpec::FocusWindow(Direction::Right))
            &&& ws[2] == "up"@ ==> action_of(ws) == Some(ActionSpec::FocusWindow(Direction::Up))
            &&& ws[2] == "down"@ ==> action_of(ws) == Some(ActionSpec::FocusWindow(Direction::Down))
        },
        ws.len() >= 3 && ws[1] == "move_window"@ ==> {
            &&& ws[2] == "left"@ ==> action_of(ws) == Some(ActionSpec::MoveWindow(Direction::Left))
            &&& ws[2] == "right"@ ==> action_of(ws) == Some(ActionSpec::MoveWindow(Direction::Right))
            &&& ws[2] == "up"@ ==> action_of(ws) == Some(ActionSpec::MoveWindow(Direction::Up))
            &&& ws[2] == "down"@ ==> action_of(ws) == Some(ActionSpec::MoveWindow(Direction::Down))
        },
{
    reveal_strlit("exec");
    reveal_strlit("focus_window");
    reveal_strlit("move_window");
    reveal_strlit("window_size_change");
    reveal_strlit("horizontal");
    reveal_strlit("vertical");
    reveal_strlit("left");
    reveal_strlit("right");
    reveal_strlit("up");
    reveal_strlit("down");
    assert("exec"@.len() == 4 && "focus_window"@.len() == 12 && "move_window"@.len() == 11);
    assert("window_size_change"@.len() == 18);
    assert("horizontal"@.len() == 10 && "vertical"@.len() == 8);
    assert("left"@.len() == 4 && "right"@.len() == 5 && "up"@.len() == 2 && "down"@.len() == 4);
    assert("down"@ != "left"@) by {
        assert("down"@[0] != "left"@[0]);
    }
}

/// The keybinding a line of the settings describes: the keys joined by `+`,
/// the modifiers first, then the command and its arguments, separated by
/// white space.
pub open spec fn keybinding_of(line: Seq<char>) -> Option<KeybindingSpec> {
    let ws = words(line);
    if ws.len() == 0 {
        None
    } else {
        let keys = split_on(ws[0], '+');
        match (modifiers_of(keys.drop_last()), keycode_by_name(keys.last())) {
            (Some((mask, count)), Some(key)) => if ws.len() < 2 {
                None
            } else {
                match action_of(ws) {
                    Some(a) => Some(KeybindingSpec { modifiers: mask, modifiers_count: count, keycode: key, action: a }),
                    None => None,
                }
            },
            _ => None,
        }
    }
}

proof fn lemma_split_on_nonempty(s: Seq<char>, c: char)
    ensures
        split_on(s, c).len() >= 1,
{
}

fn direction_from(w: &str) -> (res: Option<Direction>)
    ensures
        res == direction_of(w@),
{
    if str_eq(w, "left") {
        Some(Direction::Left)
    } else if str_eq(w, "right") {
        Some(Direction::Right)
    } else if str_eq(w, "up") {
        Some(Direction::Up)
    } else if str_eq(w, "down") {
        Some(Direction::Down)
    } else {
        None
    }
}

fn workspace_id_from(w: &str) -> (res: Option<u32>)
    ensures
        res == workspace_id_of(w@),
{
    match parse_unsigned_radix(w, 10, 0xffff_ffff) {
        Ok(v) => Some(v as u32),
        Err(_) => None,
    }
}

/// The action named by the words of a binding line, from the second on.
fn action_from(ws: &Vec<&str>) -> (res: Option<KeybindingAction>)
    requires
        ws@.len() >= 2,
    ensures
        match action_of(views(ws@)) {
            Some(a) => res matches Some(r) && r@ == a,
            None => res is None,
        },
{
    let ghost vs = views(ws@);
    assert(vs[1] == ws@[1]@);
    let command = ws[1];
    if str_eq(command, "exec") {
        let rest = slice_subrange(ws.as_slice(), 2, ws.len());
        assert(views(rest@) =~= vs.skip(2));
        let command_parts = join_strs(rest, " ");
        return Some(KeybindingAction::Exec(command_parts));
    }
    if str_eq(command, "focus_window") || str_eq(command, "move_window") {
        if ws.len() < 3 {
            return None;
        }
        assert(vs[2] == ws@[2]@);
        return match direction_from(ws[2]) {
            Some(d) => if str_eq(command, "focus_window") {
                Some(KeybindingAction::FocusWindow(d))
            } else {
                Some(KeybindingAction::MoveWindow(d))
            },
            None => None,
        };
    }
    if str_eq(command, "window_size_change") {
        if ws.len() < 4 {
            return None;
        }
        assert(vs[2] == ws@[2]@);
        assert(vs[3] == ws@[3]@);
        let size_change_pixels = match parse_i32_str(ws[3]) {
            Ok(px) => px,
            Err(_) => {
                return None;
            },
        };
        if str_eq(ws[2], "horizontal") {
            return Some(KeybindingAction::ResizeWindow(Dimension::Horizontal, size_change_pixels));
        } else if str_eq(ws[2], "vertical") {
            return Some(KeybindingAction::ResizeWindow(Dimension::Vertical, size_change_pixels));
        } else {
            return None;
        }
    }
    if str_eq(command, "switch_to_workspace") || str_eq(command, "move_focused_window_to_workspace") {
        if ws.len() < 3 {
            return None;
        }
        assert(vs[2] == ws@[2]@);
        return match workspace_id_from(ws[2]) {
            Some(id) => if str_eq(command, "switch_to_workspace") {
                Some(KeybindingAction::SwitchToWorkspace(id))
            } else {
                Some(KeybindingAction::MoveFocusedWindowToWorkspace(id))
            },
            None => None,
        };
    }
    if str_eq(command, "kill_focused_window") {
        return Some(KeybindingAction::KillFocusedWindow);
    }
    if str_eq(command, "center_focused_window") {
        return Some(KeybindingAction::CenterFocusedWindow);
    }
    None
}

/// Reads one keybinding line of the settings; `None` where the line names an
/// unknown key, a key that is no modifier before the last `+`, or a command
/// that is unknown or lacks its arguments.
pub fn keybinding_from_string(keybinding_str: &str) -> (res: Option<Keybinding>)
    ensures
        match keybinding_of(keybinding_str@) {
            Some(k) => res matches Some(r) && r@ == k,
            None => res is None,
        },
{
    let parts = split_whitespace(keybinding_str);
    let ghost ws = words(keybinding_str@);
    if parts.len() == 0 {
        return None;
    }
    assert(ws[0] == parts@[0]@);
    let keys_comb = split_char(parts[0], '+');
    let ghost keys = split_on(ws[0], '+');
    proof {
        lemma_split_on_nonempty(ws[0], '+');
    }
    let count = keys_comb.len();
    let mut modifiers: u32 = 0;
    let mut modifiers_count: usize = 0;
    let mut i: usize = 0;
    while i < count - 1
        invariant
            ws == words(keybinding_str@),
            ws.len() > 0,
            keys == split_on(ws[0], '+'),
            count == keys.len(),
            count >= 1,
            views(keys_comb@) == keys,
            0 <= i <= count - 1,
            modifiers_count == i,
            modifiers_of(keys.take(i as int)) == Some((modifiers, modifiers_count as nat)),
        decreases count - 1 - i,
    {
        assert(keys.take(i + 1).drop_last() =~= keys.take(i as int));
        assert(keys.take(i + 1).last() == keys_comb@[i as int]@);
        let key = match Keycodes::try_from(keys_comb[i]) {
            Ok(key) => key,
            Err(_) => {
                assert(keycode_by_name(keys_comb@[i as int]@) is None);
                assert(modifier_of_name(keys.take(i + 1).last()) is None);
                assert(modifiers_of(keys.take(i + 1)) is None);
                assert(keys.drop_last().take(i + 1) =~= keys.take(i + 1));
                proof {
                    lemma_modifiers_prefix_none(keys.drop_last(), i + 1);
                }
                return None;
            },
        };
        let modifier = match u32::try_from(key) {
            Ok(m) => m,
            Err(_) => {
                assert(modifier_mask(key) is None);
                assert(modifier_of_name(keys.take(i + 1).last()) is None);
                assert(modifiers_of(keys.take(i + 1)) is None);
                assert(keys.drop_last().take(i + 1) =~= keys.take(i + 1));
                proof {
                    lemma_modifiers_prefix_none(keys.drop_last(), i + 1);
                }
                return None;
            },
        };
        modifiers = modifiers | modifier;
        modifiers_count = modifiers_count + 1;
        i = i + 1;
    }
    assert(keys.take(i as int) =~= keys.drop_last());
    assert(keys.last() == keys_comb@[count - 1]@);
    let keycode = match Keycodes::try_from(keys_comb[count - 1]) {
        Ok(key) => key,
        Err(_) => {
            return None;
        },
    };
    if parts.len() < 2 {
        return None;
    }
    match action_from(&parts) {
        Some(action) => Some(Keybinding { modifiers, modifiers_count, keycode, action }),
        None => None,
    }
}

/// Once a prefix of the names holds one that is no modifier, the whole is none.
proof fn lemma_modifiers_prefix_none(names: Seq<Seq<char>>, n: int)
    requires
        0 <= n <= names.len(),
        modifiers_of(names.take(n)) is None,
    ensures
        modifiers_of(names) is None,
    decreases names.len() - n,
{
    if n < names.len() {
        assert(names.take(n + 1).drop_last() =~= names.take(n));
        lemma_modifiers_prefix_none(names, n + 1);
    } else {
        assert(names.take(n) =~= names);
    }
}

/// The keybindings that the lines describe, in the order of the lines.
pub open spec fn parsed_keybindings(lines: Seq<Seq<char>>) -> Seq<KeybindingSpec>
    decreases lines.len(),
{
    if lines.len() == 0 {
        seq![]
    } else {
        match keybinding_of(lines.last()) {
            Some(k) => parsed_keybindings(lines.drop_last()).push(k),
            None => parsed_keybindings(lines.drop_last()),
        }
    }
}

/// Sort keys that put keybindings with more modifiers first.
pub open spec fn fewer_modifiers_last(kbs: Seq<KeybindingSpec>) -> Seq<int> {
    Seq::new(kbs.len(), |i: int| -(kbs[i].modifiers_count as int))
}

pub open spec fn string_views(v: Seq<String>) -> Seq<Seq<char>> {
    Seq::new(v.len(), |i: int| v[i]@)
}

pub open spec fn keybinding_views(v: Seq<Keybinding>) -> Seq<KeybindingSpec> {
    Seq::new(v.len(), |i: int| v[i]@)
}

/// The keybindings of the settings, those with more modifiers first and
/// otherwise in the order of the lines; lines that do not read as a keybinding
/// are left out.
pub fn keybindings_from_config(config: &Config) -> (res: Vec<Keybinding>)
    ensures
        exists|order: Seq<usize>|
            {
                &&& is_stable_order(
                    order,
                    fewer_modifiers_last(parsed_keybindings(string_views(config.keybindings@))),
                )
                &&& keybinding_views(res@) == #[trigger] reorder(
                    parsed_keybindings(string_views(config.keybindings@)),
                    order,
                )
            },
{
    let mut keybindings: Vec<Keybinding> = Vec::new();
    let ghost lines = string_views(config.keybindings@);
    let mut i: usize = 0;
    while i < config.keybindings.len()
        invariant
            0 <= i <= config.keybindings@.len(),
            lines == string_views(config.keybindings@),
            keybinding_views(keybindings@) == parsed_keybindings(lines.take(i as int)),
        decreases config.keybindings@.len() - i,
    {
        assert(lines.take(i + 1).drop_last() =~= lines.take(i as int));
        assert(lines.take(i + 1).last() == config.keybindings@[i as int]@);
        let ghost before = keybindings@;
        if let Some(keybinding) = keybinding_from_string(config.keybindings[i].as_str()) {
            keybindings.push(keybinding);
            assert(keybinding_views(keybindings@) =~= keybinding_views(before).push(keybinding@));
        }
        i = i + 1;
    }
    assert(lines.take(i as int) =~= lines);
    let ghost parsed = keybinding_views(keybindings@);
    let mut keys: Vec<i128> = Vec::new();
    let mut j: usize = 0;
    while j < keybindings.len()
        invariant
            0 <= j <= keybindings@.len(),
            parsed == keybinding_views(keybindings@),
            keys@.len() == j,
            forall|k: int| 0 <= k < j ==> #[trigger] keys@[k] == -(keybindings@[k].modifiers_count as int),
        decreases keybindings@.len() - j,
    {
        keys.push(-(keybindings[j].modifiers_count as i128));
        j = j + 1;
    }
    assert(int_keys(keys@) =~= fewer_modifiers_last(parsed));
    let order = stable_order(&keys);
    proof {
        lemma_stable_order_distinct(order@, int_keys(keys@));
    }
    let res = apply_order_move(keybindings, &order);
    assert(keybinding_views(res@) =~= reorder(parsed, order@));
    res
}

/// The modifiers of a key press that bindings look at: all but Num Lock and
/// Caps Lock.
pub open spec fn relevant_modifiers(modifier: u16) -> u32 {
    (modifier as u32) & !(XCB_MOD_MASK_2 | XCB_MOD_MASK_LOCK)
}

/// The binding matches a key press of `keycode` with the modifiers `mods`.
pub open spec fn binding_matches(kb: KeybindingSpec, mods: u32, keycode: u8) -> bool {
    (mods & kb.modifiers) == kb.modifiers && keycode == keycode_value(kb.keycode)
}

/// The position of the binding a key press selects: the first that matches,
/// and none where no modifier other than the locks is held.
pub fn find_keybinding(keybindings: &Vec<Keybinding>, modifier: u16, keycode: u8) -> (res: Option<usize>)
    ensures
        relevant_modifiers(modifier) == 0 ==> res is None,
        relevant_modifiers(modifier) != 0 ==> match res {
            Some(i) => i < keybindings@.len() && binding_matches(
                keybindings@[i as int]@,
                relevant_modifiers(modifier),
                keycode,
            ) && forall|j: int|
                0 <= j < i ==> !binding_matches(
                    #[trigger] keybindings@[j]@,
                    relevant_modifiers(modifier),
                    keycode,
                ),
            None => forall|j: int|
                0 <= j < keybindings@.len() ==> !binding_matches(
                    #[trigger] keybindings@[j]@,
                    relevant_modifiers(modifier),
                    keycode,
                ),
        },
{
    let modifiers = (modifier as u32) & !(XCB_MOD_MASK_2 | XCB_MOD_MASK_LOCK);
    if modifiers == 0 {
        return None;
    }
    let mut i: usize = 0;
    while i < keybindings.len()
        invariant
            0 <= i <= keybindings@.len(),
            modifiers == relevant_modifiers(modifier),
            modifiers != 0,
            forall|j: int|
                0 <= j < i ==> !binding_matches(#[trigger] keybindings@[j]@, modifiers, keycode),
        decreases keybindings@.len() - i,
    {
        let kb = &keybindings[i];
        if (modifiers & kb.modifiers) == kb.modifiers && keycode == kb.keycode.code() {
            return Some(i);
        }
        i = i + 1;
    }
    None
}

/// `i` is the first of the bindings that matches a key press of `keycode`
/// with the modifiers `mods`.
pub open spec fn first_match(kbs: Seq<Keybinding>, mods: u32, keycode: u8, i: int) -> bool {
    &&& 0 <= i < kbs.len()
    &&& binding_matches(kbs[i]@, mods, keycode)
    &&& forall|j: int| 0 <= j < i ==> !binding_matches(#[trigger] kbs[j]@, mods, keycode)
}

/// What carrying out an action asks of the monitor.
pub open spec fn action_pre(a: ActionSpec, v: MonitorView, config: Config) -> bool {
    match a {
        ActionSpec::FocusWindow(d) => focus_change_pre(v, d, config),
        ActionSpec::MoveWindow(d) => move_window_pre(v, d, config),
        ActionSpec::ResizeWindow(dim, px) => resize_pre(v, dim, px, config),
        ActionSpec::SwitchToWorkspace(id) => switch_pre(v, id, config),
        ActionSpec::MoveFocusedWindowToWorkspace(id) => move_to_pre(
            v,
            id,
            config.switch_to_workspace_on_focused_window_moved,
            config,
        ),
        ActionSpec::KillFocusedWindow => kill_pre(v, config),
        ActionSpec::Exec(_) => true,
        ActionSpec::CenterFocusedWindow => true,
    }
}

/// An action carried out on the monitor, from `v` to `after`, with the
/// requests `r0` becoming `r1` and the notices `n0` becoming `n1`. Running a
/// command is left to the caller, and centring the focused window does
/// nothing here: both leave the monitor as it was.
pub open spec fn action_post(
    a: ActionSpec,
    v: MonitorView,
    after: MonitorView,
    r0: Seq<XRequest>,
    r1: Seq<XRequest>,
    n0: Seq<Message<'static>>,
    n1: Seq<Message<'static>>,
    config: Config,
) -> bool {
    match a {
        ActionSpec::FocusWindow(d) => focus_change_post(v, after, r0, r1, n0, n1, d, config),
        ActionSpec::MoveWindow(d) => move_window_post(v, after, r0, r1, n0, n1, d, config),
        ActionSpec::ResizeWindow(_, px) => resize_post(v, after, r0, r1, px, config) && n1 == n0,
        ActionSpec::SwitchToWorkspace(id) => switch_post(v, after, r0, r1, n0, n1, id, config),
        ActionSpec::MoveFocusedWindowToWorkspace(id) => move_to_post(
            v,
            after,
            r0,
            r1,
            n0,
            n1,
            id,
            config.switch_to_workspace_on_focused_window_moved,
            config,
        ),
        ActionSpec::KillFocusedWindow => kill_post(v, after, r0, r1, config) && n1 == n0,
        ActionSpec::Exec(_) => after == v && r1 == r0 && n1 == n0,
        ActionSpec::CenterFocusedWindow => after == v && r1 == r0 && n1 == n0,
    }
}

/// The command an action runs, if it runs one.
pub open spec fn exec_command(a: ActionSpec) -> Option<Seq<char>> {
    match a {
        ActionSpec::Exec(cmd) => Some(cmd),
        _ => None,
    }
}

/// Carries out the action of the binding a key press selects (the first that
/// matches, none where no modifier other than the locks is held) and returns
/// the command it runs, which the caller starts.
pub fn handle_key_press<'a>(
    keybindings: &'a Vec<Keybinding>,
    config: &Config,
    monitor: &mut Monitor,
    modifier: u16,
    keycode: u8,
    requests: &mut Vec<XRequest>,
    notices: &mut Vec<Message<'static>>,
) -> (res: Option<&'a str>)
    requires
        old(monitor).wf(),
        forall|i: int|
            relevant_modifiers(modifier) != 0 && #[trigger] first_match(
                keybindings@,
                relevant_modifiers(modifier),
                keycode,
                i,
            ) ==> action_pre(keybindings@[i]@.action, old(monitor).view(), *config),
    ensures
        final(monitor).wf(),
        forall|i: int|
            relevant_modifiers(modifier) != 0 && #[trigger] first_match(
                keybindings@,
                relevant_modifiers(modifier),
                keycode,
                i,
            ) ==> {
                &&& action_post(
                    keybindings@[i]@.action,
                    old(monitor).view(),
                    final(monitor).view(),
                    old(requests)@,
                    final(requests)@,
                    old(notices)@,
                    final(notices)@,
                    *config,
                )
                &&& match res {
                    Some(cmd) => exec_command(keybindings@[i]@.action) == Some(cmd@),
                    None => exec_command(keybindings@[i]@.action) is None,
                }
            },
        relevant_modifiers(modifier) == 0 || (forall|j: int|
            0 <= j < keybindings@.len() ==> !binding_matches(
                #[trigger] keybindings@[j]@,
                relevant_modifiers(modifier),
                keycode,
            )) ==> {
            &&& res is None
            &&& final(monitor).view() == old(monitor).view()
            &&& final(requests)@ == old(requests)@
            &&& final(notices)@ == old(notices)@
        },
{
    let found = find_keybinding(keybindings, modifier, keycode);
    let i = match found {
        Some(i) => i,
        None => {
            return None;
        },
    };
    let ghost mods = relevant_modifiers(modifier);
    proof {
        assert(first_match(keybindings@, mods, keycode, i as int));
        assert forall|k: int| mods != 0 && #[trigger] first_match(keybindings@, mods, keycode, k) implies k
            == i by {
            if k < i {
                assert(!binding_matches(keybindings@[k]@, mods, keycode));
            } else if k > i {
                assert(!binding_matches(keybindings@[i as int]@, mods, keycode));
            }
        }
    }
    match &keybindings[i].action {
        KeybindingAction::Exec(cmd) => Some(cmd.as_str()),
        KeybindingAction::FocusWindow(direction) => {
            monitor.handle_focus_window_change(*direction, config, requests, notices);
            None
        },
        KeybindingAction::MoveWindow(direction) => {
            monitor.handle_move_window(*direction, config, requests, notices);
            None
        },
        KeybindingAction::ResizeWindow(dimension, size_change_pixels) => {
            monitor.handle_resize_window(*dimension, *size_change_pixels, config, requests);
            None
        },
        KeybindingAction::SwitchToWorkspace(workspace_id) => {
            monitor.handle_switch_to_workspace(*workspace_id, config, requests, notices);
            None
        },
        KeybindingAction::MoveFocusedWindowToWorkspace(workspace_id) => {
            monitor.handle_move_focused_window_to_workspace(
                *workspace_id,
                config.switch_to_workspace_on_focused_window_moved,
                config,
                requests,
                notices,
            );
            None
        },
        KeybindingAction::KillFocusedWindow => {
            monitor.handle_kill_focused_window(config, requests);
            None
        },
        KeybindingAction::CenterFocusedWindow => None,
    }
}

/// The program and the arguments that a command line names, split at white
/// space; `None` for a line with no word.
pub fn command_from_str(cmd_str: &str) -> (res: Option<(&str, Vec<&str>)>)
    ensures
        words(cmd_str@).len() == 0 ==> res is None,
        words(cmd_str@).len() > 0 ==> (res matches Some((program, args)) && program@ == words(
            cmd_str@,
        )[0] && views(args@) == words(cmd_str@).skip(1)),
{
    let parts = split_whitespace(cmd_str);
    if parts.len() == 0 {
        return None;
    }
    let program = parts[0];
    let mut args: Vec<&str> = Vec::new();
    let mut i: usize = 1;
    while i < parts.len()
        invariant
            1 <= i <= parts@.len(),
            views(args@) == views(parts@).subrange(1, i as int),
        decreases parts@.len() - i,
    {
        let ghost before = args@;
        args.push(parts[i]);
        assert(views(args@) =~= views(before).push(parts@[i as int]@));
        assert(views(parts@).subrange(1, i + 1) =~= views(parts@).subrange(1, i as int).push(parts@[i as int]@));
        i = i + 1;
    }
    assert(views(parts@).subrange(1, i as int) =~= views(parts@).skip(1));
    Some((program, args))
}

/// The grabs (`grab`) or releases of one binding's key: with its modifiers
/// alone, and with Num Lock, Caps Lock, or both held as well.
pub open spec fn key_grabs(modifiers: u32, key: u8, grab: bool) -> Seq<XRequest> {
    let all = seq![
        modifiers,
        modifiers | XCB_MOD_MASK_2,
        modifiers | XCB_MOD_MASK_LOCK,
        modifiers | XCB_MOD_MASK_2 | XCB_MOD_MASK_LOCK,
    ];
    Seq::new(
        4,
        |i: int|
            if grab {
                XRequest::GrabKey { modifiers: all[i], key }
            } else {
                XRequest::UngrabKey { modifiers: all[i], key }
            },
    )
}

/// The grabs or releases of each binding's key, in order.
pub open spec fn bindings_grabs(kbs: Seq<KeybindingSpec>, grab: bool) -> Seq<XRequest>
    decreases kbs.len(),
{
    if kbs.len() == 0 {
        seq![]
    } else {
        bindings_grabs(kbs.drop_last(), grab) + key_grabs(
            kbs.last().modifiers,
            keycode_value(kbs.last().keycode),
            grab,
        )
    }
}

/// The bindings as the contracts speak of them.
pub open spec fn binding_views(kbs: Seq<Keybinding>) -> Seq<KeybindingSpec> {
    Seq::new(kbs.len(), |i: int| kbs[i]@)
}

fn grab_or_ungrab(keybindings: &Vec<Keybinding>, grab: bool, requests: &mut Vec<XRequest>)
    ensures
        final(requests)@ == old(requests)@ + bindings_grabs(binding_views(keybindings@), grab),
{
    let ghost kbs = binding_views(keybindings@);
    let mut i: usize = 0;
    while i < keybindings.len()
        invariant
            kbs == binding_views(keybindings@),
            0 <= i <= keybindings@.len(),
            requests@ == old(requests)@ + bindings_grabs(kbs.take(i as int), grab),
        decreases keybindings@.len() - i,
    {
        let kb = &keybindings[i];
        let key = kb.keycode.code();
        let masks = [
            kb.modifiers,
            kb.modifiers | XCB_MOD_MASK_2,
            kb.modifiers | XCB_MOD_MASK_LOCK,
            kb.modifiers | XCB_MOD_MASK_2 | XCB_MOD_MASK_LOCK,
        ];
        let ghost start = requests@;
        let mut k: usize = 0;
        while k < 4
            invariant
                0 <= k <= 4,
                masks@ == seq![
                    kb.modifiers,
                    kb.modifiers | XCB_MOD_MASK_2,
                    kb.modifiers | XCB_MOD_MASK_LOCK,
                    kb.modifiers | XCB_MOD_MASK_2 | XCB_MOD_MASK_LOCK,
                ],
                requests@ == start + key_grabs(kb.modifiers, key, grab).take(k as int),
            decreases 4 - k,
        {
            if grab {
                requests.push(XRequest::GrabKey { modifiers: masks[k], key });
            } else {
                requests.push(XRequest::UngrabKey { modifiers: masks[k], key });
            }
            assert(key_grabs(kb.modifiers, key, grab).take(k + 1) =~= key_grabs(kb.modifiers, key, grab).take(k as int).push(
                key_grabs(kb.modifiers, key, grab)[k as int]));
            k = k + 1;
        }
        assert(key_grabs(kb.modifiers, key, grab).take(4) =~= key_grabs(kb.modifiers, key, grab));
        assert(kbs.take(i + 1).drop_last() =~= kbs.take(i as int));
        assert(kbs.take(i + 1).last() == keybindings@[i as int]@);
        i = i + 1;
    }
    assert(kbs.take(i as int) =~= kbs);
}

/// Grabs each binding's key on the root window, with and without Num Lock
/// and Caps Lock held.
pub fn keybindings_grab(keybindings: &Vec<Keybinding>, requests: &mut Vec<XRequest>)
    ensures
        final(requests)@ == old(requests)@ + bindings_grabs(binding_views(keybindings@), true),
{
    grab_or_ungrab(keybindings, true, requests);
}

/// Releases the grabs `keybindings_grab` made.
pub fn keybindings_ungrab(keybindings: &Vec<Keybinding>, requests: &mut Vec<XRequest>)
    ensures
        final(requests)@ == old(requests)@ + bindings_grabs(binding_views(keybindings@), false),
{
    grab_or_ungrab(keybindings, false, requests);
}

/// The commands one startup line runs: the line split at each ` && ` when it
/// holds one, else the line. All but the last are waited for; the last is
/// started.
pub fn startup_command_parts(cmd_str: &str) -> (res: Vec<&str>)
    ensures
        views(res@) == if has_substring(cmd_str@, " && "@) {
            split_on_str(cmd_str@, " && "@)
        } else {
            seq![cmd_str@]
        },
{
    proof {
        reveal_strlit(" && ");
    }
    if contains_str(cmd_str, " && ") {
        split_str(cmd_str, " && ")
    } else {
        let mut res: Vec<&str> = Vec::new();
        res.push(cmd_str);
        assert(views(res@) =~= seq![cmd_str@]);
        res
    }
}

} // verus!
