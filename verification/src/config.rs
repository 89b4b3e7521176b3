//! The window manager's settings, with the checks and defaults applied after
//! the settings file has been read.
use vstd::prelude::*;
use vstd::string::{StrSliceExecFns, StringExecFns};
use crate::text::{chars_of, parse_unsigned, parse_unsigned_radix, str_eq, views};

verus! {

/// The error that reading the settings file gives.
#[verifier::external_type_specification]
#[verifier::external_body]
pub struct ExIoError(std::io::Error);

/// The error that parsing the settings as TOML gives.
#[verifier::external_type_specification]
#[verifier::external_body]
pub struct ExTomlDeError(toml::de::Error);

/// The settings. The share of the screen a new tiled window takes is read and
/// applied by the program around this library, which hands the resulting
/// width to the workspace.
#[derive(Debug)]
pub struct Config {
    pub startup_commands: Vec<String>,
    pub keybindings: Vec<String>,
    pub minimum_width_tiling: u32,
    pub minimum_height_tiling: u32,
    pub outer_gap_horiz: u32,
    pub outer_gap_vert: u32,
    pub inner_gap: u32,
    pub border_size: u32,
    pub border_color_inactive_str: Option<String>,
    pub border_color_active_str: Option<String>,
    pub border_color_inactive_int: Option<u32>,
    pub border_color_active_int: Option<u32>,
    pub switch_to_workspace_on_focused_window_moved: bool,
    pub override_to_floating: Vec<String>,
}

#[derive(Debug)]
pub enum ConfigErrors {
    FileNotFound(std::io::Error),
    TomlParseError(toml::de::Error),
    ValidationError(String),
}

/// `s` without the `#` characters it starts with.
pub open spec fn strip_hashes(s: Seq<char>) -> Seq<char>
    decreases s.len(),
{
    if s.len() > 0 && s[0] == '#' {
        strip_hashes(s.drop_first())
    } else {
        s
    }
}

/// The colour a setting names: up to six hexadecimal digits after the leading
/// `#` characters, fully opaque.
pub open spec fn color_from_str(s: Seq<char>) -> Option<u32> {
    let hex = strip_hashes(s);
    let digits = if hex.len() <= 6 {
        hex
    } else {
        hex.take(6)
    };
    match parse_unsigned(digits, 16, u32::MAX as nat) {
        Ok(v) => Some((v as u32) | 0xff00_0000),
        Err(_) => None,
    }
}

/// The first colour setting that must be present is missing.
pub open spec fn missing_color(inactive_str: Option<String>, inactive_int: Option<u32>) -> bool {
    inactive_str is None && inactive_int is None
}

/// The message of a colour setting that holds no valid hexadecimal value.
pub open spec fn invalid_color_message(field: Seq<char>, value: Seq<char>) -> Seq<char> {
    field + " contains invalid hex value: "@ + value
}

/// `res` is a validation error with the message `msg`.
pub open spec fn validation_error(res: Result<Config, ConfigErrors>, msg: Seq<char>) -> bool {
    match res {
        Err(ConfigErrors::ValidationError(m)) => m@ == msg,
        _ => false,
    }
}

impl Config {
    /// Reads a colour written in hexadecimal, with or without a leading `#`;
    /// only the first six digits count, as window borders take 24-bit colours.
    pub fn try_color_from_str(color_str: &str) -> (res: Option<u32>)
        ensures
            res == color_from_str(color_str@),
    {
        let cs = chars_of(color_str);
        let mut start: usize = 0;
        assert(color_str@.skip(0) =~= color_str@);
        while start < cs.len() && cs[start] == '#'
            invariant
                cs@ == color_str@,
                0 <= start <= cs@.len(),
                strip_hashes(color_str@) == strip_hashes(color_str@.skip(start as int)),
            decreases cs@.len() - start,
        {
            assert(color_str@.skip(start as int).drop_first() =~= color_str@.skip(start + 1));
            start = start + 1;
        }
        let end = if cs.len() - start <= 6 {
            cs.len()
        } else {
            start + 6
        };
        let hex = color_str.substring_char(start, end);
        proof {
            let rest = color_str@.skip(start as int);
            assert(strip_hashes(rest) == rest);
            if rest.len() <= 6 {
                assert(hex@ =~= rest);
            } else {
                assert(hex@ =~= rest.take(6));
            }
        }
        match parse_unsigned_radix(hex, 16, 0xffff_ffff) {
            Ok(value) => {
                let v = value as u32;
                let res = v | (0xffu32 << 24u32);
                assert(res == v | 0xff00_0000) by (bit_vector)
                    requires
                        res == v | (0xffu32 << 24u32),
                ;
                Some(res)
            },
            Err(_) => None,
        }
    }

    /// Checks the colour settings read from the file and fills in the colour
    /// values that were given as text.
    pub fn check_colors(self) -> (res: Result<Self, ConfigErrors>)
        ensures
            res matches Ok(c) ==> c.border_color_inactive_int is Some && c.border_color_active_int is Some,
            missing_color(self.border_color_inactive_str, self.border_color_inactive_int)
                ==> validation_error(res, "border_color_inactive is not populated"@),
            !missing_color(self.border_color_inactive_str, self.border_color_inactive_int)
                && missing_color(self.border_color_active_str, self.border_color_active_int)
                ==> validation_error(res, "border_color_active is not populated"@),
            !missing_color(self.border_color_inactive_str, self.border_color_inactive_int)
                && !missing_color(self.border_color_active_str, self.border_color_active_int)
                ==> {
                let inactive = match self.border_color_inactive_int {
                    Some(c) => Some(c),
                    None => color_from_str(self.border_color_inactive_str->0@),
                };
                let active = match self.border_color_active_int {
                    Some(c) => Some(c),
                    None => color_from_str(self.border_color_active_str->0@),
                };
                if inactive is None {
                    validation_error(
                        res,
                        invalid_color_message("border_color_inactive_str"@, self.border_color_inactive_str->0@),
                    )
                } else if active is None {
                    validation_error(
                        res,
                        invalid_color_message("border_color_active_str"@, self.border_color_active_str->0@),
                    )
                } else {
                    res matches Ok(c) && c.border_color_inactive_int == inactive
                        && c.border_color_active_int == active
                        && c.border_color_inactive_str == self.border_color_inactive_str
                        && c.border_color_active_str == self.border_color_active_str
                        && c.startup_commands == self.startup_commands
                        && c.keybindings == self.keybindings
                        && c.minimum_width_tiling == self.minimum_width_tiling
                        && c.minimum_height_tiling == self.minimum_height_tiling
                        && c.outer_gap_horiz == self.outer_gap_horiz
                        && c.outer_gap_vert == self.outer_gap_vert
                        && c.inner_gap == self.inner_gap
                        && c.border_size == self.border_size
                        && c.switch_to_workspace_on_focused_window_moved
                        == self.switch_to_workspace_on_focused_window_moved
                        && c.override_to_floating == self.override_to_floating
                }
            },
    {
        let mut config = self;
        if config.border_color_inactive_str.is_none() && config.border_color_inactive_int.is_none() {
            return Err(
                ConfigErrors::ValidationError(
                    String::from_str("border_color_inactive is not populated"),
                ),
            );
        }
        if config.border_color_active_str.is_none() && config.border_color_active_int.is_none() {
            return Err(
                ConfigErrors::ValidationError(
                    String::from_str("border_color_active is not populated"),
                ),
            );
        }
        if config.border_color_inactive_int.is_none() {
            let color = match &config.border_color_inactive_str {
                Some(color_str) => match Self::try_color_from_str(color_str.as_str()) {
                    Some(c) => c,
                    None => {
                        let mut msg = String::from_str("border_color_inactive_str");
                        msg.append(" contains invalid hex value: ");
                        msg.append(color_str.as_str());
                        return Err(ConfigErrors::ValidationError(msg));
                    },
                },
                None => 0,
            };
            config.border_color_inactive_int = Some(color);
        }
        if config.border_color_active_int.is_none() {
            let color = match &config.border_color_active_str {
                Some(color_str) => match Self::try_color_from_str(color_str.as_str()) {
                    Some(c) => c,
                    None => {
                        let mut msg = String::from_str("border_color_active_str");
                        msg.append(" contains invalid hex value: ");
                        msg.append(color_str.as_str());
                        return Err(ConfigErrors::ValidationError(msg));
                    },
                },
                None => 0,
            };
            config.border_color_active_int = Some(color);
        }
        Ok(config)
    }
}

/// A colour from its red, green, blue and alpha parts.
pub fn create_color_with_alpha(red: u8, green: u8, blue: u8, alpha: u8) -> (res: u32)
    ensures
        res == alpha as int * 0x100_0000 + red as int * 0x1_0000 + green as int * 0x100 + blue as int,
{
    let res = ((alpha as u32) << 24) | ((red as u32) << 16) | ((green as u32) << 8) | (blue as u32);
    assert(res == alpha as u32 * 0x100_0000 + red as u32 * 0x1_0000 + green as u32 * 0x100 + blue as u32) by (bit_vector)
        requires
            res == ((alpha as u32) << 24) | ((red as u32) << 16) | ((green as u32) << 8) | (blue as u32),
    ;
    res
}

/// The bindings of the default settings, in order.
pub open spec fn default_keybindings() -> Seq<Seq<char>> {
    seq![
        "Alt+Left            focus_window left"@,
        "Alt+Right           focus_window right"@,
        "Alt+Up              focus_window up"@,
        "Alt+Down            focus_window down"@,
        "Alt+H               focus_window left"@,
        "Alt+L               focus_window right"@,
        "Alt+K               focus_window up"@,
        "Alt+J               focus_window down"@,
        "Alt+Left            focus_window left"@,
        "Alt+Right           focus_window right"@,
        "Alt+Up              focus_window up"@,
        "Alt+Down            focus_window down"@,
        "Alt+Ctrl+H          move_window left  15"@,
        "Alt+Ctrl+L          move_window right 15"@,
        "Alt+Ctrl+K          move_window up    15"@,
        "Alt+Ctrl+J          move_window down  15"@,
        "Alt+Shift+H         window_size_change horizontal  15"@,
        "Alt+Shift+L         window_size_change horizontal  15"@,
        "Alt+Shift+J         window_size_change vertical    15"@,
        "Alt+Shift+K         window_size_change vertical    15"@,
        "Alt+Enter           exec alacritty"@,
        "Alt+D               exec cmake_debug_build/testbed_window -window-type=docked -docked-location=bottom"@,
        "Alt+T               exec cmake_debug_build/testbed_window -window-type=docked -docked-location=top"@,
        "Alt+D               exec dmenu_run -i -nb '#191919' -nf 'orange' -sb 'orange' -sf '#191919' -fn 'NotoMonoRegular:bold:pixelsize=14'"@,
        "Alt+Q               kill_focused_window"@,
        "Alt+Shift+R         restart_window_manager"@,
        "Alt+Shift+E         exec prompt_exit_window_manager"@,
        "Alt+Shift+Q         exit_window_manager"@,
        "Alt+1               switch_to_workspace 1"@,
        "Alt+2               switch_to_workspace 2"@,
        "Alt+3               switch_to_workspace 3"@,
        "Alt+4               switch_to_workspace 4"@,
        "Alt+5               switch_to_workspace 5"@,
        "Alt+6               switch_to_workspace 6"@,
        "Alt+7               switch_to_workspace 7"@,
        "Alt+8               switch_to_workspace 8"@,
        "Alt+9               switch_to_workspace 9"@,
        "Alt+Shift+1         move_focused_window_to_workspace 1"@,
        "Alt+Shift+2         move_focused_window_to_workspace 2"@,
        "Alt+Shift+3         move_focused_window_to_workspace 3"@,
        "Alt+Shift+4         move_focused_window_to_workspace 4"@,
        "Alt+Shift+5         move_focused_window_to_workspace 5"@,
        "Alt+Shift+6         move_focused_window_to_workspace 6"@,
        "Alt+Shift+7         move_focused_window_to_workspace 7"@,
        "Alt+Shift+8         move_focused_window_to_workspace 8"@,
        "Alt+Shift+9         move_focused_window_to_workspace 9"@,
    ]
}

/// The contents of each string.
pub open spec fn strings_of(v: Seq<String>) -> Seq<Seq<char>> {
    Seq::new(v.len(), |i: int| v[i]@)
}

/// The commands of `new` that `old` does not hold.
pub open spec fn added_commands(old: Seq<Seq<char>>, new: Seq<Seq<char>>) -> Seq<Seq<char>> {
    new.filter(|c: Seq<char>| !old.contains(c))
}

/// The startup commands of `new` settings that the `old` ones did not have, in
/// their order: those to run when the settings are read again.
pub fn added_startup_commands<'a>(old: &Vec<String>, new: &'a Vec<String>) -> (res: Vec<&'a str>)
    ensures
        views(res@) == added_commands(strings_of(old@), strings_of(new@)),
{
    let ghost olds = strings_of(old@);
    let ghost news = strings_of(new@);
    let ghost pred = |c: Seq<char>| !olds.contains(c);
    let mut res: Vec<&'a str> = Vec::new();
    let mut i: usize = 0;
    while i < new.len()
        invariant
            0 <= i <= new@.len(),
            olds == strings_of(old@),
            news == strings_of(new@),
            pred == (|c: Seq<char>| !olds.contains(c)),
            views(res@) == news.take(i as int).filter(pred),
        decreases new@.len() - i,
    {
        let cmd = new[i].as_str();
        let mut found = false;
        let mut j: usize = 0;
        while j < old.len()
            invariant
                0 <= j <= old@.len(),
                olds == strings_of(old@),
                found == exists|k: int| 0 <= k < j && olds[k] == cmd@,
            decreases old@.len() - j,
        {
            assert(olds[j as int] == old@[j as int]@);
            if str_eq(old[j].as_str(), cmd) {
                found = true;
            }
            j = j + 1;
            assert(found == exists|k: int| 0 <= k < j && olds[k] == cmd@) by {
                if found {
                    if olds[j - 1] != cmd@ {
                        let k = choose|k: int| 0 <= k < j - 1 && olds[k] == cmd@;
                        assert(0 <= k < j && olds[k] == cmd@);
                    }
                }
            }
        }
        proof {
            assert(found == olds.contains(cmd@));
            assert(news.take(i + 1).drop_last() =~= news.take(i as int));
            assert(news.take(i + 1).last() == cmd@);
            reveal(Seq::filter);
        }
        let ghost before = res@;
        if !found {
            res.push(cmd);
            assert(views(res@) =~= views(before).push(cmd@));
        }
        i = i + 1;
    }
    assert(news.take(i as int) =~= news);
    res
}

/// Owned copies of the string slices.
fn owned_strings(items: &[&str]) -> (res: Vec<String>)
    ensures
        strings_of(res@) == views(items@),
{
    let mut res: Vec<String> = Vec::new();
    let mut i: usize = 0;
    while i < items.len()
        invariant
            0 <= i <= items@.len(),
            res@.len() == i,
            forall|k: int| 0 <= k < i ==> #[trigger] res@[k]@ == items@[k]@,
        decreases items@.len() - i,
    {
        let item: &str = items[i];
        let owned = item.to_owned();
        assert(owned@ == items@[i as int]@);
        res.push(owned);
        i = i + 1;
    }
    assert(strings_of(res@) =~= views(items@));
    res
}

impl Default for Config {
    /// The settings used when no settings file is read.
    fn default() -> (res: Self)
        ensures
            res.startup_commands@.len() == 0,
            strings_of(res.keybindings@) == default_keybindings(),
            res.minimum_width_tiling == 10,
            res.minimum_height_tiling == 10,
            res.outer_gap_horiz == 10,
            res.outer_gap_vert == 10,
            res.inner_gap == 5,
            res.border_size == 3,
            res.border_color_inactive_str is None,
            res.border_color_active_str is None,
            res.border_color_inactive_int == color_from_str("#2b2b29"@),
            res.border_color_active_int == color_from_str("#a38b43"@),
            !res.switch_to_workspace_on_focused_window_moved,
            strings_of(res.override_to_floating@) == seq![""@],
    {
        let lines: [&str; 46] = [
            "Alt+Left            focus_window left",
            "Alt+Right           focus_window right",
            "Alt+Up              focus_window up",
            "Alt+Down            focus_window down",
            "Alt+H               focus_window left",
            "Alt+L               focus_window right",
            "Alt+K               focus_window up",
            "Alt+J               focus_window down",
            "Alt+Left            focus_window left",
            "Alt+Right           focus_window right",
            "Alt+Up              focus_window up",
            "Alt+Down            focus_window down",
            "Alt+Ctrl+H          move_window left  15",
            "Alt+Ctrl+L          move_window right 15",
            "Alt+Ctrl+K          move_window up    15",
            "Alt+Ctrl+J          move_window down  15",
            "Alt+Shift+H         window_size_change horizontal  15",
            "Alt+Shift+L         window_size_change horizontal  15",
            "Alt+Shift+J         window_size_change vertical    15",
            "Alt+Shift+K         window_size_change vertical    15",
            "Alt+Enter           exec alacritty",
            "Alt+D               exec cmake_debug_build/testbed_window -window-type=docked -docked-location=bottom",
            "Alt+T               exec cmake_debug_build/testbed_window -window-type=docked -docked-location=top",
            "Alt+D               exec dmenu_run -i -nb '#191919' -nf 'orange' -sb 'orange' -sf '#191919' -fn 'NotoMonoRegular:bold:pixelsize=14'",
            "Alt+Q               kill_focused_window",
            "Alt+Shift+R         restart_window_manager",
            "Alt+Shift+E         exec prompt_exit_window_manager",
            "Alt+Shift+Q         exit_window_manager",
            "Alt+1               switch_to_workspace 1",
            "Alt+2               switch_to_workspace 2",
            "Alt+3               switch_to_workspace 3",
            "Alt+4               switch_to_workspace 4",
            "Alt+5               switch_to_workspace 5",
            "Alt+6               switch_to_workspace 6",
            "Alt+7               switch_to_workspace 7",
            "Alt+8               switch_to_workspace 8",
            "Alt+9               switch_to_workspace 9",
            "Alt+Shift+1         move_focused_window_to_workspace 1",
            "Alt+Shift+2         move_focused_window_to_workspace 2",
            "Alt+Shift+3         move_focused_window_to_workspace 3",
            "Alt+Shift+4         move_focused_window_to_workspace 4",
            "Alt+Shift+5         move_focused_window_to_workspace 5",
            "Alt+Shift+6         move_focused_window_to_workspace 6",
            "Alt+Shift+7         move_focused_window_to_workspace 7",
            "Alt+Shift+8         move_focused_window_to_workspace 8",
            "Alt+Shift+9         move_focused_window_to_workspace 9",
        ];
        let keybindings = owned_strings(&lines);
        assert(views(lines@) =~= default_keybindings());
        let floating_names: [&str; 1] = [""];
        let override_to_floating = owned_strings(&floating_names);
        assert(views(floating_names@) =~= seq![""@]);
        Config {
            startup_commands: Vec::new(),
            keybindings,
            minimum_width_tiling: 10,
            minimum_height_tiling: 10,
            outer_gap_horiz: 10,
            outer_gap_vert: 10,
            inner_gap: 5,
            border_size: 3,
            border_color_inactive_str: None,
            border_color_active_str: None,
            border_color_inactive_int: Self::try_color_from_str("#2b2b29"),
            border_color_active_int: Self::try_color_from_str("#a38b43"),
            switch_to_workspace_on_focused_window_moved: false,
            override_to_floating,
        }
    }
}

} // verus!
