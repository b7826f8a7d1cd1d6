//! The launcher: its saved configuration, the command line it starts the
//! client with, and the steps of a launch.

use vstd::prelude::*;
use vstd::string::*;

use crate::text::{
    clean_path, join, join_texts, lemma_trim_idempotent, strip_verbatim_prefix, trim, trim_text,
    views,
};

verus! {

/// What the client is started as.
#[derive(Clone, Copy, Debug, PartialEq, Eq, Structural)]
pub enum RunMode {
    Game,
    ModelViewer,
    ZoneViewer,
}

impl Default for RunMode {
    fn default() -> (mode: Self)
        ensures
            mode == RunMode::Game,
    {
        RunMode::Game
    }
}

/// Everything the launcher remembers between runs.
#[derive(Clone, Debug)]
pub struct LauncherConfig {
    pub client_path: String,
    pub data_idx: String,
    pub data_aruavfs_idx: String,
    pub data_titanvfs_idx: String,
    pub data_iroseph_idx: String,
    pub data_path: String,
    pub ip: String,
    pub port: String,
    pub username: String,
    pub password: String,
    pub auto_login: bool,
    pub server_id: String,
    pub channel_id: String,
    pub character_name: String,
    pub disable_vsync: bool,
    pub passthrough_terrain_textures: bool,
    pub disable_sound: bool,
    pub fullscreen: bool,
    pub width: String,
    pub height: String,
    pub run_mode: RunMode,
    pub zone_id: String,
}

/// The configuration of a first run: every text empty but the server address
/// `127.0.0.1:29000` and the resolution 1920x1080, every switch off, and the
/// game as run mode.
pub open spec fn is_default_config(c: LauncherConfig) -> bool {
    &&& c.client_path@ == Seq::<char>::empty()
    &&& c.data_idx@ == Seq::<char>::empty()
    &&& c.data_aruavfs_idx@ == Seq::<char>::empty()
    &&& c.data_titanvfs_idx@ == Seq::<char>::empty()
    &&& c.data_iroseph_idx@ == Seq::<char>::empty()
    &&& c.data_path@ == Seq::<char>::empty()
    &&& c.ip@ == "127.0.0.1"@
    &&& c.port@ == "29000"@
    &&& c.username@ == Seq::<char>::empty()
    &&& c.password@ == Seq::<char>::empty()
    &&& !c.auto_login
    &&& c.server_id@ == Seq::<char>::empty()
    &&& c.channel_id@ == Seq::<char>::empty()
    &&& c.character_name@ == Seq::<char>::empty()
    &&& !c.disable_vsync
    &&& !c.passthrough_terrain_textures
    &&& !c.disable_sound
    &&& !c.fullscreen
    &&& c.width@ == "1920"@
    &&& c.height@ == "1080"@
    &&& c.run_mode == RunMode::Game
    &&& c.zone_id@ == Seq::<char>::empty()
}

impl Default for LauncherConfig {
    fn default() -> (config: Self)
        ensures
            is_default_config(config),
    {
        LauncherConfig {
            client_path: String::new(),
            data_idx: String::new(),
            data_aruavfs_idx: String::new(),
            data_titanvfs_idx: String::new(),
            data_iroseph_idx: String::new(),
            data_path: String::new(),
            ip: String::from_str("127.0.0.1"),
            port: String::from_str("29000"),
            username: String::new(),
            password: String::new(),
            auto_login: false,
            server_id: String::new(),
            channel_id: String::new(),
            character_name: String::new(),
            disable_vsync: false,
            passthrough_terrain_textures: false,
            disable_sound: false,
            fullscreen: false,
            width: String::from_str("1920"),
            height: String::from_str("1080"),
            run_mode: RunMode::Game,
            zone_id: String::new(),
        }
    }
}

/// `flag` followed by the trimmed `value`, or nothing where the trimmed value
/// is empty.
pub open spec fn option_args(flag: Seq<char>, value: Seq<char>) -> Seq<Seq<char>> {
    if trim(value).len() == 0 {
        Seq::empty()
    } else {
        seq![flag, trim(value)]
    }
}

/// `flag` where `on` holds, else nothing.
pub open spec fn switch_arg(on: bool, flag: Seq<char>) -> Seq<Seq<char>> {
    if on {
        seq![flag]
    } else {
        Seq::empty()
    }
}

/// The archive and data locations.
pub open spec fn data_args(c: LauncherConfig) -> Seq<Seq<char>> {
    option_args("--data-idx"@, c.data_idx@) + option_args("--data-aruavfs-idx"@, c.data_aruavfs_idx@)
        + option_args("--data-titanvfs-idx"@, c.data_titanvfs_idx@) + option_args(
        "--data-iroseph-idx"@,
        c.data_iroseph_idx@,
    ) + option_args("--data-path"@, c.data_path@)
}

/// The server and the account.
pub open spec fn login_args(c: LauncherConfig) -> Seq<Seq<char>> {
    option_args("--ip"@, c.ip@) + option_args("--port"@, c.port@) + option_args(
        "--username"@,
        c.username@,
    ) + option_args("--password"@, c.password@) + option_args("--server-id"@, c.server_id@)
        + option_args("--channel-id"@, c.channel_id@) + option_args(
        "--character-name"@,
        c.character_name@,
    )
}

/// The on/off switches.
pub open spec fn switch_args(c: LauncherConfig) -> Seq<Seq<char>> {
    switch_arg(c.auto_login, "--auto-login"@) + switch_arg(c.disable_vsync, "--disable-vsync"@)
        + switch_arg(c.passthrough_terrain_textures, "--passthrough-terrain-textures"@)
        + switch_arg(c.disable_sound, "--disable-sound"@)
}

/// Full screen, or else the window size.
pub open spec fn display_args(c: LauncherConfig) -> Seq<Seq<char>> {
    if c.fullscreen {
        seq!["--fullscreen"@]
    } else {
        option_args("--width"@, c.width@) + option_args("--height"@, c.height@)
    }
}

/// The run mode, and for the zone viewer the zone.
pub open spec fn mode_args(c: LauncherConfig) -> Seq<Seq<char>> {
    match c.run_mode {
        RunMode::Game => Seq::empty(),
        RunMode::ModelViewer => seq!["--model-viewer"@],
        RunMode::ZoneViewer => seq!["--zone-viewer"@] + option_args("--zone"@, c.zone_id@),
    }
}

/// The command line the client is started with.
pub open spec fn launch_args(c: LauncherConfig) -> Seq<Seq<char>> {
    data_args(c) + login_args(c) + switch_args(c) + display_args(c) + mode_args(c)
}

fn push_option(args: &mut Vec<String>, flag: &str, value: &String)
    ensures
        views(final(args)@) == views(old(args)@) + option_args(flag@, value@),
{
    let v = trim_text(value.as_str());
    if !v.as_str().is_empty() {
        args.push(flag.to_owned());
        args.push(v);
    }
    assert(views(args@) =~= views(old(args)@) + option_args(flag@, value@));
}

fn push_switch(args: &mut Vec<String>, on: bool, flag: &str)
    ensures
        views(final(args)@) == views(old(args)@) + switch_arg(on, flag@),
{
    if on {
        args.push(flag.to_owned());
    }
    assert(views(args@) =~= views(old(args)@) + switch_arg(on, flag@));
}

fn push_data_args(args: &mut Vec<String>, c: &LauncherConfig)
    ensures
        views(final(args)@) == views(old(args)@) + data_args(*c),
{
    push_option(args, "--data-idx", &c.data_idx);
    push_option(args, "--data-aruavfs-idx", &c.data_aruavfs_idx);
    push_option(args, "--data-titanvfs-idx", &c.data_titanvfs_idx);
    push_option(args, "--data-iroseph-idx", &c.data_iroseph_idx);
    push_option(args, "--data-path", &c.data_path);
    assert(views(args@) =~= views(old(args)@) + data_args(*c));
}

fn push_login_args(args: &mut Vec<String>, c: &LauncherConfig)
    ensures
        views(final(args)@) == views(old(args)@) + login_args(*c),
{
    push_option(args, "--ip", &c.ip);
    push_option(args, "--port", &c.port);
    push_option(args, "--username", &c.username);
    push_option(args, "--password", &c.password);
    push_option(args, "--server-id", &c.server_id);
    push_option(args, "--channel-id", &c.channel_id);
    push_option(args, "--character-name", &c.character_name);
    assert(views(args@) =~= views(old(args)@) + login_args(*c));
}

fn push_switch_args(args: &mut Vec<String>, c: &LauncherConfig)
    ensures
        views(final(args)@) == views(old(args)@) + switch_args(*c),
{
    push_switch(args, c.auto_login, "--auto-login");
    push_switch(args, c.disable_vsync, "--disable-vsync");
    push_switch(args, c.passthrough_terrain_textures, "--passthrough-terrain-textures");
    push_switch(args, c.disable_sound, "--disable-sound");
    assert(views(args@) =~= views(old(args)@) + switch_args(*c));
}

fn push_display_args(args: &mut Vec<String>, c: &LauncherConfig)
    ensures
        views(final(args)@) == views(old(args)@) + display_args(*c),
{
    if c.fullscreen {
        args.push("--fullscreen".to_owned());
    } else {
        push_option(args, "--width", &c.width);
        push_option(args, "--height", &c.height);
    }
    assert(views(args@) =~= views(old(args)@) + display_args(*c));
}

fn push_mode_args(args: &mut Vec<String>, c: &LauncherConfig)
    ensures
        views(final(args)@) == views(old(args)@) + mode_args(*c),
{
    match c.run_mode {
        RunMode::Game => {},
        RunMode::ModelViewer => args.push("--model-viewer".to_owned()),
        RunMode::ZoneViewer => {
            args.push("--zone-viewer".to_owned());
            push_option(args, "--zone", &c.zone_id);
        },
    }
    assert(views(args@) =~= views(old(args)@) + mode_args(*c));
}

/// `d` holds the trimmed texts of `c` wherever the command line reads a text,
/// and the same switches and run mode.
pub open spec fn holds_trimmed(c: LauncherConfig, d: LauncherConfig) -> bool {
    &&& d.data_idx@ == trim(c.data_idx@)
    &&& d.data_aruavfs_idx@ == trim(c.data_aruavfs_idx@)
    &&& d.data_titanvfs_idx@ == trim(c.data_titanvfs_idx@)
    &&& d.data_iroseph_idx@ == trim(c.data_iroseph_idx@)
    &&& d.data_path@ == trim(c.data_path@)
    &&& d.ip@ == trim(c.ip@)
    &&& d.port@ == trim(c.port@)
    &&& d.username@ == trim(c.username@)
    &&& d.password@ == trim(c.password@)
    &&& d.server_id@ == trim(c.server_id@)
    &&& d.channel_id@ == trim(c.channel_id@)
    &&& d.character_name@ == trim(c.character_name@)
    &&& d.width@ == trim(c.width@)
    &&& d.height@ == trim(c.height@)
    &&& d.zone_id@ == trim(c.zone_id@)
    &&& d.auto_login == c.auto_login
    &&& d.disable_vsync == c.disable_vsync
    &&& d.passthrough_terrain_textures == c.passthrough_terrain_textures
    &&& d.disable_sound == c.disable_sound
    &&& d.fullscreen == c.fullscreen
    &&& d.run_mode == c.run_mode
}

proof fn lemma_option_args_trimmed(flag: Seq<char>, value: Seq<char>)
    ensures
        option_args(flag, trim(value)) == option_args(flag, value),
{
    lemma_trim_idempotent(value);
}

/// Only the trimmed texts matter: a configuration whose texts were trimmed
/// beforehand gives the same command line.
pub proof fn lemma_launch_args_trimmed(c: LauncherConfig, d: LauncherConfig)
    requires
        holds_trimmed(c, d),
    ensures
        launch_args(d) == launch_args(c),
{
    lemma_option_args_trimmed("--data-idx"@, c.data_idx@);
    lemma_option_args_trimmed("--data-aruavfs-idx"@, c.data_aruavfs_idx@);
    lemma_option_args_trimmed("--data-titanvfs-idx"@, c.data_titanvfs_idx@);
    lemma_option_args_trimmed("--data-iroseph-idx"@, c.data_iroseph_idx@);
    lemma_option_args_trimmed("--data-path"@, c.data_path@);
    lemma_option_args_trimmed("--ip"@, c.ip@);
    lemma_option_args_trimmed("--port"@, c.port@);
    lemma_option_args_trimmed("--username"@, c.username@);
    lemma_option_args_trimmed("--password"@, c.password@);
    lemma_option_args_trimmed("--server-id"@, c.server_id@);
    lemma_option_args_trimmed("--channel-id"@, c.channel_id@);
    lemma_option_args_trimmed("--character-name"@, c.character_name@);
    lemma_option_args_trimmed("--width"@, c.width@);
    lemma_option_args_trimmed("--height"@, c.height@);
    lemma_option_args_trimmed("--zone"@, c.zone_id@);
    assert(data_args(d) == data_args(c));
    assert(login_args(d) == login_args(c));
    assert(switch_args(d) == switch_args(c));
    assert(display_args(d) == display_args(c));
    assert(mode_args(d) == mode_args(c));
}

/// `flag` directly followed by `value` somewhere in `args`.
pub open spec fn passes(args: Seq<Seq<char>>, flag: Seq<char>, value: Seq<char>) -> bool {
    exists|i: int| 0 <= i && i + 1 < args.len() && #[trigger] args[i] == flag && args[i + 1] == value
}

/// A flag followed by its value stays so in a longer command line.
pub broadcast proof fn lemma_passes_concat(
    s: Seq<Seq<char>>,
    t: Seq<Seq<char>>,
    flag: Seq<char>,
    value: Seq<char>,
)
    ensures
        passes(s, flag, value) || passes(t, flag, value) ==> #[trigger] passes(s + t, flag, value),
{
    if passes(s, flag, value) {
        let i = choose|i: int|
            0 <= i && i + 1 < s.len() && #[trigger] s[i] == flag && s[i + 1] == value;
        assert((s + t)[i] == s[i] && (s + t)[i + 1] == s[i + 1]);
    } else if passes(t, flag, value) {
        let i = choose|i: int|
            0 <= i && i + 1 < t.len() && #[trigger] t[i] == flag && t[i + 1] == value;
        assert((s + t)[s.len() + i] == t[i] && (s + t)[s.len() + i + 1] == t[i + 1]);
    }
}

/// An argument stays in a longer command line.
pub broadcast proof fn lemma_contains_concat(s: Seq<Seq<char>>, t: Seq<Seq<char>>, a: Seq<char>)
    ensures
        s.contains(a) || t.contains(a) ==> #[trigger] (s + t).contains(a),
{
    if s.contains(a) {
        let i = choose|i: int| 0 <= i < s.len() && s[i] == a;
        assert((s + t)[i] == s[i]);
    } else if t.contains(a) {
        let i = choose|i: int| 0 <= i < t.len() && t[i] == a;
        assert((s + t)[s.len() + i] == t[i]);
    }
}

proof fn lemma_passes_option(flag: Seq<char>, value: Seq<char>)
    ensures
        trim(value).len() > 0 ==> passes(option_args(flag, value), flag, trim(value)),
{
    if trim(value).len() > 0 {
        let a = option_args(flag, value);
        assert(a[0] == flag && a[1] == trim(value));
    }
}

proof fn lemma_contains_single(flag: Seq<char>)
    ensures
        seq![flag].contains(flag),
{
    assert(seq![flag][0] == flag);
}

/// What the command line passes: every text option whose trimmed value is
/// not blank, as its flag directly followed by that trimmed value (the window
/// size only when not full screen, the zone only for the zone viewer), and
/// every switch that is on, full screen, and the viewer run modes.
pub proof fn lemma_launch_args_pass_options(c: LauncherConfig)
    ensures
        trim(c.data_idx@).len() > 0 ==> passes(launch_args(c), "--data-idx"@, trim(c.data_idx@)),
        trim(c.data_aruavfs_idx@).len() > 0 ==> passes(launch_args(c), "--data-aruavfs-idx"@, trim(c.data_aruavfs_idx@)),
        trim(c.data_titanvfs_idx@).len() > 0 ==> passes(launch_args(c), "--data-titanvfs-idx"@, trim(c.data_titanvfs_idx@)),
        trim(c.data_iroseph_idx@).len() > 0 ==> passes(launch_args(c), "--data-iroseph-idx"@, trim(c.data_iroseph_idx@)),
        trim(c.data_path@).len() > 0 ==> passes(launch_args(c), "--data-path"@, trim(c.data_path@)),
        trim(c.ip@).len() > 0 ==> passes(launch_args(c), "--ip"@, trim(c.ip@)),
        trim(c.port@).len() > 0 ==> passes(launch_args(c), "--port"@, trim(c.port@)),
        trim(c.username@).len() > 0 ==> passes(launch_args(c), "--username"@, trim(c.username@)),
        trim(c.password@).len() > 0 ==> passes(launch_args(c), "--password"@, trim(c.password@)),
        trim(c.server_id@).len() > 0 ==> passes(launch_args(c), "--server-id"@, trim(c.server_id@)),
        trim(c.channel_id@).len() > 0 ==> passes(launch_args(c), "--channel-id"@, trim(c.channel_id@)),
        trim(c.character_name@).len() > 0 ==> passes(launch_args(c), "--character-name"@, trim(c.character_name@)),
        !c.fullscreen && trim(c.width@).len() > 0 ==> passes(launch_args(c), "--width"@, trim(c.width@)),
        !c.fullscreen && trim(c.height@).len() > 0 ==> passes(launch_args(c), "--height"@, trim(c.height@)),
        c.run_mode == RunMode::ZoneViewer && trim(c.zone_id@).len() > 0 ==> passes(launch_args(c), "--zone"@, trim(c.zone_id@)),
        c.auto_login ==> launch_args(c).contains("--auto-login"@),
        c.disable_vsync ==> launch_args(c).contains("--disable-vsync"@),
        c.passthrough_terrain_textures ==> launch_args(c).contains("--passthrough-terrain-textures"@),
        c.disable_sound ==> launch_args(c).contains("--disable-sound"@),
        c.fullscreen ==> launch_args(c).contains("--fullscreen"@),
        c.run_mode == RunMode::ModelViewer ==> launch_args(c).contains("--model-viewer"@),
        c.run_mode == RunMode::ZoneViewer ==> launch_args(c).contains("--zone-viewer"@),
{
    broadcast use {lemma_passes_concat, lemma_contains_concat};

    lemma_passes_option("--data-idx"@, c.data_idx@);
    lemma_passes_option("--data-aruavfs-idx"@, c.data_aruavfs_idx@);
    lemma_passes_option("--data-titanvfs-idx"@, c.data_titanvfs_idx@);
    lemma_passes_option("--data-iroseph-idx"@, c.data_iroseph_idx@);
    lemma_passes_option("--data-path"@, c.data_path@);
    lemma_passes_option("--ip"@, c.ip@);
    lemma_passes_option("--port"@, c.port@);
    lemma_passes_option("--username"@, c.username@);
    lemma_passes_option("--password"@, c.password@);
    lemma_passes_option("--server-id"@, c.server_id@);
    lemma_passes_option("--channel-id"@, c.channel_id@);
    lemma_passes_option("--character-name"@, c.character_name@);
    lemma_passes_option("--width"@, c.width@);
    lemma_passes_option("--height"@, c.height@);
    lemma_passes_option("--zone"@, c.zone_id@);
    lemma_contains_single("--auto-login"@);
    lemma_contains_single("--disable-vsync"@);
    lemma_contains_single("--passthrough-terrain-textures"@);
    lemma_contains_single("--disable-sound"@);
    lemma_contains_single("--fullscreen"@);
    lemma_contains_single("--model-viewer"@);
    lemma_contains_single("--zone-viewer"@);
}

/// The options of the command line, and the flags of the switches and
/// modes.
pub open spec fn is_known_flag(a: Seq<char>) -> bool {
    ||| a == "--data-idx"@
    ||| a == "--data-aruavfs-idx"@
    ||| a == "--data-titanvfs-idx"@
    ||| a == "--data-iroseph-idx"@
    ||| a == "--data-path"@
    ||| a == "--ip"@
    ||| a == "--port"@
    ||| a == "--username"@
    ||| a == "--password"@
    ||| a == "--server-id"@
    ||| a == "--channel-id"@
    ||| a == "--character-name"@
    ||| a == "--width"@
    ||| a == "--height"@
    ||| a == "--zone"@
    ||| a == "--auto-login"@
    ||| a == "--disable-vsync"@
    ||| a == "--passthrough-terrain-textures"@
    ||| a == "--disable-sound"@
    ||| a == "--fullscreen"@
    ||| a == "--model-viewer"@
    ||| a == "--zone-viewer"@
}

/// Whether `a` is the trimmed value of one of the configuration's texts
/// that the command line reads.
pub open spec fn is_trimmed_value(c: LauncherConfig, a: Seq<char>) -> bool {
    ||| a == trim(c.data_idx@)
    ||| a == trim(c.data_aruavfs_idx@)
    ||| a == trim(c.data_titanvfs_idx@)
    ||| a == trim(c.data_iroseph_idx@)
    ||| a == trim(c.data_path@)
    ||| a == trim(c.ip@)
    ||| a == trim(c.port@)
    ||| a == trim(c.username@)
    ||| a == trim(c.password@)
    ||| a == trim(c.server_id@)
    ||| a == trim(c.channel_id@)
    ||| a == trim(c.character_name@)
    ||| a == trim(c.width@)
    ||| a == trim(c.height@)
    ||| a == trim(c.zone_id@)
}

/// Every argument of `args` is a flag or a trimmed value of `c`.
pub open spec fn only_flags_and_values(c: LauncherConfig, args: Seq<Seq<char>>) -> bool {
    forall|k: int|
        0 <= k < args.len() ==> is_known_flag(#[trigger] args[k]) || is_trimmed_value(c, args[k])
}

proof fn lemma_only_concat(c: LauncherConfig, s: Seq<Seq<char>>, t: Seq<Seq<char>>)
    requires
        only_flags_and_values(c, s),
        only_flags_and_values(c, t),
    ensures
        only_flags_and_values(c, s + t),
{
    assert forall|k: int| 0 <= k < (s + t).len() implies is_known_flag(#[trigger] (s + t)[k])
        || is_trimmed_value(c, (s + t)[k]) by {
        if k < s.len() {
            assert((s + t)[k] == s[k]);
        } else {
            assert((s + t)[k] == t[k - s.len()]);
        }
    }
}

proof fn lemma_only_option(c: LauncherConfig, flag: Seq<char>, value: Seq<char>)
    requires
        is_known_flag(flag),
        is_trimmed_value(c, trim(value)),
    ensures
        only_flags_and_values(c, option_args(flag, value)),
{
}

/// The command line holds nothing else: each argument is a flag, or the
/// trimmed value of one of the configuration's texts.
pub proof fn lemma_launch_args_only_flags_and_values(c: LauncherConfig)
    ensures
        forall|k: int|
            0 <= k < launch_args(c).len() ==> is_known_flag(#[trigger] launch_args(c)[k])
                || is_trimmed_value(c, launch_args(c)[k]),
{
    lemma_only_option(c, "--data-idx"@, c.data_idx@);
    lemma_only_option(c, "--data-aruavfs-idx"@, c.data_aruavfs_idx@);
    lemma_only_option(c, "--data-titanvfs-idx"@, c.data_titanvfs_idx@);
    lemma_only_option(c, "--data-iroseph-idx"@, c.data_iroseph_idx@);
    lemma_only_option(c, "--data-path"@, c.data_path@);
    lemma_only_option(c, "--ip"@, c.ip@);
    lemma_only_option(c, "--port"@, c.port@);
    lemma_only_option(c, "--username"@, c.username@);
    lemma_only_option(c, "--password"@, c.password@);
    lemma_only_option(c, "--server-id"@, c.server_id@);
    lemma_only_option(c, "--channel-id"@, c.channel_id@);
    lemma_only_option(c, "--character-name"@, c.character_name@);
    lemma_only_option(c, "--width"@, c.width@);
    lemma_only_option(c, "--height"@, c.height@);
    lemma_only_option(c, "--zone"@, c.zone_id@);
    lemma_only_concat(c, option_args("--data-idx"@, c.data_idx@), option_args("--data-aruavfs-idx"@, c.data_aruavfs_idx@));
    lemma_only_concat(c, option_args("--data-idx"@, c.data_idx@) + option_args("--data-aruavfs-idx"@, c.data_aruavfs_idx@), option_args("--data-titanvfs-idx"@, c.data_titanvfs_idx@));
    lemma_only_concat(c, option_args("--data-idx"@, c.data_idx@) + option_args("--data-aruavfs-idx"@, c.data_aruavfs_idx@) + option_args("--data-titanvfs-idx"@, c.data_titanvfs_idx@), option_args("--data-iroseph-idx"@, c.data_iroseph_idx@));
    lemma_only_concat(c, option_args("--data-idx"@, c.data_idx@) + option_args("--data-aruavfs-idx"@, c.data_aruavfs_idx@) + option_args("--data-titanvfs-idx"@, c.data_titanvfs_idx@) + option_args("--data-iroseph-idx"@, c.data_iroseph_idx@), option_args("--data-path"@, c.data_path@));
    lemma_only_concat(c, option_args("--ip"@, c.ip@), option_args("--port"@, c.port@));
    lemma_only_concat(c, option_args("--ip"@, c.ip@) + option_args("--port"@, c.port@), option_args("--username"@, c.username@));
    lemma_only_concat(c, option_args("--ip"@, c.ip@) + option_args("--port"@, c.port@) + option_args("--username"@, c.username@), option_args("--password"@, c.password@));
    lemma_only_concat(c, option_args("--ip"@, c.ip@) + option_args("--port"@, c.port@) + option_args("--username"@, c.username@) + option_args("--password"@, c.password@), option_args("--server-id"@, c.server_id@));
    lemma_only_concat(c, option_args("--ip"@, c.ip@) + option_args("--port"@, c.port@) + option_args("--username"@, c.username@) + option_args("--password"@, c.password@) + option_args("--server-id"@, c.server_id@), option_args("--channel-id"@, c.channel_id@));
    lemma_only_concat(c, option_args("--ip"@, c.ip@) + option_args("--port"@, c.port@) + option_args("--username"@, c.username@) + option_args("--password"@, c.password@) + option_args("--server-id"@, c.server_id@) + option_args("--channel-id"@, c.channel_id@), option_args("--character-name"@, c.character_name@));
    lemma_only_concat(c, switch_arg(c.auto_login, "--auto-login"@), switch_arg(c.disable_vsync, "--disable-vsync"@));
    lemma_only_concat(c, switch_arg(c.auto_login, "--auto-login"@) + switch_arg(c.disable_vsync, "--disable-vsync"@), switch_arg(c.passthrough_terrain_textures, "--passthrough-terrain-textures"@));
    lemma_only_concat(c, switch_arg(c.auto_login, "--auto-login"@) + switch_arg(c.disable_vsync, "--disable-vsync"@) + switch_arg(c.passthrough_terrain_textures, "--passthrough-terrain-textures"@), switch_arg(c.disable_sound, "--disable-sound"@));
    assert(only_flags_and_values(c, display_args(c))) by {
        if !c.fullscreen {
            lemma_only_concat(c, option_args("--width"@, c.width@), option_args("--height"@, c.height@));
        }
    }
    assert(only_flags_and_values(c, mode_args(c))) by {
        if c.run_mode == RunMode::ZoneViewer {
            lemma_only_concat(c, seq!["--zone-viewer"@], option_args("--zone"@, c.zone_id@));
        }
    }
    lemma_only_concat(c, data_args(c), login_args(c));
    lemma_only_concat(c, data_args(c) + login_args(c), switch_args(c));
    lemma_only_concat(c, data_args(c) + login_args(c) + switch_args(c), display_args(c));
    lemma_only_concat(c, data_args(c) + login_args(c) + switch_args(c) + display_args(c), mode_args(c));
}

/// A tab of the launcher's window.
#[derive(Clone, Copy, Debug, PartialEq, Eq, Structural)]
pub enum Tab {
    Start,
    Options,
}

/// How far a launch has come.
#[derive(Clone, Copy, Debug, PartialEq, Eq, Structural)]
pub enum LaunchPhase {
    /// No launch is under way.
    Idle,
    /// The configuration was saved; the client executable is being checked.
    CheckingExe,
    /// The executable exists; the client is being started.
    Spawning,
}

/// The launcher's state: its configuration, the tab shown, the message about
/// the last launch or save, and how far a launch has come.
pub struct LauncherApp {
    pub config: LauncherConfig,
    pub tab: Tab,
    pub status: String,
    pub launch_phase: LaunchPhase,
}

impl LauncherApp {
    /// The launcher as it opens, on the configuration that was loaded.
    pub fn new(config: LauncherConfig) -> (app: Self)
        ensures
            app.config == config,
            app.tab == Tab::Start,
            app.status@ == Seq::<char>::empty(),
            app.launch_phase == LaunchPhase::Idle,
    {
        LauncherApp { config, tab: Tab::Start, status: String::new(), launch_phase: LaunchPhase::Idle }
    }

    /// The arguments the client is started with: each option whose trimmed
    /// value is not empty, as its flag followed by that value, then the
    /// switches that are on, the display mode and the run mode.
    pub fn build_args(&self) -> (args: Vec<String>)
        ensures
            views(args@) == launch_args(self.config),
    {
        let mut args: Vec<String> = Vec::new();
        let c = &self.config;
        push_data_args(&mut args, c);
        push_login_args(&mut args, c);
        push_switch_args(&mut args, c);
        push_display_args(&mut args, c);
        push_mode_args(&mut args, c);
        assert(views(args@) =~= launch_args(*c));
        args
    }
}

/// What the launcher learns during a launch, handed to
/// [`LauncherApp::launch_step`] by whoever performs its actions.
pub enum LaunchEvent {
    /// The configuration was written to disk (`None`), or writing it failed
    /// with this message.
    ConfigSaved(Option<String>),
    /// Whether the client executable exists as a file, and how its path
    /// displays.
    ExeChecked { found: bool, display: String },
    /// The client was started with these arguments (`error` is `None`), or
    /// starting it failed with this message.
    Spawned { display: String, args: Vec<String>, error: Option<String> },
}

/// What the launcher asks for next during a launch.
pub enum LaunchAction {
    /// The launch is over; the status says how it ended.
    Stop,
    /// Check that the client executable at this path exists as a file.
    CheckExe(String),
    /// Start the client executable with these arguments.
    Spawn(Vec<String>),
}

pub open spec fn save_failed_prefix() -> Seq<char> {
    "Konnte Einstellungen nicht speichern: "@
}

pub open spec fn missing_client_message() -> Seq<char> {
    "Bitte im Optionen-Tab den Pfad zu rose-offline-client.exe setzen."@
}

pub open spec fn exe_not_found_prefix() -> Seq<char> {
    "Client-Exe nicht gefunden: "@
}

pub open spec fn started_prefix() -> Seq<char> {
    "Gestartet: "@
}

pub open spec fn start_failed_prefix() -> Seq<char> {
    "Start fehlgeschlagen: "@
}

pub open spec fn settings_saved_message() -> Seq<char> {
    "Einstellungen gespeichert."@
}

pub open spec fn settings_save_failed_prefix() -> Seq<char> {
    "Speichern fehlgeschlagen: "@
}

/// `a` and `b` agree on every field but the three paths that detection fills
/// in.
pub open spec fn same_but_detected_paths(a: LauncherConfig, b: LauncherConfig) -> bool {
    &&& a.data_aruavfs_idx == b.data_aruavfs_idx
    &&& a.data_titanvfs_idx == b.data_titanvfs_idx
    &&& a.data_iroseph_idx == b.data_iroseph_idx
    &&& a.ip == b.ip
    &&& a.port == b.port
    &&& a.username == b.username
    &&& a.password == b.password
    &&& a.auto_login == b.auto_login
    &&& a.server_id == b.server_id
    &&& a.channel_id == b.channel_id
    &&& a.character_name == b.character_name
    &&& a.disable_vsync == b.disable_vsync
    &&& a.passthrough_terrain_textures == b.passthrough_terrain_textures
    &&& a.disable_sound == b.disable_sound
    &&& a.fullscreen == b.fullscreen
    &&& a.width == b.width
    &&& a.height == b.height
    &&& a.run_mode == b.run_mode
    &&& a.zone_id == b.zone_id
}

/// What a detected path sets a field to: the cleaned detected path, or the
/// field unchanged where nothing was detected.
pub open spec fn detected_or(found: Option<String>, current: Seq<char>) -> Seq<char> {
    match found {
        Some(p) => strip_verbatim_prefix(p@),
        None => current,
    }
}

/// What kind of event a launch step gets, without its texts.
#[derive(Clone, Copy, Debug, PartialEq, Eq, Structural)]
pub enum LaunchEventKind {
    ConfigSaved { saved: bool },
    ExeChecked { found: bool },
    Spawned,
}

/// The kind of `event`.
pub open spec fn event_kind(event: LaunchEvent) -> LaunchEventKind {
    match event {
        LaunchEvent::ConfigSaved(error) => LaunchEventKind::ConfigSaved { saved: error is None },
        LaunchEvent::ExeChecked { found, .. } => LaunchEventKind::ExeChecked { found },
        LaunchEvent::Spawned { .. } => LaunchEventKind::Spawned,
    }
}

/// The phase after a launch step: saving the configuration with a client
/// path that is not blank leads to checking the executable; finding it while
/// checking leads to starting the client; everything else ends the launch.
pub open spec fn next_launch_phase(
    phase: LaunchPhase,
    kind: LaunchEventKind,
    blank_client_path: bool,
) -> LaunchPhase {
    match kind {
        LaunchEventKind::ConfigSaved { saved } => if saved && !blank_client_path {
            LaunchPhase::CheckingExe
        } else {
            LaunchPhase::Idle
        },
        LaunchEventKind::ExeChecked { found } => if phase == LaunchPhase::CheckingExe && found {
            LaunchPhase::Spawning
        } else {
            LaunchPhase::Idle
        },
        LaunchEventKind::Spawned => LaunchPhase::Idle,
    }
}

/// Whether a launch step asks to start the client: only for an executable
/// found while it was being checked.
pub open spec fn launch_spawns(phase: LaunchPhase, kind: LaunchEventKind) -> bool {
    phase == LaunchPhase::CheckingExe && kind == (LaunchEventKind::ExeChecked { found: true })
}

/// The phase of a launcher that was idle and then got events of these kinds.
pub open spec fn phase_after(kinds: Seq<LaunchEventKind>, blank_client_path: bool) -> LaunchPhase
    decreases kinds.len(),
{
    if kinds.len() == 0 {
        LaunchPhase::Idle
    } else {
        next_launch_phase(
            phase_after(kinds.drop_last(), blank_client_path),
            kinds.last(),
            blank_client_path,
        )
    }
}

/// The client is started only after the configuration was saved: in any run
/// of events from an idle launcher, a step asks to start the client only for
/// an executable found in the event right after a successful save, and only
/// when the client path is not blank.
pub proof fn lemma_spawn_only_after_saved_config(
    kinds: Seq<LaunchEventKind>,
    blank_client_path: bool,
    i: int,
)
    requires
        0 <= i < kinds.len(),
        launch_spawns(phase_after(kinds.take(i), blank_client_path), kinds[i]),
    ensures
        i >= 1,
        kinds[i - 1] == (LaunchEventKind::ConfigSaved { saved: true }),
        !blank_client_path,
        kinds[i] == (LaunchEventKind::ExeChecked { found: true }),
{
    let run = kinds.take(i);
    if i >= 1 {
        assert(run.drop_last() =~= kinds.take(i - 1));
        assert(run.last() == kinds[i - 1]);
    }
}

/// A detected location replaces its field, cleaned of the verbatim-path
/// prefix; a location not detected leaves the field as it was.
pub proof fn lemma_detected_or(found: Option<String>, current: Seq<char>)
    ensures
        found is None ==> detected_or(found, current) == current,
        found matches Some(p) ==> detected_or(found, current) == strip_verbatim_prefix(p@),
{
}

impl LauncherConfig {
    /// Takes over the locations that detection found: the client executable,
    /// the vanilla `data.idx`, and the folder that holds the loose `3Ddata`
    /// directory, each cleaned of the verbatim-path prefix. A location that
    /// was not found leaves its field as it was; no other field changes.
    pub fn apply_detected(
        &mut self,
        client_path: Option<String>,
        data_idx: Option<String>,
        data_path: Option<String>,
    )
        ensures
            final(self).client_path@ == detected_or(client_path, old(self).client_path@),
            final(self).data_idx@ == detected_or(data_idx, old(self).data_idx@),
            final(self).data_path@ == detected_or(data_path, old(self).data_path@),
            same_but_detected_paths(*final(self), *old(self)),
    {
        if let Some(p) = client_path {
            self.client_path = clean_path(p.as_str());
        }
        if let Some(p) = data_idx {
            self.data_idx = clean_path(p.as_str());
        }
        if let Some(p) = data_path {
            self.data_path = clean_path(p.as_str());
        }
    }
}

impl LauncherApp {
    /// Records how saving the settings from the options tab went.
    pub fn record_save(&mut self, error: Option<String>)
        ensures
            final(self).config == old(self).config,
            final(self).launch_phase == old(self).launch_phase,
            final(self).tab == old(self).tab,
            final(self).status@ == match error {
                None => settings_saved_message(),
                Some(e) => settings_save_failed_prefix() + e@,
            },
    {
        match error {
            None => {
                self.status = String::from_str("Einstellungen gespeichert.");
            },
            Some(e) => {
                let mut s = String::from_str("Speichern fehlgeschlagen: ");
                s.append(e.as_str());
                self.status = s;
            },
        }
    }

    /// One step of a launch. A launch begins with saving the configuration
    /// and feeding the outcome in as `ConfigSaved`; each action that is not
    /// `Stop` is performed and its outcome fed in as the next event.
    ///
    /// A failed save ends the launch with a message; so does a client path
    /// that is empty once trimmed, and a client executable that does not
    /// exist. Otherwise the client is started with [`Self::build_args`], and
    /// the status reports the command line, or why starting it failed. The
    /// launch phase keeps the order: an executable check counts only while
    /// one was asked for, a start only while one was asked for; any other
    /// such event ends the launch and leaves the status as it was. The status
    /// changes only when the launch ends; the configuration and the tab never
    /// change.
    pub fn launch_step(&mut self, event: LaunchEvent) -> (action: LaunchAction)
        ensures
            final(self).config == old(self).config,
            final(self).tab == old(self).tab,
            !(action is Stop) ==> final(self).status == old(self).status,
            final(self).launch_phase == next_launch_phase(
                old(self).launch_phase,
                event_kind(event),
                trim(old(self).config.client_path@).len() == 0,
            ),
            action is Spawn <==> launch_spawns(old(self).launch_phase, event_kind(event)),
            match event {
                LaunchEvent::ConfigSaved(Some(e)) => {
                    &&& action is Stop
                    &&& final(self).status@ == save_failed_prefix() + e@
                },
                LaunchEvent::ConfigSaved(None) => if trim(old(self).config.client_path@).len() == 0 {
                    &&& action is Stop
                    &&& final(self).status@ == missing_client_message()
                } else {
                    action matches LaunchAction::CheckExe(p) && p@ == trim(
                        old(self).config.client_path@,
                    )
                },
                LaunchEvent::ExeChecked { found, display } => if old(self).launch_phase
                    != LaunchPhase::CheckingExe {
                    &&& action is Stop
                    &&& final(self).status == old(self).status
                } else if found {
                    action matches LaunchAction::Spawn(args) && views(args@) == launch_args(
                        old(self).config,
                    )
                } else {
                    &&& action is Stop
                    &&& final(self).status@ == exe_not_found_prefix() + display@
                },
                LaunchEvent::Spawned { display, args, error } => {
                    &&& action is Stop
                    &&& if old(self).launch_phase != LaunchPhase::Spawning {
                        final(self).status == old(self).status
                    } else {
                        final(self).status@ == match error {
                            None => started_prefix() + display@ + " "@ + join(views(args@), " "@),
                            Some(e) => start_failed_prefix() + e@,
                        }
                    }
                },
            },
    {
        match event {
            LaunchEvent::ConfigSaved(Some(e)) => {
                let mut s = String::from_str("Konnte Einstellungen nicht speichern: ");
                s.append(e.as_str());
                self.status = s;
                self.launch_phase = LaunchPhase::Idle;
                LaunchAction::Stop
            },
            LaunchEvent::ConfigSaved(None) => {
                let client_path = trim_text(self.config.client_path.as_str());
                if client_path.as_str().is_empty() {
                    self.status = String::from_str(
                        "Bitte im Optionen-Tab den Pfad zu rose-offline-client.exe setzen.",
                    );
                    self.launch_phase = LaunchPhase::Idle;
                    LaunchAction::Stop
                } else {
                    self.launch_phase = LaunchPhase::CheckingExe;
                    LaunchAction::CheckExe(client_path)
                }
            },
            LaunchEvent::ExeChecked { found, display } => {
                if self.launch_phase != LaunchPhase::CheckingExe {
                    self.launch_phase = LaunchPhase::Idle;
                    LaunchAction::Stop
                } else if found {
                    self.launch_phase = LaunchPhase::Spawning;
                    LaunchAction::Spawn(self.build_args())
                } else {
                    let mut s = String::from_str("Client-Exe nicht gefunden: ");
                    s.append(display.as_str());
                    self.status = s;
                    self.launch_phase = LaunchPhase::Idle;
                    LaunchAction::Stop
                }
            },
            LaunchEvent::Spawned { display, args, error } => {
                if self.launch_phase != LaunchPhase::Spawning {
                    self.launch_phase = LaunchPhase::Idle;
                    return LaunchAction::Stop;
                }
                self.launch_phase = LaunchPhase::Idle;
                match error {
                    None => {
                        let mut s = String::from_str("Gestartet: ");
                        s.append(display.as_str());
                        s.append(" ");
                        let joined = join_texts(&args, " ");
                        s.append(joined.as_str());
                        self.status = s;
                    },
                    Some(e) => {
                        let mut s = String::from_str("Start fehlgeschlagen: ");
                        s.append(e.as_str());
                        self.status = s;
                    },
                }
                LaunchAction::Stop
            },
        }
    }
}

} // verus!
