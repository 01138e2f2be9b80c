//! Reading UI settings out of a parsed configuration file and the
//! environment.
//!
//! The result is an ordered list of updates: each recognised key of the
//! right type becomes an update, each unknown key or mistyped value becomes
//! a warning, in the order the settings are documented. Numbers stay text
//! here; whoever applies them parses, range-checks and clamps them.

use vstd::prelude::*;

use crate::config::{sanitize_families, spec_appearance, spec_sanitize, AppearancePreference};
use crate::text::{owned, push_str, str_eq};
use crate::toml::{table_get, table_index, table_view, value_view, TableModel, TomlModel, TomlValue};

verus! {

/// The numeric settings.
#[derive(Clone, Copy, Debug, PartialEq, Eq, Structural)]
pub enum NumberSetting {
    UtilityOpacity,
    WindowPadding,
    UiFontSize,
    TerminalPadding,
    TerminalFontSize,
}

/// Which font a family setting is for.
#[derive(Clone, Copy, Debug, PartialEq, Eq, Structural)]
pub enum FontRole {
    Ui,
    Terminal,
}

/// One step of applying a configuration source, in order.
#[derive(Debug, PartialEq, Eq)]
pub enum SettingUpdate {
    /// A diagnostic to record; the setting keeps its value.
    Warning(String),
    Appearance(AppearancePreference),
    ReducedMaterial(bool),
    /// A number setting and the text of its value.
    Number(NumberSetting, String),
    Family(FontRole, String),
    /// Fallback families, already trimmed with blanks dropped.
    Fallbacks(FontRole, Vec<String>),
}

/// A setting update as data.
pub enum UpdateModel {
    Warning(Seq<char>),
    Appearance(AppearancePreference),
    ReducedMaterial(bool),
    Number(NumberSetting, Seq<char>),
    Family(FontRole, Seq<char>),
    Fallbacks(FontRole, Seq<Seq<char>>),
}

impl View for SettingUpdate {
    type V = UpdateModel;

    open spec fn view(&self) -> UpdateModel {
        match self {
            SettingUpdate::Warning(w) => UpdateModel::Warning(w@),
            SettingUpdate::Appearance(a) => UpdateModel::Appearance(*a),
            SettingUpdate::ReducedMaterial(b) => UpdateModel::ReducedMaterial(*b),
            SettingUpdate::Number(n, t) => UpdateModel::Number(*n, t@),
            SettingUpdate::Family(r, f) => UpdateModel::Family(*r, f@),
            SettingUpdate::Fallbacks(r, fs) => UpdateModel::Fallbacks(
                *r,
                fs@.map_values(|s: String| s@),
            ),
        }
    }
}

/// The data of a list of updates.
pub open spec fn updates_view(v: Seq<SettingUpdate>) -> Seq<UpdateModel> {
    v.map_values(|u: SettingUpdate| u@)
}

/// The groups of keys the configuration file knows.
#[derive(Clone, Copy, Debug, PartialEq, Eq, Structural)]
pub enum KeyGroup {
    Ui,
    Font,
    Terminal,
}

/// Whether `k` is a known key of `group`.
pub open spec fn known_key(group: KeyGroup, k: Seq<char>) -> bool {
    match group {
        KeyGroup::Ui => k == "appearance"@ || k == "reduced-material"@ || k == "utility-opacity"@
            || k == "window-padding"@ || k == "font"@,
        KeyGroup::Font => k == "family"@ || k == "size"@ || k == "fallbacks"@,
        KeyGroup::Terminal => k == "padding"@ || k == "font"@,
    }
}

/// The sub-table under `k`, or an empty one when `k` is missing or not a
/// table.
pub open spec fn sub_table(t: TableModel, k: Seq<char>) -> TableModel {
    match table_get(t, k) {
        Some(TomlModel::Table(x)) => x,
        _ => Seq::empty(),
    }
}

/// One warning for every key of `t` that `group` does not know, in key
/// order.
pub open spec fn unknown_warnings(prefix: Seq<char>, t: TableModel, group: KeyGroup) -> Seq<
    UpdateModel,
>
    decreases t.len(),
{
    if t.len() == 0 {
        Seq::empty()
    } else {
        let prev = unknown_warnings(prefix, t.drop_last(), group);
        let k = t.last().0;
        if known_key(group, k) {
            prev
        } else {
            prev.push(UpdateModel::Warning("unknown key "@ + prefix + "."@ + k + " ignored"@))
        }
    }
}

pub open spec fn appearance_update(v: Option<TomlModel>) -> Seq<UpdateModel> {
    match v {
        None => Seq::empty(),
        Some(TomlModel::Str(t)) if spec_appearance(t) is Some => seq![
            UpdateModel::Appearance(spec_appearance(t)->Some_0),
        ],
        Some(_) => seq![
            UpdateModel::Warning("ui.appearance ignored; expected system|light|dark"@),
        ],
    }
}

pub open spec fn bool_update(v: Option<TomlModel>, key: Seq<char>) -> Seq<UpdateModel> {
    match v {
        None => Seq::empty(),
        Some(TomlModel::Bool(b)) => seq![UpdateModel::ReducedMaterial(b)],
        Some(_) => seq![UpdateModel::Warning(key + " ignored; expected boolean"@)],
    }
}

pub open spec fn number_update(v: Option<TomlModel>, key: Seq<char>, which: NumberSetting) -> Seq<
    UpdateModel,
> {
    match v {
        None => Seq::empty(),
        Some(TomlModel::Num(t)) => seq![UpdateModel::Number(which, t)],
        Some(_) => seq![UpdateModel::Warning(key + " ignored; expected number"@)],
    }
}

pub open spec fn family_update(v: Option<TomlModel>, key: Seq<char>, role: FontRole) -> Seq<
    UpdateModel,
> {
    match v {
        None => Seq::empty(),
        Some(TomlModel::Str(t)) => seq![UpdateModel::Family(role, t)],
        Some(_) => seq![UpdateModel::Warning(key + " ignored; expected string"@)],
    }
}

/// The strings of an all-string array.
pub open spec fn array_strings(items: Seq<TomlModel>) -> Seq<Seq<char>> {
    Seq::new(items.len(), |i: int| items[i]->Str_0)
}

pub open spec fn fallbacks_update(v: Option<TomlModel>, key: Seq<char>, role: FontRole) -> Seq<
    UpdateModel,
> {
    match v {
        None => Seq::empty(),
        Some(TomlModel::Arr(items)) if forall|i: int| 0 <= i < items.len() ==> #[trigger] items[i] is Str =>
            seq![UpdateModel::Fallbacks(role, spec_sanitize(array_strings(items)))],
        Some(_) => seq![UpdateModel::Warning(key + " ignored; expected array of strings"@)],
    }
}

/// Everything a parsed configuration file says about the UI settings, in
/// order: unknown keys of `[ui]`, `[ui.font]`, `[terminal]` and
/// `[terminal.font]`, then appearance, reduced material, utility opacity,
/// window padding, UI font family, size and fallbacks, terminal padding,
/// and terminal font family, size and fallbacks.
pub open spec fn spec_toml_updates(root: TableModel) -> Seq<UpdateModel> {
    let ui = sub_table(root, "ui"@);
    let ui_font = sub_table(ui, "font"@);
    let terminal = sub_table(root, "terminal"@);
    let terminal_font = sub_table(terminal, "font"@);
    unknown_warnings("ui"@, ui, KeyGroup::Ui) + unknown_warnings("ui.font"@, ui_font, KeyGroup::Font)
        + unknown_warnings("terminal"@, terminal, KeyGroup::Terminal) + unknown_warnings(
        "terminal.font"@,
        terminal_font,
        KeyGroup::Font,
    ) + appearance_update(table_get(ui, "appearance"@)) + bool_update(
        table_get(ui, "reduced-material"@),
        "ui.reduced-material"@,
    ) + number_update(
        table_get(ui, "utility-opacity"@),
        "ui.utility-opacity"@,
        NumberSetting::UtilityOpacity,
    ) + number_update(
        table_get(ui, "window-padding"@),
        "ui.window-padding"@,
        NumberSetting::WindowPadding,
    ) + family_update(table_get(ui_font, "family"@), "ui.font.family"@, FontRole::Ui)
        + number_update(table_get(ui_font, "size"@), "ui.font.size"@, NumberSetting::UiFontSize)
        + fallbacks_update(table_get(ui_font, "fallbacks"@), "ui.font.fallbacks"@, FontRole::Ui)
        + number_update(
        table_get(terminal, "padding"@),
        "terminal.padding"@,
        NumberSetting::TerminalPadding,
    ) + family_update(
        table_get(terminal_font, "family"@),
        "terminal.font.family"@,
        FontRole::Terminal,
    ) + number_update(
        table_get(terminal_font, "size"@),
        "terminal.font.size"@,
        NumberSetting::TerminalFontSize,
    ) + fallbacks_update(
        table_get(terminal_font, "fallbacks"@),
        "terminal.font.fallbacks"@,
        FontRole::Terminal,
    )
}

// ---------------------------------------------------------------------------
// Executable reading.
// ---------------------------------------------------------------------------

fn is_known_key(group: KeyGroup, k: &str) -> (r: bool)
    ensures
        r == known_key(group, k@),
{
    match group {
        KeyGroup::Ui => str_eq(k, "appearance") || str_eq(k, "reduced-material") || str_eq(
            k,
            "utility-opacity",
        ) || str_eq(k, "window-padding") || str_eq(k, "font"),
        KeyGroup::Font => str_eq(k, "family") || str_eq(k, "size") || str_eq(k, "fallbacks"),
        KeyGroup::Terminal => str_eq(k, "padding") || str_eq(k, "font"),
    }
}

/// The message `<head><key><tail>`.
fn message3(head: &str, key: &str, tail: &str) -> (r: String)
    ensures
        r@ == head@ + key@ + tail@,
{
    let mut m = owned(head);
    push_str(&mut m, key);
    push_str(&mut m, tail);
    m
}

/// The view of a looked-up value.
pub open spec fn opt_view(v: Option<&TomlValue>) -> Option<TomlModel> {
    match v {
        Some(x) => Some(value_view(*x)),
        None => None,
    }
}

fn lookup<'a>(table: &'a Vec<(String, TomlValue)>, key: &str) -> (r: Option<&'a TomlValue>)
    ensures
        opt_view(r) == table_get(table_view(table@), key@),
{
    match table_index(table, key) {
        Some(i) => Some(&table[i].1),
        None => None,
    }
}

fn sub_table_of<'a>(table: &'a Vec<(String, TomlValue)>, key: &str, empty: &'a Vec<
    (String, TomlValue),
>) -> (r: &'a Vec<(String, TomlValue)>)
    requires
        empty@.len() == 0,
    ensures
        table_view(r@) == sub_table(table_view(table@), key@),
{
    match lookup(table, key) {
        Some(v) => match v.as_table() {
            Some(t) => t,
            None => {
                assert(table_view(empty@) =~= Seq::<(Seq<char>, TomlModel)>::empty());
                empty
            },
        },
        None => {
            assert(table_view(empty@) =~= Seq::<(Seq<char>, TomlModel)>::empty());
            empty
        },
    }
}

fn push_update(out: &mut Vec<SettingUpdate>, u: SettingUpdate)
    ensures
        updates_view(final(out)@) == updates_view(old(out)@).push(u@),
{
    let ghost before = updates_view(out@);
    out.push(u);
    assert(updates_view(out@) =~= before.push(u@));
}

fn push_unknown_warnings(
    out: &mut Vec<SettingUpdate>,
    prefix: &str,
    table: &Vec<(String, TomlValue)>,
    group: KeyGroup,
)
    ensures
        updates_view(final(out)@) == updates_view(old(out)@) + unknown_warnings(
            prefix@,
            table_view(table@),
            group,
        ),
{
    let ghost start = updates_view(out@);
    let ghost tv = table_view(table@);
    let mut i: usize = 0;
    assert(tv.subrange(0, 0) =~= Seq::<(Seq<char>, TomlModel)>::empty());
    assert(start + Seq::<UpdateModel>::empty() =~= start);
    while i < table.len()
        invariant
            0 <= i <= table@.len(),
            tv == table_view(table@),
            updates_view(out@) == start + unknown_warnings(prefix@, tv.subrange(0, i as int), group),
        decreases table@.len() - i,
    {
        let ghost sub = tv.subrange(0, i + 1);
        assert(sub.drop_last() =~= tv.subrange(0, i as int));
        assert(sub.last() == tv[i as int]);
        let key = table[i].0.as_str();
        if !is_known_key(group, key) {
            let w = message3("unknown key ", prefix, ".");
            let mut w2 = w;
            push_str(&mut w2, key);
            push_str(&mut w2, " ignored");
            let ghost prev = updates_view(out@);
            push_update(out, SettingUpdate::Warning(w2));
            assert(updates_view(out@) =~= start + unknown_warnings(prefix@, sub, group));
        }
        i += 1;
    }
    assert(tv.subrange(0, table@.len() as int) =~= tv);
}

fn push_appearance(out: &mut Vec<SettingUpdate>, v: Option<&TomlValue>)
    ensures
        updates_view(final(out)@) == updates_view(old(out)@) + appearance_update(opt_view(v)),
{
    let ghost before = updates_view(out@);
    match v {
        None => {
            assert(before + Seq::<UpdateModel>::empty() =~= before);
        },
        Some(value) => {
            let parsed = match value.as_str() {
                Some(raw) => AppearancePreference::parse(raw),
                None => None,
            };
            match parsed {
                Some(p) => push_update(out, SettingUpdate::Appearance(p)),
                None => push_update(
                    out,
                    SettingUpdate::Warning(owned("ui.appearance ignored; expected system|light|dark")),
                ),
            }
            assert(updates_view(out@) =~= before + appearance_update(opt_view(v)));
        },
    }
}

fn push_bool(out: &mut Vec<SettingUpdate>, v: Option<&TomlValue>, key: &str)
    ensures
        updates_view(final(out)@) == updates_view(old(out)@) + bool_update(opt_view(v), key@),
{
    let ghost before = updates_view(out@);
    match v {
        None => {
            assert(before + Seq::<UpdateModel>::empty() =~= before);
        },
        Some(value) => {
            match value.as_bool() {
                Some(b) => push_update(out, SettingUpdate::ReducedMaterial(b)),
                None => push_update(
                    out,
                    SettingUpdate::Warning(message3("", key, " ignored; expected boolean")),
                ),
            }
            proof {
                assert(""@ + key@ =~= key@) by {
                    reveal_strlit("");
                }
            }
            assert(updates_view(out@) =~= before + bool_update(opt_view(v), key@));
        },
    }
}

fn push_number(out: &mut Vec<SettingUpdate>, v: Option<&TomlValue>, key: &str, which: NumberSetting)
    ensures
        updates_view(final(out)@) == updates_view(old(out)@) + number_update(
            opt_view(v),
            key@,
            which,
        ),
{
    let ghost before = updates_view(out@);
    match v {
        None => {
            assert(before + Seq::<UpdateModel>::empty() =~= before);
        },
        Some(value) => {
            match value.as_number() {
                Some(text) => push_update(out, SettingUpdate::Number(which, owned(text))),
                None => push_update(
                    out,
                    SettingUpdate::Warning(message3("", key, " ignored; expected number")),
                ),
            }
            proof {
                assert(""@ + key@ =~= key@) by {
                    reveal_strlit("");
                }
            }
            assert(updates_view(out@) =~= before + number_update(opt_view(v), key@, which));
        },
    }
}

fn push_family(out: &mut Vec<SettingUpdate>, v: Option<&TomlValue>, key: &str, role: FontRole)
    ensures
        updates_view(final(out)@) == updates_view(old(out)@) + family_update(
            opt_view(v),
            key@,
            role,
        ),
{
    let ghost before = updates_view(out@);
    match v {
        None => {
            assert(before + Seq::<UpdateModel>::empty() =~= before);
        },
        Some(value) => {
            match value.as_str() {
                Some(text) => push_update(out, SettingUpdate::Family(role, owned(text))),
                None => push_update(
                    out,
                    SettingUpdate::Warning(message3("", key, " ignored; expected string")),
                ),
            }
            proof {
                assert(""@ + key@ =~= key@) by {
                    reveal_strlit("");
                }
            }
            assert(updates_view(out@) =~= before + family_update(opt_view(v), key@, role));
        },
    }
}

fn push_fallbacks(out: &mut Vec<SettingUpdate>, v: Option<&TomlValue>, key: &str, role: FontRole)
    ensures
        updates_view(final(out)@) == updates_view(old(out)@) + fallbacks_update(
            opt_view(v),
            key@,
            role,
        ),
{
    let ghost before = updates_view(out@);
    match v {
        None => {
            assert(before + Seq::<UpdateModel>::empty() =~= before);
        },
        Some(value) => {
            match value.as_string_array() {
                Some(strings) => {
                    let families = sanitize_families(&strings);
                    proof {
                        match value_view(*value) {
                            TomlModel::Arr(items) => {
                                assert(strings@.map_values(|s: String| s@) =~= array_strings(
                                    items,
                                ));
                            },
                            _ => {},
                        }
                    }
                    push_update(out, SettingUpdate::Fallbacks(role, families));
                },
                None => push_update(
                    out,
                    SettingUpdate::Warning(
                        message3("", key, " ignored; expected array of strings"),
                    ),
                ),
            }
            proof {
                assert(""@ + key@ =~= key@) by {
                    reveal_strlit("");
                }
            }
            assert(updates_view(out@) =~= before + fallbacks_update(opt_view(v), key@, role));
        },
    }
}

/// Read the UI settings out of a parsed configuration file (see
/// [`spec_toml_updates`]).
pub fn toml_setting_updates(root: &Vec<(String, TomlValue)>) -> (r: Vec<SettingUpdate>)
    ensures
        updates_view(r@) == spec_toml_updates(table_view(root@)),
{
    let empty: Vec<(String, TomlValue)> = Vec::new();
    let ui = sub_table_of(root, "ui", &empty);
    let ui_font = sub_table_of(ui, "font", &empty);
    let terminal = sub_table_of(root, "terminal", &empty);
    let terminal_font = sub_table_of(terminal, "font", &empty);
    let mut out: Vec<SettingUpdate> = Vec::new();
    assert(updates_view(out@) =~= Seq::<UpdateModel>::empty());
    push_unknown_warnings(&mut out, "ui", ui, KeyGroup::Ui);
    push_unknown_warnings(&mut out, "ui.font", ui_font, KeyGroup::Font);
    push_unknown_warnings(&mut out, "terminal", terminal, KeyGroup::Terminal);
    push_unknown_warnings(&mut out, "terminal.font", terminal_font, KeyGroup::Font);
    push_appearance(&mut out, lookup(ui, "appearance"));
    push_bool(&mut out, lookup(ui, "reduced-material"), "ui.reduced-material");
    push_number(
        &mut out,
        lookup(ui, "utility-opacity"),
        "ui.utility-opacity",
        NumberSetting::UtilityOpacity,
    );
    push_number(
        &mut out,
        lookup(ui, "window-padding"),
        "ui.window-padding",
        NumberSetting::WindowPadding,
    );
    push_family(&mut out, lookup(ui_font, "family"), "ui.font.family", FontRole::Ui);
    push_number(&mut out, lookup(ui_font, "size"), "ui.font.size", NumberSetting::UiFontSize);
    push_fallbacks(&mut out, lookup(ui_font, "fallbacks"), "ui.font.fallbacks", FontRole::Ui);
    push_number(
        &mut out,
        lookup(terminal, "padding"),
        "terminal.padding",
        NumberSetting::TerminalPadding,
    );
    push_family(
        &mut out,
        lookup(terminal_font, "family"),
        "terminal.font.family",
        FontRole::Terminal,
    );
    push_number(
        &mut out,
        lookup(terminal_font, "size"),
        "terminal.font.size",
        NumberSetting::TerminalFontSize,
    );
    push_fallbacks(
        &mut out,
        lookup(terminal_font, "fallbacks"),
        "terminal.font.fallbacks",
        FontRole::Terminal,
    );
    out
}

/// Environment variable that overrides the appearance preference.
pub const ENV_APPEARANCE: &'static str = "SEYAL_UI_APPEARANCE";
/// Environment variable that forces reduced material when it is `1`.
pub const ENV_REDUCED_MATERIAL: &'static str = "SEYAL_UI_REDUCED_MATERIAL";
/// Environment variable naming the configuration file.
pub const ENV_CONFIG: &'static str = "SEYAL_CONFIG";

/// The environment as data.
pub open spec fn env_view(env: Seq<(String, String)>) -> Seq<(Seq<char>, Seq<char>)> {
    Seq::new(env.len(), |i: int| (env[i].0@, env[i].1@))
}

/// The value of `k` in `env`: the last binding wins.
pub open spec fn env_lookup(env: Seq<(Seq<char>, Seq<char>)>, k: Seq<char>) -> Option<Seq<char>>
    decreases env.len(),
{
    if env.len() == 0 {
        None
    } else if env.last().0 == k {
        Some(env.last().1)
    } else {
        env_lookup(env.drop_last(), k)
    }
}

/// What the environment says about the UI settings: an appearance word
/// (or a warning when it is not one), then reduced material when its
/// variable is exactly `1`.
pub open spec fn spec_env_updates(env: Seq<(Seq<char>, Seq<char>)>) -> Seq<UpdateModel> {
    (match env_lookup(env, ENV_APPEARANCE@) {
        None => Seq::empty(),
        Some(v) => match spec_appearance(v) {
            Some(p) => seq![UpdateModel::Appearance(p)],
            None => seq![
                UpdateModel::Warning(ENV_APPEARANCE@ + " ignored; expected system|light|dark"@),
            ],
        },
    }) + (if env_lookup(env, ENV_REDUCED_MATERIAL@) == Some("1"@) {
        seq![UpdateModel::ReducedMaterial(true)]
    } else {
        Seq::empty()
    })
}

fn env_value<'a>(env: &'a [(String, String)], key: &str) -> (r: Option<&'a String>)
    ensures
        match r {
            Some(v) => env_lookup(env_view(env@), key@) == Some(v@),
            None => env_lookup(env_view(env@), key@) is None,
        },
{
    let ghost ev = env_view(env@);
    let mut i: usize = env.len();
    assert(ev.subrange(0, env@.len() as int) =~= ev);
    while i > 0
        invariant
            0 <= i <= env@.len(),
            ev == env_view(env@),
            env_lookup(ev, key@) == env_lookup(ev.subrange(0, i as int), key@),
        decreases i,
    {
        let ghost sub = ev.subrange(0, i as int);
        assert(sub.last() == ev[i - 1]);
        assert(sub.drop_last() =~= ev.subrange(0, i - 1));
        if str_eq(env[i - 1].0.as_str(), key) {
            return Some(&env[i - 1].1);
        }
        i -= 1;
    }
    None
}

/// Read the UI settings out of the environment (see [`spec_env_updates`]).
pub fn env_setting_updates(env: &[(String, String)]) -> (r: Vec<SettingUpdate>)
    ensures
        updates_view(r@) == spec_env_updates(env_view(env@)),
{
    let mut out: Vec<SettingUpdate> = Vec::new();
    assert(updates_view(out@) =~= Seq::<UpdateModel>::empty());
    match env_value(env, ENV_APPEARANCE) {
        None => {},
        Some(value) => match AppearancePreference::parse(value.as_str()) {
            Some(p) => push_update(&mut out, SettingUpdate::Appearance(p)),
            None => push_update(
                &mut out,
                SettingUpdate::Warning(
                    message3(ENV_APPEARANCE, "", " ignored; expected system|light|dark"),
                ),
            ),
        },
    }
    proof {
        assert(ENV_APPEARANCE@ + ""@ =~= ENV_APPEARANCE@) by {
            reveal_strlit("");
        }
    }
    let ghost first = updates_view(out@);
    let reduced = match env_value(env, ENV_REDUCED_MATERIAL) {
        Some(value) => str_eq(value.as_str(), "1"),
        None => false,
    };
    if reduced {
        push_update(&mut out, SettingUpdate::ReducedMaterial(true));
    }
    assert(updates_view(out@) =~= spec_env_updates(env_view(env@)));
    out
}

// ---------------------------------------------------------------------------
// Which key feeds which setting.
// ---------------------------------------------------------------------------

/// The value a document holds at `section.key`, or at `section.sub.key`
/// when `sub` is given.
pub open spec fn value_at(
    root: TableModel,
    section: Seq<char>,
    sub: Option<Seq<char>>,
    key: Seq<char>,
) -> Option<TomlModel> {
    match table_get(root, section) {
        Some(TomlModel::Table(s)) => match sub {
            None => table_get(s, key),
            Some(n) => match table_get(s, n) {
                Some(TomlModel::Table(f)) => table_get(f, key),
                _ => None,
            },
        },
        _ => None,
    }
}

/// The key each number setting is read from: `ui.utility-opacity`,
/// `ui.window-padding`, `ui.font.size`, `terminal.padding` and
/// `terminal.font.size`.
pub open spec fn number_source(root: TableModel, which: NumberSetting) -> Option<TomlModel> {
    match which {
        NumberSetting::UtilityOpacity => value_at(root, "ui"@, None, "utility-opacity"@),
        NumberSetting::WindowPadding => value_at(root, "ui"@, None, "window-padding"@),
        NumberSetting::UiFontSize => value_at(root, "ui"@, Some("font"@), "size"@),
        NumberSetting::TerminalPadding => value_at(root, "terminal"@, None, "padding"@),
        NumberSetting::TerminalFontSize => value_at(root, "terminal"@, Some("font"@), "size"@),
    }
}

proof fn lemma_unknown_warnings_only(prefix: Seq<char>, t: TableModel, group: KeyGroup, x: UpdateModel)
    requires
        !(x is Warning),
    ensures
        !unknown_warnings(prefix, t, group).contains(x),
    decreases t.len(),
{
    broadcast use vstd::seq_lib::group_seq_properties;

    if t.len() > 0 {
        lemma_unknown_warnings_only(prefix, t.drop_last(), group, x);
    }
}

/// The fifteen parts of the update list, in order.
spec fn update_parts(root: TableModel) -> Seq<Seq<UpdateModel>> {
    let ui = sub_table(root, "ui"@);
    let ui_font = sub_table(ui, "font"@);
    let terminal = sub_table(root, "terminal"@);
    let terminal_font = sub_table(terminal, "font"@);
    seq![
        unknown_warnings("ui"@, ui, KeyGroup::Ui),
        unknown_warnings("ui.font"@, ui_font, KeyGroup::Font),
        unknown_warnings("terminal"@, terminal, KeyGroup::Terminal),
        unknown_warnings("terminal.font"@, terminal_font, KeyGroup::Font),
        appearance_update(table_get(ui, "appearance"@)),
        bool_update(table_get(ui, "reduced-material"@), "ui.reduced-material"@),
        number_update(table_get(ui, "utility-opacity"@), "ui.utility-opacity"@, NumberSetting::UtilityOpacity),
        number_update(table_get(ui, "window-padding"@), "ui.window-padding"@, NumberSetting::WindowPadding),
        family_update(table_get(ui_font, "family"@), "ui.font.family"@, FontRole::Ui),
        number_update(table_get(ui_font, "size"@), "ui.font.size"@, NumberSetting::UiFontSize),
        fallbacks_update(table_get(ui_font, "fallbacks"@), "ui.font.fallbacks"@, FontRole::Ui),
        number_update(table_get(terminal, "padding"@), "terminal.padding"@, NumberSetting::TerminalPadding),
        family_update(table_get(terminal_font, "family"@), "terminal.font.family"@, FontRole::Terminal),
        number_update(table_get(terminal_font, "size"@), "terminal.font.size"@, NumberSetting::TerminalFontSize),
        fallbacks_update(table_get(terminal_font, "fallbacks"@), "terminal.font.fallbacks"@, FontRole::Terminal),
    ]
}

/// An update is in the list exactly when one of its parts holds it.
#[verifier::rlimit(50)]
proof fn lemma_updates_contains(root: TableModel, x: UpdateModel)
    ensures
        spec_toml_updates(root).contains(x) <==> exists|k: int|
            0 <= k < 15 && #[trigger] update_parts(root)[k].contains(x),
{
    let q = update_parts(root);
    let a1 = q[0] + q[1];
    let a2 = a1 + q[2];
    let a3 = a2 + q[3];
    let a4 = a3 + q[4];
    let a5 = a4 + q[5];
    let a6 = a5 + q[6];
    let a7 = a6 + q[7];
    let a8 = a7 + q[8];
    let a9 = a8 + q[9];
    let a10 = a9 + q[10];
    let a11 = a10 + q[11];
    let a12 = a11 + q[12];
    let a13 = a12 + q[13];
    let a14 = a13 + q[14];
    assert(spec_toml_updates(root) == a14);
    vstd::seq_lib::lemma_seq_concat_contains_all_elements(q[0], q[1], x);
    vstd::seq_lib::lemma_seq_concat_contains_all_elements(a1, q[2], x);
    vstd::seq_lib::lemma_seq_concat_contains_all_elements(a2, q[3], x);
    vstd::seq_lib::lemma_seq_concat_contains_all_elements(a3, q[4], x);
    vstd::seq_lib::lemma_seq_concat_contains_all_elements(a4, q[5], x);
    vstd::seq_lib::lemma_seq_concat_contains_all_elements(a5, q[6], x);
    vstd::seq_lib::lemma_seq_concat_contains_all_elements(a6, q[7], x);
    vstd::seq_lib::lemma_seq_concat_contains_all_elements(a7, q[8], x);
    vstd::seq_lib::lemma_seq_concat_contains_all_elements(a8, q[9], x);
    vstd::seq_lib::lemma_seq_concat_contains_all_elements(a9, q[10], x);
    vstd::seq_lib::lemma_seq_concat_contains_all_elements(a10, q[11], x);
    vstd::seq_lib::lemma_seq_concat_contains_all_elements(a11, q[12], x);
    vstd::seq_lib::lemma_seq_concat_contains_all_elements(a12, q[13], x);
    vstd::seq_lib::lemma_seq_concat_contains_all_elements(a13, q[14], x);
    if a14.contains(x) {
        if q[0].contains(x) { assert(update_parts(root)[0].contains(x)); }
        else if q[1].contains(x) { assert(update_parts(root)[1].contains(x)); }
        else if q[2].contains(x) { assert(update_parts(root)[2].contains(x)); }
        else if q[3].contains(x) { assert(update_parts(root)[3].contains(x)); }
        else if q[4].contains(x) { assert(update_parts(root)[4].contains(x)); }
        else if q[5].contains(x) { assert(update_parts(root)[5].contains(x)); }
        else if q[6].contains(x) { assert(update_parts(root)[6].contains(x)); }
        else if q[7].contains(x) { assert(update_parts(root)[7].contains(x)); }
        else if q[8].contains(x) { assert(update_parts(root)[8].contains(x)); }
        else if q[9].contains(x) { assert(update_parts(root)[9].contains(x)); }
        else if q[10].contains(x) { assert(update_parts(root)[10].contains(x)); }
        else if q[11].contains(x) { assert(update_parts(root)[11].contains(x)); }
        else if q[12].contains(x) { assert(update_parts(root)[12].contains(x)); }
        else if q[13].contains(x) { assert(update_parts(root)[13].contains(x)); }
        else { assert(update_parts(root)[14].contains(x)); }
    }
    if exists|k: int| 0 <= k < 15 && #[trigger] update_parts(root)[k].contains(x) {
        let k = choose|k: int| 0 <= k < 15 && #[trigger] update_parts(root)[k].contains(x);
        assert(0 <= k < 15);
    }
}

/// A one-update part holds exactly its one update.
proof fn lemma_single(u: UpdateModel, x: UpdateModel)
    ensures
        seq![u].contains(x) <==> x == u,
{
    if seq![u].contains(x) {
        let k = choose|k: int| 0 <= k < seq![u].len() && seq![u][k] == x;
        assert(k == 0);
    }
    if x == u {
        assert(seq![u][0] == x);
    }
}

/// A configuration file sets a number setting to exactly the numbers found
/// at that setting's own key: `ui.font.size` only ever sets the UI font size,
/// `terminal.font.size` only the terminal font size, and so on. Each update
/// `Number(which, text)` appears exactly when that key holds the number
/// `text`.
pub proof fn number_settings_come_from_their_keys(
    root: TableModel,
    which: NumberSetting,
    text: Seq<char>,
)
    ensures
        spec_toml_updates(root).contains(UpdateModel::Number(which, text)) <==> number_source(
            root,
            which,
        ) == Some(TomlModel::Num(text)),
{
    let x = UpdateModel::Number(which, text);
    lemma_updates_contains(root, x);
    lemma_parts_facts(root, x);
    let q = update_parts(root);
    assert(number_source(root, which) == Some(TomlModel::Num(text)) <==> exists|k: int|
        0 <= k < 15 && #[trigger] q[k].contains(x)) by {
        if number_source(root, which) == Some(TomlModel::Num(text)) {
            match which {
                NumberSetting::UtilityOpacity => assert(q[6].contains(x)),
                NumberSetting::WindowPadding => assert(q[7].contains(x)),
                NumberSetting::UiFontSize => assert(q[9].contains(x)),
                NumberSetting::TerminalPadding => assert(q[11].contains(x)),
                NumberSetting::TerminalFontSize => assert(q[13].contains(x)),
            }
        }
    }
}

/// The font of a role's section: `ui` or `terminal`.
pub open spec fn role_section(role: FontRole) -> Seq<char> {
    match role {
        FontRole::Ui => "ui"@,
        FontRole::Terminal => "terminal"@,
    }
}

/// Font family and fallback settings come from their own role's `font`
/// table: `Family(role, name)` appears exactly when `<role>.font.family` is
/// the string `name`, and the fallbacks of a role are only ever read from
/// `<role>.font.fallbacks`. Reduced material is set exactly from a boolean
/// `ui.reduced-material`, and an appearance only from `ui.appearance`.
pub proof fn font_and_ui_settings_come_from_their_keys(
    root: TableModel,
    role: FontRole,
    name: Seq<char>,
    families: Seq<Seq<char>>,
    on: bool,
    preference: AppearancePreference,
)
    ensures
        spec_toml_updates(root).contains(UpdateModel::Family(role, name)) <==> value_at(
            root,
            role_section(role),
            Some("font"@),
            "family"@,
        ) == Some(TomlModel::Str(name)),
        spec_toml_updates(root).contains(UpdateModel::Fallbacks(role, families)) ==> value_at(
            root,
            role_section(role),
            Some("font"@),
            "fallbacks"@,
        ) is Some,
        spec_toml_updates(root).contains(UpdateModel::ReducedMaterial(on)) <==> value_at(
            root,
            "ui"@,
            None,
            "reduced-material"@,
        ) == Some(TomlModel::Bool(on)),
        spec_toml_updates(root).contains(UpdateModel::Appearance(preference)) ==> value_at(
            root,
            "ui"@,
            None,
            "appearance"@,
        ) is Some,
{
    let q = update_parts(root);
    let f = UpdateModel::Family(role, name);
    lemma_updates_contains(root, f);
    lemma_parts_facts(root, f);
    if value_at(root, role_section(role), Some("font"@), "family"@) == Some(TomlModel::Str(name)) {
        match role {
            FontRole::Ui => assert(q[8].contains(f)),
            FontRole::Terminal => assert(q[12].contains(f)),
        }
    }
    let g = UpdateModel::Fallbacks(role, families);
    lemma_updates_contains(root, g);
    lemma_parts_facts(root, g);
    let m = UpdateModel::ReducedMaterial(on);
    lemma_updates_contains(root, m);
    lemma_parts_facts(root, m);
    if value_at(root, "ui"@, None, "reduced-material"@) == Some(TomlModel::Bool(on)) {
        assert(q[5].contains(m));
    }
    let a = UpdateModel::Appearance(preference);
    lemma_updates_contains(root, a);
    lemma_parts_facts(root, a);
}

/// What each part of the update list can hold.
proof fn lemma_parts_facts(root: TableModel, x: UpdateModel)
    ensures
        !(x is Warning) ==> forall|k: int| 0 <= k < 4 ==> !#[trigger] update_parts(root)[k].contains(x),
        update_parts(root)[4].contains(x) ==> x is Warning || (x is Appearance && value_at(
            root,
            "ui"@,
            None,
            "appearance"@,
        ) is Some),
        !(x is Warning) ==> (update_parts(root)[5].contains(x) <==> (x is ReducedMaterial && value_at(
            root,
            "ui"@,
            None,
            "reduced-material"@,
        ) == Some(TomlModel::Bool(x->ReducedMaterial_0)))),
        !(x is Warning) ==> (update_parts(root)[6].contains(x) <==> x == UpdateModel::Number(
            NumberSetting::UtilityOpacity,
            x->Number_1,
        ) && value_at(root, "ui"@, None, "utility-opacity"@) == Some(TomlModel::Num(x->Number_1))),
        !(x is Warning) ==> (update_parts(root)[7].contains(x) <==> x == UpdateModel::Number(
            NumberSetting::WindowPadding,
            x->Number_1,
        ) && value_at(root, "ui"@, None, "window-padding"@) == Some(TomlModel::Num(x->Number_1))),
        !(x is Warning) ==> (update_parts(root)[9].contains(x) <==> x == UpdateModel::Number(
            NumberSetting::UiFontSize,
            x->Number_1,
        ) && value_at(root, "ui"@, Some("font"@), "size"@) == Some(TomlModel::Num(x->Number_1))),
        !(x is Warning) ==> (update_parts(root)[11].contains(x) <==> x == UpdateModel::Number(
            NumberSetting::TerminalPadding,
            x->Number_1,
        ) && value_at(root, "terminal"@, None, "padding"@) == Some(TomlModel::Num(x->Number_1))),
        !(x is Warning) ==> (update_parts(root)[13].contains(x) <==> x == UpdateModel::Number(
            NumberSetting::TerminalFontSize,
            x->Number_1,
        ) && value_at(root, "terminal"@, Some("font"@), "size"@) == Some(
            TomlModel::Num(x->Number_1),
        )),
        !(x is Warning) ==> (update_parts(root)[8].contains(x) <==> x == UpdateModel::Family(
            FontRole::Ui,
            x->Family_1,
        ) && value_at(root, "ui"@, Some("font"@), "family"@) == Some(TomlModel::Str(x->Family_1))),
        !(x is Warning) ==> (update_parts(root)[12].contains(x) <==> x == UpdateModel::Family(
            FontRole::Terminal,
            x->Family_1,
        ) && value_at(root, "terminal"@, Some("font"@), "family"@) == Some(
            TomlModel::Str(x->Family_1),
        )),
        update_parts(root)[10].contains(x) ==> x is Warning || (x is Fallbacks && x->Fallbacks_0
            == FontRole::Ui && value_at(root, "ui"@, Some("font"@), "fallbacks"@) is Some),
        update_parts(root)[14].contains(x) ==> x is Warning || (x is Fallbacks && x->Fallbacks_0
            == FontRole::Terminal && value_at(root, "terminal"@, Some("font"@), "fallbacks"@) is Some),
{
    let ui = sub_table(root, "ui"@);
    let ui_font = sub_table(ui, "font"@);
    let terminal = sub_table(root, "terminal"@);
    let terminal_font = sub_table(terminal, "font"@);
    let q = update_parts(root);
    if !(x is Warning) {
        lemma_unknown_warnings_only("ui"@, ui, KeyGroup::Ui, x);
        lemma_unknown_warnings_only("ui.font"@, ui_font, KeyGroup::Font, x);
        lemma_unknown_warnings_only("terminal"@, terminal, KeyGroup::Terminal, x);
        lemma_unknown_warnings_only("terminal.font"@, terminal_font, KeyGroup::Font, x);
    }
    let empty = Seq::<(Seq<char>, TomlModel)>::empty();
    assert(table_get(empty, "size"@) is None);
    assert(table_get(empty, "font"@) is None);
    assert(table_get(empty, "padding"@) is None);
    assert(table_get(empty, "family"@) is None);
    assert(table_get(empty, "fallbacks"@) is None);
    assert(table_get(empty, "appearance"@) is None);
    assert(table_get(empty, "reduced-material"@) is None);
    assert(table_get(empty, "utility-opacity"@) is None);
    assert(table_get(empty, "window-padding"@) is None);
    lemma_part_shapes(q[4], x);
    lemma_part_shapes(q[5], x);
    lemma_part_shapes(q[6], x);
    lemma_part_shapes(q[7], x);
    lemma_part_shapes(q[8], x);
    lemma_part_shapes(q[9], x);
    lemma_part_shapes(q[10], x);
    lemma_part_shapes(q[11], x);
    lemma_part_shapes(q[12], x);
    lemma_part_shapes(q[13], x);
    lemma_part_shapes(q[14], x);
}

/// A part of at most one update holds `x` exactly when it is that update.
proof fn lemma_part_shapes(p: Seq<UpdateModel>, x: UpdateModel)
    ensures
        p.len() == 0 ==> !p.contains(x),
        p.len() == 1 ==> (p.contains(x) <==> p[0] == x),
{
    if p.len() == 1 {
        assert(p =~= seq![p[0]]);
        lemma_single(p[0], x);
    }
}

} // verus!
