//! Persisted desktop settings: registered kubeconfigs, the active one, the
//! theme, and the legacy fields older settings files used.
use vstd::prelude::*;

use crate::kinds::opt_view;
use crate::text::{clone_opt, hex2, owned, push_char, push_hex2, str_eq, trim, trim_spec};

verus! {

broadcast use vstd::string::group_string_axioms;

/// Theme modes of the settings page.
#[derive(Clone, Copy, Debug, PartialEq, Eq, Structural)]
pub enum ThemeMode {
    Dark,
    Light,
    Custom,
}

impl Default for ThemeMode {
    fn default() -> (r: Self)
        ensures
            r == ThemeMode::Dark,
    {
        ThemeMode::Dark
    }
}

/// Named color scheme presets.
#[derive(Clone, Copy, Debug, PartialEq, Eq, Structural)]
pub enum ColorScheme {
    Default,
    K3sPurple,
    KubernetesBlue,
    Emerald,
    Amber,
    Cyan,
    Rose,
    Slate,
}

impl Default for ColorScheme {
    fn default() -> (r: Self)
        ensures
            r == ColorScheme::Default,
    {
        ColorScheme::Default
    }
}

/// The accent color of a preset, as an `[r, g, b]` sequence.
pub open spec fn accent_spec(c: ColorScheme) -> Seq<u8> {
    match c {
        ColorScheme::Default => seq![50u8, 108u8, 229u8],
        ColorScheme::K3sPurple => seq![139u8, 92u8, 246u8],
        ColorScheme::KubernetesBlue => seq![50u8, 102u8, 229u8],
        ColorScheme::Emerald => seq![16u8, 185u8, 129u8],
        ColorScheme::Amber => seq![245u8, 158u8, 11u8],
        ColorScheme::Cyan => seq![6u8, 182u8, 212u8],
        ColorScheme::Rose => seq![244u8, 63u8, 94u8],
        ColorScheme::Slate => seq![100u8, 116u8, 139u8],
    }
}

/// The CSS hex form `#rrggbb` of a color.
pub open spec fn hex_color(rgb: Seq<u8>) -> Seq<char> {
    seq!['#'] + hex2(rgb[0]) + hex2(rgb[1]) + hex2(rgb[2])
}

/// All presets in display order.
pub open spec fn all_schemes() -> Seq<ColorScheme> {
    seq![
        ColorScheme::Default,
        ColorScheme::K3sPurple,
        ColorScheme::KubernetesBlue,
        ColorScheme::Emerald,
        ColorScheme::Amber,
        ColorScheme::Cyan,
        ColorScheme::Rose,
        ColorScheme::Slate,
    ]
}

/// `#rrggbb` for an `[r, g, b]` triple.
pub fn rgb_hex(rgb: [u8; 3]) -> (r: String)
    ensures
        r@ == hex_color(rgb@),
{
    let mut s = String::new();
    push_char(&mut s, '#');
    push_hex2(&mut s, rgb[0]);
    push_hex2(&mut s, rgb[1]);
    push_hex2(&mut s, rgb[2]);
    assert(s@ =~= hex_color(rgb@));
    s
}

impl ColorScheme {
    /// A human-friendly name for the preset.
    pub fn label(&self) -> (r: &'static str)
        ensures
            r@ == label_spec(*self),
    {
        match self {
            ColorScheme::Default => "Default",
            ColorScheme::K3sPurple => "K3S Purple",
            ColorScheme::KubernetesBlue => "Kubernetes Blue",
            ColorScheme::Emerald => "Emerald",
            ColorScheme::Amber => "Amber",
            ColorScheme::Cyan => "Cyan",
            ColorScheme::Rose => "Rose",
            ColorScheme::Slate => "Slate",
        }
    }

    /// The preset's variant name, the key the settings file stores.
    pub fn key(&self) -> (r: &'static str)
        ensures
            r@ == key_spec(*self),
    {
        match self {
            ColorScheme::Default => "Default",
            ColorScheme::K3sPurple => "K3sPurple",
            ColorScheme::KubernetesBlue => "KubernetesBlue",
            ColorScheme::Emerald => "Emerald",
            ColorScheme::Amber => "Amber",
            ColorScheme::Cyan => "Cyan",
            ColorScheme::Rose => "Rose",
            ColorScheme::Slate => "Slate",
        }
    }

    /// The accent color as an `[r, g, b]` triple.
    pub fn accent(&self) -> (r: [u8; 3])
        ensures
            r@ == accent_spec(*self),
    {
        let r = match self {
            ColorScheme::Default => [50, 108, 229],
            ColorScheme::K3sPurple => [139, 92, 246],
            ColorScheme::KubernetesBlue => [50, 102, 229],
            ColorScheme::Emerald => [16, 185, 129],
            ColorScheme::Amber => [245, 158, 11],
            ColorScheme::Cyan => [6, 182, 212],
            ColorScheme::Rose => [244, 63, 94],
            ColorScheme::Slate => [100, 116, 139],
        };
        assert(r@ =~= accent_spec(*self));
        r
    }

    /// The accent color as a CSS hex string (e.g. `#326ce5`).
    pub fn accent_hex(&self) -> (r: String)
        ensures
            r@ == hex_color(accent_spec(*self)),
    {
        rgb_hex(self.accent())
    }

    /// All presets in display order.
    pub fn all() -> (r: Vec<ColorScheme>)
        ensures
            r@ == all_schemes(),
    {
        let r = vec![
            ColorScheme::Default,
            ColorScheme::K3sPurple,
            ColorScheme::KubernetesBlue,
            ColorScheme::Emerald,
            ColorScheme::Amber,
            ColorScheme::Cyan,
            ColorScheme::Rose,
            ColorScheme::Slate,
        ];
        assert(r@ =~= all_schemes());
        r
    }
}

/// The label of a preset.
pub open spec fn label_spec(c: ColorScheme) -> Seq<char> {
    match c {
        ColorScheme::Default => "Default"@,
        ColorScheme::K3sPurple => "K3S Purple"@,
        ColorScheme::KubernetesBlue => "Kubernetes Blue"@,
        ColorScheme::Emerald => "Emerald"@,
        ColorScheme::Amber => "Amber"@,
        ColorScheme::Cyan => "Cyan"@,
        ColorScheme::Rose => "Rose"@,
        ColorScheme::Slate => "Slate"@,
    }
}

/// The key of a preset.
pub open spec fn key_spec(c: ColorScheme) -> Seq<char> {
    match c {
        ColorScheme::Default => "Default"@,
        ColorScheme::K3sPurple => "K3sPurple"@,
        ColorScheme::KubernetesBlue => "KubernetesBlue"@,
        ColorScheme::Emerald => "Emerald"@,
        ColorScheme::Amber => "Amber"@,
        ColorScheme::Cyan => "Cyan"@,
        ColorScheme::Rose => "Rose"@,
        ColorScheme::Slate => "Slate"@,
    }
}

/// Every preset appears exactly once in the display list.
pub proof fn law_all_schemes_listed_once(c: ColorScheme)
    ensures
        exists|i: int| 0 <= i < all_schemes().len() && all_schemes()[i] == c,
        forall|i: int, j: int|
            0 <= i < j < all_schemes().len() ==> all_schemes()[i] != all_schemes()[j],
{
    match c {
        ColorScheme::Default => assert(all_schemes()[0] == c),
        ColorScheme::K3sPurple => assert(all_schemes()[1] == c),
        ColorScheme::KubernetesBlue => assert(all_schemes()[2] == c),
        ColorScheme::Emerald => assert(all_schemes()[3] == c),
        ColorScheme::Amber => assert(all_schemes()[4] == c),
        ColorScheme::Cyan => assert(all_schemes()[5] == c),
        ColorScheme::Rose => assert(all_schemes()[6] == c),
        ColorScheme::Slate => assert(all_schemes()[7] == c),
    }
}

/// One color scheme preset as the settings swatches show it.
#[derive(Debug, Clone)]
pub struct ColorSchemeInfo {
    pub key: String,
    pub label: String,
    pub hex: String,
}

/// All presets (key, label, hex) for the settings swatches, in display order.
pub fn color_schemes() -> (r: Vec<ColorSchemeInfo>)
    ensures
        r@.len() == all_schemes().len(),
        forall|i: int|
            0 <= i < r@.len() ==> (#[trigger] r@[i]).key@ == key_spec(all_schemes()[i])
                && r@[i].label@ == label_spec(all_schemes()[i]) && r@[i].hex@ == hex_color(
                accent_spec(all_schemes()[i]),
            ),
{
    let all = ColorScheme::all();
    let mut r: Vec<ColorSchemeInfo> = Vec::new();
    let mut i: usize = 0;
    while i < all.len()
        invariant
            all@ == all_schemes(),
            i <= all.len(),
            r@.len() == i,
            forall|j: int|
                0 <= j < i ==> (#[trigger] r@[j]).key@ == key_spec(all_schemes()[j])
                    && r@[j].label@ == label_spec(all_schemes()[j]) && r@[j].hex@ == hex_color(
                    accent_spec(all_schemes()[j]),
                ),
        decreases all.len() - i,
    {
        let s = all[i];
        r.push(ColorSchemeInfo { key: owned(s.key()), label: owned(s.label()), hex: s.accent_hex() });
        i += 1;
    }
    r
}

/// One registered kubeconfig with user-friendly metadata.
#[derive(Debug)]
pub struct KubeconfigEntry {
    /// Stable identifier for this entry (the path).
    pub id: String,
    /// Path to the kubeconfig file.
    pub path: String,
    /// Friendly name shown in the UI.
    pub name: String,
    /// Optional longer description.
    pub description: Option<String>,
    /// Last context used in this kubeconfig.
    pub last_context: Option<String>,
}

impl Clone for KubeconfigEntry {
    fn clone(&self) -> (r: Self)
        ensures
            r == *self,
    {
        KubeconfigEntry {
            id: self.id.clone(),
            path: self.path.clone(),
            name: self.name.clone(),
            description: clone_opt(&self.description),
            last_context: clone_opt(&self.last_context),
        }
    }
}

/// The final component of a path (`Path::file_name`), lossily decoded: none
/// for a path that ends in `..` or is a root. Which characters separate
/// components is fixed by the build target.
pub uninterp spec fn file_name_of(path: Seq<char>) -> Option<Seq<char>>;

/// `Path::new(path).file_name()` decoded with `to_string_lossy`. Claims that
/// the result is the final path component, a function of the path alone (for
/// the build target's path syntax); what that component is, is left unsaid.
#[verifier::external_body]
fn path_file_name(path: &str) -> (r: Option<String>)
    ensures
        opt_view(r) == file_name_of(path@),
{
    std::path::Path::new(path).file_name().map(|f| f.to_string_lossy().to_string())
}

/// The friendly name a new entry for `path` gets.
pub open spec fn default_name(path: Seq<char>) -> Seq<char> {
    match file_name_of(path) {
        Some(f) => f,
        None => "Unnamed"@,
    }
}

/// A fresh entry for `path`.
pub open spec fn new_entry_ok(e: KubeconfigEntry, path: Seq<char>) -> bool {
    &&& e.id@ == path
    &&& e.path@ == path
    &&& e.name@ == default_name(path)
    &&& e.description is None
    &&& e.last_context is None
}

impl KubeconfigEntry {
    /// A new entry for `path`: its id is the path, its name the file name
    /// ("Unnamed" when the path has none).
    pub fn new(path: String) -> (r: Self)
        ensures
            new_entry_ok(r, path@),
    {
        let name = match path_file_name(path.as_str()) {
            Some(f) => f,
            None => owned("Unnamed"),
        };
        KubeconfigEntry { id: path.clone(), path, name, description: None, last_context: None }
    }
}

/// Application settings persisted to `settings.json`. The font scale is kept
/// as the bit pattern of its `f32` value.
#[derive(Debug)]
pub struct AppState {
    pub kubeconfigs: Vec<KubeconfigEntry>,
    pub active_kubeconfig_id: Option<String>,
    pub registered_kubeconfigs: Vec<String>,
    pub active_kubeconfig_path: Option<String>,
    pub kubeconfig_path: Option<String>,
    pub default_namespace: String,
    pub theme_mode: ThemeMode,
    pub font_scale_bits: u32,
    pub log_level: String,
    pub custom_accent: Option<[u8; 3]>,
    pub color_scheme: ColorScheme,
    pub last_kubeconfig_path: Option<String>,
    pub last_context: Option<String>,
    pub show_right_panel: bool,
    pub auto_refresh_secs: u64,
}

/// The default namespace setting: all namespaces.
pub fn default_namespace() -> (r: String)
    ensures
        r@ == "All"@,
{
    owned("All")
}

/// The bit pattern of the default font scale, `1.0f32`.
pub fn default_font_scale_bits() -> (r: u32)
    ensures
        r == 0x3f80_0000,
{
    0x3f80_0000
}

/// The default log level.
pub fn default_log_level() -> (r: String)
    ensures
        r@ == "info"@,
{
    owned("info")
}

/// The default auto-refresh interval, in seconds.
pub fn default_auto_refresh() -> (r: u64)
    ensures
        r == 5,
{
    5
}

impl Default for AppState {
    fn default() -> (r: Self)
        ensures
            r.kubeconfigs@.len() == 0,
            r.active_kubeconfig_id is None,
            r.registered_kubeconfigs@.len() == 0,
            r.active_kubeconfig_path is None,
            r.kubeconfig_path is None,
            r.default_namespace@ == "All"@,
            r.theme_mode == ThemeMode::Dark,
            r.font_scale_bits == 0x3f80_0000,
            r.log_level@ == "info"@,
            r.custom_accent is None,
            r.color_scheme == ColorScheme::Default,
            r.last_kubeconfig_path is None,
            r.last_context is None,
            r.show_right_panel,
            r.auto_refresh_secs == 5,
    {
        AppState {
            kubeconfigs: Vec::new(),
            active_kubeconfig_id: None,
            registered_kubeconfigs: Vec::new(),
            active_kubeconfig_path: None,
            kubeconfig_path: None,
            default_namespace: owned("All"),
            theme_mode: ThemeMode::Dark,
            font_scale_bits: 0x3f80_0000,
            log_level: owned("info"),
            custom_accent: None,
            color_scheme: ColorScheme::Default,
            last_kubeconfig_path: None,
            last_context: None,
            show_right_panel: true,
            auto_refresh_secs: 5,
        }
    }
}

/// The index of the first entry whose id is `id`.
pub open spec fn first_with_id(es: Seq<KubeconfigEntry>, id: Seq<char>) -> Option<int> {
    if exists|i: int| 0 <= i < es.len() && es[i].id@ == id {
        Some(choose|i: int| 0 <= i < es.len() && es[i].id@ == id && forall|j: int| 0 <= j < i ==> es[j].id@ != id)
    } else {
        None
    }
}

/// `i` is the first entry whose id is `id`.
pub open spec fn is_first_id(es: Seq<KubeconfigEntry>, id: Seq<char>, i: int) -> bool {
    0 <= i < es.len() && es[i].id@ == id && forall|j: int| 0 <= j < i ==> es[j].id@ != id
}

/// `i` is the first entry whose path is `path`.
pub open spec fn is_first_path(es: Seq<KubeconfigEntry>, path: Seq<char>, i: int) -> bool {
    0 <= i < es.len() && es[i].path@ == path && forall|j: int| 0 <= j < i ==> es[j].path@ != path
}

/// No entry has path `path`.
pub open spec fn no_path(es: Seq<KubeconfigEntry>, path: Seq<char>) -> bool {
    forall|j: int| 0 <= j < es.len() ==> es[j].path@ != path
}

/// No entry has id `id`.
pub open spec fn no_id(es: Seq<KubeconfigEntry>, id: Seq<char>) -> bool {
    forall|j: int| 0 <= j < es.len() ==> es[j].id@ != id
}

/// The entries whose id is not `id`, in order.
pub open spec fn without_id(es: Seq<KubeconfigEntry>, id: Seq<char>) -> Seq<KubeconfigEntry>
    decreases es.len(),
{
    if es.len() == 0 {
        Seq::empty()
    } else if es.last().id@ != id {
        without_id(es.drop_last(), id).push(es.last())
    } else {
        without_id(es.drop_last(), id)
    }
}

/// The legacy paths an old settings file is migrated from.
pub open spec fn legacy_paths(s: AppState) -> Seq<Seq<char>> {
    if s.registered_kubeconfigs@.len() > 0 {
        s.registered_kubeconfigs@.map_values(|p: String| p@)
    } else if s.active_kubeconfig_path is Some {
        seq![s.active_kubeconfig_path->0@]
    } else if s.kubeconfig_path is Some {
        seq![s.kubeconfig_path->0@]
    } else if s.last_kubeconfig_path is Some {
        seq![s.last_kubeconfig_path->0@]
    } else {
        Seq::empty()
    }
}

/// `s` and `t` agree on every field but the entries and the active id.
pub open spec fn same_but_registry(s: AppState, t: AppState) -> bool {
    &&& s.registered_kubeconfigs == t.registered_kubeconfigs
    &&& s.active_kubeconfig_path == t.active_kubeconfig_path
    &&& s.kubeconfig_path == t.kubeconfig_path
    &&& s.default_namespace == t.default_namespace
    &&& s.theme_mode == t.theme_mode
    &&& s.font_scale_bits == t.font_scale_bits
    &&& s.log_level == t.log_level
    &&& s.custom_accent == t.custom_accent
    &&& s.color_scheme == t.color_scheme
    &&& s.last_kubeconfig_path == t.last_kubeconfig_path
    &&& s.last_context == t.last_context
    &&& s.show_right_panel == t.show_right_panel
    &&& s.auto_refresh_secs == t.auto_refresh_secs
}

/// The resolved accent: the custom accent if set, else the preset's.
pub open spec fn resolved_accent_spec(s: AppState) -> Seq<u8> {
    match s.custom_accent {
        Some(a) => a@,
        None => accent_spec(s.color_scheme),
    }
}

/// The path of the active entry, if the active id names one.
pub open spec fn active_path_spec(s: AppState) -> Option<Seq<char>> {
    match s.active_kubeconfig_id {
        Some(id) => match first_with_id(s.kubeconfigs@, id@) {
            Some(i) => Some(s.kubeconfigs@[i].path@),
            None => None,
        },
        None => None,
    }
}

/// The kubeconfig path to prefer: the active entry's, then the legacy
/// configured path, then the last loaded path.
pub open spec fn effective_path_spec(s: AppState) -> Option<Seq<char>> {
    match active_path_spec(s) {
        Some(p) => Some(p),
        None => match s.kubeconfig_path {
            Some(p) => Some(p@),
            None => opt_view(s.last_kubeconfig_path),
        },
    }
}

proof fn lemma_first_with_id(es: Seq<KubeconfigEntry>, id: Seq<char>, i: int)
    requires
        is_first_id(es, id, i),
    ensures
        first_with_id(es, id) == Some(i),
{
    let k = choose|k: int| 0 <= k < es.len() && es[k].id@ == id && forall|j: int| 0 <= j < k ==> es[j].id@ != id;
    assert(is_first_id(es, id, k));
    if k < i {
        assert(es[k].id@ != id);
    }
    if i < k {
        assert(es[i].id@ != id);
    }
}

impl AppState {
    /// The first entry whose id is `id`, by position.
    pub(crate) fn index_of_id(&self, id: &str) -> (r: Option<usize>)
        ensures
            match r {
                Some(i) => is_first_id(self.kubeconfigs@, id@, i as int),
                None => no_id(self.kubeconfigs@, id@),
            },
            match r {
                Some(i) => first_with_id(self.kubeconfigs@, id@) == Some(i as int),
                None => first_with_id(self.kubeconfigs@, id@) is None,
            },
    {
        let mut i: usize = 0;
        while i < self.kubeconfigs.len()
            invariant
                i <= self.kubeconfigs.len(),
                forall|j: int| 0 <= j < i ==> self.kubeconfigs@[j].id@ != id@,
            decreases self.kubeconfigs.len() - i,
        {
            if str_eq(self.kubeconfigs[i].id.as_str(), id) {
                proof {
                    lemma_first_with_id(self.kubeconfigs@, id@, i as int);
                }
                return Some(i);
            }
            i += 1;
        }
        None
    }

    /// The first entry whose path is `path`, by position.
    pub(crate) fn index_of_path(&self, path: &str) -> (r: Option<usize>)
        ensures
            match r {
                Some(i) => is_first_path(self.kubeconfigs@, path@, i as int),
                None => no_path(self.kubeconfigs@, path@),
            },
    {
        let mut i: usize = 0;
        while i < self.kubeconfigs.len()
            invariant
                i <= self.kubeconfigs.len(),
                forall|j: int| 0 <= j < i ==> self.kubeconfigs@[j].path@ != path@,
            decreases self.kubeconfigs.len() - i,
        {
            if str_eq(self.kubeconfigs[i].path.as_str(), path) {
                return Some(i);
            }
            i += 1;
        }
        None
    }

    /// The accent color for the theme: the explicit custom accent if set,
    /// otherwise the selected preset's.
    pub fn resolved_accent(&self) -> (r: [u8; 3])
        ensures
            r@ == resolved_accent_spec(*self),
    {
        match self.custom_accent {
            Some(a) => a,
            None => self.color_scheme.accent(),
        }
    }

    /// The resolved accent as a CSS hex string.
    pub fn resolved_accent_hex(&self) -> (r: String)
        ensures
            r@ == hex_color(resolved_accent_spec(*self)),
    {
        rgb_hex(self.resolved_accent())
    }

    /// The active entry: the first entry whose id is the active id.
    pub fn active_kubeconfig(&self) -> (r: Option<&KubeconfigEntry>)
        ensures
            match self.active_kubeconfig_id {
                None => r is None,
                Some(id) => match first_with_id(self.kubeconfigs@, id@) {
                    Some(i) => r == Some(&self.kubeconfigs@[i]),
                    None => r is None,
                },
            },
    {
        match &self.active_kubeconfig_id {
            None => None,
            Some(id) => match self.index_of_id(id.as_str()) {
                Some(i) => Some(&self.kubeconfigs[i]),
                None => None,
            },
        }
    }

    /// The path of the active entry.
    pub fn active_kubeconfig_path(&self) -> (r: Option<&str>)
        ensures
            match r {
                Some(p) => active_path_spec(*self) == Some(p@),
                None => active_path_spec(*self) is None,
            },
    {
        match self.active_kubeconfig() {
            Some(e) => Some(e.path.as_str()),
            None => None,
        }
    }

    /// The kubeconfig path to prefer: the active entry's, then the legacy
    /// configured path, then the last loaded one.
    pub fn effective_kubeconfig_path(&self) -> (r: Option<&str>)
        ensures
            match r {
                Some(p) => effective_path_spec(*self) == Some(p@),
                None => effective_path_spec(*self) is None,
            },
    {
        match self.active_kubeconfig_path() {
            Some(p) => Some(p),
            None => match &self.kubeconfig_path {
                Some(p) => Some(p.as_str()),
                None => match &self.last_kubeconfig_path {
                    Some(p) => Some(p.as_str()),
                    None => None,
                },
            },
        }
    }

    /// Register a kubeconfig by path (trimmed) and return its id. A path
    /// that is already registered keeps its entry.
    pub fn register_kubeconfig(&mut self, path: String) -> (r: String)
        ensures
            registered(*old(self), *final(self), path@, r@),
    {
        let path = trim(path.as_str());
        match self.index_of_path(path.as_str()) {
            Some(i) => {
                let id = self.kubeconfigs[i].id.clone();
                assert(is_first_path(self.kubeconfigs@, path@, i as int));
                id
            },
            None => {
                let entry = KubeconfigEntry::new(path);
                let id = entry.id.clone();
                self.kubeconfigs.push(entry);
                assert(self.kubeconfigs@.drop_last() =~= old(self).kubeconfigs@);
                id
            },
        }
    }

    /// Remove every entry with id `id`; the active id is cleared if it was
    /// `id`.
    pub fn unregister_kubeconfig_by_id(&mut self, id: &str)
        ensures
            same_but_registry(*old(self), *final(self)),
            final(self).kubeconfigs@ == without_id(old(self).kubeconfigs@, id@),
            opt_view(old(self).active_kubeconfig_id) == Some(id@) ==> final(self).active_kubeconfig_id is None,
            opt_view(old(self).active_kubeconfig_id) != Some(id@) ==> final(self).active_kubeconfig_id == old(self).active_kubeconfig_id,
    {
        let mut kept: Vec<KubeconfigEntry> = Vec::new();
        let mut i: usize = 0;
        while i < self.kubeconfigs.len()
            invariant
                i <= self.kubeconfigs.len(),
                kept@ == without_id(self.kubeconfigs@.subrange(0, i as int), id@),
            decreases self.kubeconfigs.len() - i,
        {
            let ghost pre = self.kubeconfigs@.subrange(0, i as int);
            let ghost cur = self.kubeconfigs@.subrange(0, i + 1);
            assert(cur.drop_last() =~= pre);
            if !str_eq(self.kubeconfigs[i].id.as_str(), id) {
                kept.push(self.kubeconfigs[i].clone());
            }
            i += 1;
        }
        assert(self.kubeconfigs@.subrange(0, self.kubeconfigs.len() as int) =~= self.kubeconfigs@);
        self.kubeconfigs = kept;
        let clear = match &self.active_kubeconfig_id {
            Some(a) => str_eq(a.as_str(), id),
            None => false,
        };
        if clear {
            self.active_kubeconfig_id = None;
        }
    }

    /// Make the entry with id `id` active, if there is one.
    pub fn set_active_kubeconfig(&mut self, id: &str)
        ensures
            activated(*old(self), *final(self), id@),
    {
        if self.index_of_id(id).is_some() {
            self.active_kubeconfig_id = Some(owned(id));
        }
    }

    /// Migrate the legacy path fields into entries. Nothing changes when
    /// entries exist already. Otherwise one entry per legacy path is added,
    /// and the legacy active path, if registered, becomes the active entry.
    pub fn migrate_from_legacy(&mut self)
        ensures
            migrated(*old(self), *final(self)),
    {
        if self.kubeconfigs.len() > 0 {
            return;
        }
        let ghost paths = legacy_paths(*old(self));
        let old_paths: Vec<String> = if self.registered_kubeconfigs.len() > 0 {
            let v = self.registered_kubeconfigs.clone();
            assert(v@ =~= self.registered_kubeconfigs@);
            v
        } else if let Some(p) = &self.active_kubeconfig_path {
            vec![p.clone()]
        } else if let Some(p) = &self.kubeconfig_path {
            vec![p.clone()]
        } else if let Some(p) = &self.last_kubeconfig_path {
            vec![p.clone()]
        } else {
            Vec::new()
        };
        assert(old_paths@.map_values(|p: String| p@) =~= paths);
        let mut i: usize = 0;
        while i < old_paths.len()
            invariant
                i <= old_paths.len(),
                old_paths@.map_values(|p: String| p@) == paths,
                self.kubeconfigs@.len() == i,
                forall|j: int|
                    0 <= j < i ==> new_entry_ok(#[trigger] self.kubeconfigs@[j], paths[j]),
                same_but_registry(*old(self), *self),
                self.active_kubeconfig_id == old(self).active_kubeconfig_id,
            decreases old_paths.len() - i,
        {
            let entry = KubeconfigEntry::new(old_paths[i].clone());
            self.kubeconfigs.push(entry);
            i += 1;
        }
        if self.active_kubeconfig_id.is_none() {
            let found = match &self.active_kubeconfig_path {
                Some(p) => self.index_of_path(p.as_str()),
                None => None,
            };
            match found {
                Some(k) => {
                    self.active_kubeconfig_id = Some(self.kubeconfigs[k].id.clone());
                },
                None => {},
            }
        }
    }
}

/// `new` is `old` after registering `path` with the id `id` as the answer:
/// the path is trimmed; a path already registered keeps its entry (and its
/// id is answered), a new one is appended as a fresh entry.
pub open spec fn registered(old: AppState, new: AppState, path: Seq<char>, id: Seq<char>) -> bool {
    &&& same_but_registry(old, new)
    &&& new.active_kubeconfig_id == old.active_kubeconfig_id
    &&& ({
        let p = trim_spec(path);
        if no_path(old.kubeconfigs@, p) {
            &&& new.kubeconfigs@.len() == old.kubeconfigs@.len() + 1
            &&& new.kubeconfigs@.drop_last() == old.kubeconfigs@
            &&& new_entry_ok(new.kubeconfigs@.last(), p)
            &&& id == p
        } else {
            &&& new.kubeconfigs == old.kubeconfigs
            &&& exists|i: int| is_first_path(old.kubeconfigs@, p, i) && id == old.kubeconfigs@[i].id@
        }
    })
}

/// `new` is `old` after asking to make the entry `id` active: a registered
/// id becomes the active one, an unknown id changes nothing.
pub open spec fn activated(old: AppState, new: AppState, id: Seq<char>) -> bool {
    &&& same_but_registry(old, new)
    &&& new.kubeconfigs == old.kubeconfigs
    &&& !no_id(old.kubeconfigs@, id) ==> opt_view(new.active_kubeconfig_id) == Some(id)
    &&& no_id(old.kubeconfigs@, id) ==> new.active_kubeconfig_id == old.active_kubeconfig_id
}

proof fn lemma_first_path_unique(es: Seq<KubeconfigEntry>, p: Seq<char>, i: int, j: int)
    requires
        is_first_path(es, p, i),
        is_first_path(es, p, j),
    ensures
        i == j,
{
    if i < j {
        assert(es[i].path@ != p);
    }
    if j < i {
        assert(es[j].path@ != p);
    }
}

/// Registering the same path twice: the second registration changes
/// nothing and answers the same id as the first.
pub proof fn law_register_twice_is_stable(
    s0: AppState,
    s1: AppState,
    s2: AppState,
    path: Seq<char>,
    id1: Seq<char>,
    id2: Seq<char>,
)
    requires
        registered(s0, s1, path, id1),
        registered(s1, s2, path, id2),
    ensures
        s2 == s1,
        id2 == id1,
{
    let p = trim_spec(path);
    if no_path(s0.kubeconfigs@, p) {
        let n = s0.kubeconfigs@.len() as int;
        assert(s1.kubeconfigs@[n] == s1.kubeconfigs@.last());
        assert(s1.kubeconfigs@[n].path@ == p);
        assert(!no_path(s1.kubeconfigs@, p));
        assert forall|j: int| 0 <= j < n implies s1.kubeconfigs@[j].path@ != p by {
            assert(s1.kubeconfigs@[j] == s1.kubeconfigs@.drop_last()[j]);
        }
        assert(is_first_path(s1.kubeconfigs@, p, n));
        let i = choose|i: int| is_first_path(s1.kubeconfigs@, p, i) && id2 == s1.kubeconfigs@[i].id@;
        lemma_first_path_unique(s1.kubeconfigs@, p, i, n);
    } else {
        let i = choose|i: int| is_first_path(s0.kubeconfigs@, p, i) && id1 == s0.kubeconfigs@[i].id@;
        assert(s1.kubeconfigs@ == s0.kubeconfigs@);
        assert(!no_path(s1.kubeconfigs@, p));
        let j = choose|j: int| is_first_path(s1.kubeconfigs@, p, j) && id2 == s1.kubeconfigs@[j].id@;
        lemma_first_path_unique(s0.kubeconfigs@, p, i, j);
    }
    assert(s2.kubeconfigs == s1.kubeconfigs);
}

/// After unregistering `id`, no entry has that id, and every entry kept was
/// registered before.
pub proof fn law_unregistered_id_is_gone(es: Seq<KubeconfigEntry>, id: Seq<char>)
    ensures
        no_id(without_id(es, id), id),
        forall|k: int|
            0 <= k < without_id(es, id).len() ==> exists|j: int|
                0 <= j < es.len() && es[j] == #[trigger] without_id(es, id)[k],
    decreases es.len(),
{
    if es.len() > 0 {
        let t = es.drop_last();
        law_unregistered_id_is_gone(t, id);
        let w = without_id(t, id);
        assert forall|k: int|
            0 <= k < without_id(es, id).len() implies exists|j: int|
                0 <= j < es.len() && es[j] == #[trigger] without_id(es, id)[k] by {
            if k < w.len() {
                let j = choose|j: int| 0 <= j < t.len() && t[j] == #[trigger] w[k];
                assert(es[j] == t[j]);
                assert(without_id(es, id)[k] == w[k]);
            } else {
                assert(without_id(es, id)[k] == es.last());
                assert(es[es.len() - 1] == es.last());
            }
        }
    }
}

/// After making a registered entry active, the active entry is the first
/// entry with that id.
pub proof fn law_activated_entry_is_active(s0: AppState, s1: AppState, id: Seq<char>)
    requires
        activated(s0, s1, id),
        !no_id(s0.kubeconfigs@, id),
    ensures
        opt_view(s1.active_kubeconfig_id) == Some(id),
        exists|k: int|
            is_first_id(s1.kubeconfigs@, id, k) && first_with_id(s1.kubeconfigs@, id) == Some(k),
{
    let es = s1.kubeconfigs@;
    let w = choose|w: int| 0 <= w < es.len() && es[w].id@ == id;
    assert(exists|i: int| 0 <= i < es.len() && es[i].id@ == id);
    let k = choose|k: int| 0 <= k < es.len() && es[k].id@ == id && forall|j: int| 0 <= j < k ==> es[j].id@ != id;
    lemma_first_id_exists(es, id, w);
    assert(is_first_id(es, id, k));
    lemma_first_with_id(es, id, k);
}

proof fn lemma_first_id_exists(es: Seq<KubeconfigEntry>, id: Seq<char>, w: int)
    requires
        0 <= w < es.len(),
        es[w].id@ == id,
    ensures
        exists|k: int| 0 <= k < es.len() && es[k].id@ == id && forall|j: int| 0 <= j < k ==> es[j].id@ != id,
    decreases w,
{
    if exists|j: int| 0 <= j < w && es[j].id@ == id {
        let j = choose|j: int| 0 <= j < w && es[j].id@ == id;
        lemma_first_id_exists(es, id, j);
    } else {
        assert(forall|j: int| 0 <= j < w ==> es[j].id@ != id);
    }
}

/// `new` is `old` after migrating the legacy path fields: nothing changes
/// when entries exist already; otherwise one entry per legacy path is added
/// and the active entry is settled by `migrated_active_ok`.
pub open spec fn migrated(old: AppState, new: AppState) -> bool {
    &&& same_but_registry(old, new)
    &&& old.kubeconfigs@.len() > 0 ==> new == old
    &&& old.kubeconfigs@.len() == 0 ==> {
        &&& new.kubeconfigs@.len() == legacy_paths(old).len()
        &&& forall|i: int|
            0 <= i < new.kubeconfigs@.len() ==> new_entry_ok(
                #[trigger] new.kubeconfigs@[i],
                legacy_paths(old)[i],
            )
        &&& migrated_active_ok(old, new)
    }
}

/// Migrating the legacy settings a second time changes nothing: the same
/// entries, the same active entry, every other field as it was.
pub proof fn law_migration_is_idempotent(s0: AppState, s1: AppState, s2: AppState)
    requires
        migrated(s0, s1),
        migrated(s1, s2),
    ensures
        s2.kubeconfigs@ == s1.kubeconfigs@,
        s2.active_kubeconfig_id == s1.active_kubeconfig_id,
        same_but_registry(s1, s2),
{
    if s1.kubeconfigs@.len() == 0 {
        assert(legacy_paths(s1) == legacy_paths(s0));
        assert(s0.kubeconfigs@.len() == 0);
        assert(legacy_paths(s0).len() == 0);
        assert(s2.kubeconfigs@ =~= s1.kubeconfigs@);
        assert(s2.active_kubeconfig_id == s1.active_kubeconfig_id);
    }
}

/// After a path is registered, an entry for the trimmed path is listed.
pub proof fn law_registered_path_is_listed(s0: AppState, s1: AppState, path: Seq<char>, id: Seq<char>)
    requires
        registered(s0, s1, path, id),
    ensures
        !no_path(s1.kubeconfigs@, trim_spec(path)),
{
    let p = trim_spec(path);
    if no_path(s0.kubeconfigs@, p) {
        let n = s0.kubeconfigs@.len() as int;
        assert(s1.kubeconfigs@[n] == s1.kubeconfigs@.last());
    } else {
        let i = choose|i: int| is_first_path(s0.kubeconfigs@, p, i) && id == s0.kubeconfigs@[i].id@;
        assert(s1.kubeconfigs@[i].path@ == p);
    }
}

/// After migration: an unset active id is taken from the first entry whose
/// path is the legacy active path (if any); a set one is kept.
pub open spec fn migrated_active_ok(old: AppState, new: AppState) -> bool {
    match old.active_kubeconfig_id {
        Some(_) => new.active_kubeconfig_id == old.active_kubeconfig_id,
        None => match old.active_kubeconfig_path {
            Some(p) => if no_path(new.kubeconfigs@, p@) {
                new.active_kubeconfig_id is None
            } else {
                exists|i: int|
                    is_first_path(new.kubeconfigs@, p@, i) && new.active_kubeconfig_id == Some(
                        new.kubeconfigs@[i].id,
                    )
            },
            None => new.active_kubeconfig_id is None,
        },
    }
}

} // verus!
