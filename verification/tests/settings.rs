use kubefront_core::settings::{
    color_schemes, default_auto_refresh, default_log_level, default_namespace, rgb_hex, AppState,
    ColorScheme, KubeconfigEntry, ThemeMode,
};

#[test]
fn new_entry_is_named_after_its_file() {
    let e = KubeconfigEntry::new("/home/u/.kube/prod.yaml".to_string());
    assert_eq!(e.id, "/home/u/.kube/prod.yaml");
    assert_eq!(e.path, "/home/u/.kube/prod.yaml");
    assert_eq!(e.name, "prod.yaml");
    assert_eq!(e.description, None);
    assert_eq!(e.last_context, None);
    assert_eq!(KubeconfigEntry::new("/".to_string()).name, "Unnamed");
}

#[test]
fn color_scheme_presets() {
    assert_eq!(ColorScheme::Default.label(), "Default");
    assert_eq!(ColorScheme::K3sPurple.label(), "K3S Purple");
    assert_eq!(ColorScheme::K3sPurple.accent(), [139, 92, 246]);
    assert_eq!(ColorScheme::Default.accent_hex(), "#326ce5");
    assert_eq!(ColorScheme::Slate.accent_hex(), "#64748b");
    assert_eq!(ColorScheme::all().len(), 8);
    assert_eq!(rgb_hex([0, 15, 255]), "#000fff");
}

#[test]
fn color_scheme_infos_list_every_preset() {
    let infos = color_schemes();
    assert_eq!(infos.len(), 8);
    assert_eq!(infos[0].key, "Default");
    assert_eq!(infos[1].key, "K3sPurple");
    assert_eq!(infos[1].label, "K3S Purple");
    assert_eq!(infos[1].hex, "#8b5cf6");
}

#[test]
fn default_settings() {
    let s = AppState::default();
    assert!(s.kubeconfigs.is_empty());
    assert_eq!(s.default_namespace, "All");
    assert_eq!(s.log_level, "info");
    assert_eq!(s.auto_refresh_secs, 5);
    assert!(s.show_right_panel);
    assert_eq!(s.theme_mode, ThemeMode::Dark);
    assert_eq!(s.color_scheme, ColorScheme::Default);
    assert_eq!(f32::from_bits(s.font_scale_bits), 1.0f32);
    assert_eq!(default_namespace(), "All");
    assert_eq!(default_log_level(), "info");
    assert_eq!(default_auto_refresh(), 5);
}

#[test]
fn custom_accent_wins_over_preset() {
    let mut s = AppState::default();
    s.color_scheme = ColorScheme::Emerald;
    assert_eq!(s.resolved_accent(), [16, 185, 129]);
    s.custom_accent = Some([1, 2, 3]);
    assert_eq!(s.resolved_accent(), [1, 2, 3]);
    assert_eq!(s.resolved_accent_hex(), "#010203");
}

#[test]
fn registering_twice_keeps_one_entry() {
    let mut s = AppState::default();
    let a = s.register_kubeconfig("  /k/a.yaml ".to_string());
    assert_eq!(a, "/k/a.yaml");
    assert_eq!(s.kubeconfigs.len(), 1);
    let b = s.register_kubeconfig("/k/a.yaml".to_string());
    assert_eq!(b, a);
    assert_eq!(s.kubeconfigs.len(), 1);
    s.register_kubeconfig("/k/b.yaml".to_string());
    assert_eq!(s.kubeconfigs.len(), 2);
}

#[test]
fn activating_and_unregistering() {
    let mut s = AppState::default();
    let a = s.register_kubeconfig("/k/a.yaml".to_string());
    let b = s.register_kubeconfig("/k/b.yaml".to_string());
    s.set_active_kubeconfig("/nope");
    assert_eq!(s.active_kubeconfig_id, None);
    s.set_active_kubeconfig(&b);
    assert_eq!(s.active_kubeconfig().map(|e| e.name.clone()), Some("b.yaml".to_string()));
    assert_eq!(s.active_kubeconfig_path(), Some("/k/b.yaml"));
    s.unregister_kubeconfig_by_id(&a);
    assert_eq!(s.kubeconfigs.len(), 1);
    assert_eq!(s.active_kubeconfig_id, Some(b.clone()));
    s.unregister_kubeconfig_by_id(&b);
    assert!(s.kubeconfigs.is_empty());
    assert_eq!(s.active_kubeconfig_id, None);
}

#[test]
fn effective_path_prefers_active_entry() {
    let mut s = AppState::default();
    assert_eq!(s.effective_kubeconfig_path(), None);
    s.last_kubeconfig_path = Some("/last".into());
    assert_eq!(s.effective_kubeconfig_path(), Some("/last"));
    s.kubeconfig_path = Some("/legacy".into());
    assert_eq!(s.effective_kubeconfig_path(), Some("/legacy"));
    let id = s.register_kubeconfig("/active".into());
    s.set_active_kubeconfig(&id);
    assert_eq!(s.effective_kubeconfig_path(), Some("/active"));
}

#[test]
fn legacy_paths_migrate_into_entries() {
    let mut s = AppState::default();
    s.registered_kubeconfigs = vec!["/k/a.yaml".into(), "/k/b.yaml".into()];
    s.active_kubeconfig_path = Some("/k/b.yaml".into());
    s.migrate_from_legacy();
    assert_eq!(s.kubeconfigs.len(), 2);
    assert_eq!(s.kubeconfigs[1].path, "/k/b.yaml");
    assert_eq!(s.active_kubeconfig_id, Some("/k/b.yaml".to_string()));
    let before = s.kubeconfigs.len();
    s.migrate_from_legacy();
    assert_eq!(s.kubeconfigs.len(), before);

    let mut t = AppState::default();
    t.last_kubeconfig_path = Some("/k/last".into());
    t.migrate_from_legacy();
    assert_eq!(t.kubeconfigs.len(), 1);
    assert_eq!(t.active_kubeconfig_id, None);
}
