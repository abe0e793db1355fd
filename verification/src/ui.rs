//! Overlay UI state: which windows are shown, how graphs are scaled, and
//! how exports are reported back to the user. The rendering itself lives
//! outside the library; these are the plain values it persists and polls.

use vstd::prelude::*;

verus! {

/// The x-axis unit of the damage graphs.
#[derive(Clone, Copy, Debug, PartialEq, Eq, Structural)]
pub enum GraphUnit {
    Turn,
    ActionValue,
}

/// The outcome of a background export, reported back to the UI.
pub enum ExportNotification {
    Success,
    Error { message: String },
}

/// The persisted window/display state of the overlay.
pub struct AppState {
    pub show_menu: bool,
    pub show_changelog: bool,
    pub show_help: bool,
    pub show_settings: bool,
    pub show_console: bool,
    pub show_damage_distribution: bool,
    pub show_damage_bars: bool,
    pub show_real_time_damage: bool,
    pub show_enemy_stats: bool,
    pub show_battle_metrics: bool,
    pub should_hide: bool,
    pub graph_x_unit: GraphUnit,
    pub use_custom_color: bool,
    pub update_bttn_enabled: bool,
    pub show_version_mismatch_popup: bool,
    pub center_updater_window: bool,
    pub show_character_legend: bool,
    pub auto_save_battle_data: bool,
    pub show_export_window: bool,
    pub show_updater_window: bool,
    pub custom_export_path: Option<String>,
    pub auto_create_date_folders: bool,
}

impl Default for AppState {
    /// Everything hidden, graphs per turn, exports to the default
    /// directory with date folders.
    fn default() -> (s: AppState)
        ensures
            s.show_menu == false,
            s.show_changelog == false,
            s.show_help == false,
            s.show_settings == false,
            s.show_console == false,
            s.show_damage_distribution == false,
            s.show_damage_bars == false,
            s.show_real_time_damage == false,
            s.show_enemy_stats == false,
            s.show_battle_metrics == false,
            s.should_hide == false,
            s.graph_x_unit == GraphUnit::Turn,
            s.use_custom_color == false,
            s.update_bttn_enabled == false,
            s.show_version_mismatch_popup == false,
            s.center_updater_window == false,
            s.show_character_legend == false,
            s.auto_save_battle_data == false,
            s.show_export_window == false,
            s.show_updater_window == false,
            s.custom_export_path is None,
            s.auto_create_date_folders == true,
    {
        AppState {
            show_menu: false,
            show_changelog: false,
            show_help: false,
            show_settings: false,
            show_console: false,
            show_damage_distribution: false,
            show_damage_bars: false,
            show_real_time_damage: false,
            show_enemy_stats: false,
            show_battle_metrics: false,
            should_hide: false,
            graph_x_unit: GraphUnit::Turn,
            use_custom_color: false,
            update_bttn_enabled: false,
            show_version_mismatch_popup: false,
            center_updater_window: false,
            show_character_legend: false,
            auto_save_battle_data: false,
            show_export_window: false,
            show_updater_window: false,
            custom_export_path: None,
            auto_create_date_folders: true,
        }
    }
}

} // verus!
