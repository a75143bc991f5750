//! The settings record owned by the surrounding command layer.  The core
//! only reads the monitoring flag; preset contents are carried, not
//! interpreted.

use vstd::prelude::*;

verus! {

/// A named output preset.  The core does not interpret these fields.
pub struct Preset {
    pub id: String,
    pub name: String,
    pub max_width: u32,
    pub format: String,
    pub post_action: String,
    pub close_after_copy: bool,
}

/// The persisted settings record: the monitoring flag the poll loop
/// reads, and the user's presets.
pub struct Settings {
    pub monitoring: bool,
    pub presets: Vec<Preset>,
}

/// The built-in preset fields: identifier, display name and width cap.
/// Format and post-action are the same for all three.
pub open spec fn default_preset_fields(p: Preset, id: Seq<char>, name: Seq<char>, max_width: u32) -> bool {
    &&& p.id@ == id
    &&& p.name@ == name
    &&& p.max_width == max_width
    &&& p.format@ == "PNG"@
    &&& p.post_action@ == "clipboard"@
    &&& p.close_after_copy == true
}

impl Default for Settings {
    /// Fresh settings: monitoring on, and three built-in presets —
    /// original size, capped at 1200px, capped at 800px.
    fn default() -> (r: Settings)
        ensures
            r.monitoring == true,
            r.presets@.len() == 3,
            default_preset_fields(r.presets@[0], "preset1"@, "Original Size"@, 0),
            default_preset_fields(r.presets@[1], "preset2"@, "Max 1200px"@, 1200),
            default_preset_fields(r.presets@[2], "preset3"@, "Max 800px"@, 800),
    {
        let mut presets: Vec<Preset> = Vec::new();
        presets.push(Preset {
            id: String::from_str("preset1"),
            name: String::from_str("Original Size"),
            max_width: 0,
            format: String::from_str("PNG"),
            post_action: String::from_str("clipboard"),
            close_after_copy: true,
        });
        presets.push(Preset {
            id: String::from_str("preset2"),
            name: String::from_str("Max 1200px"),
            max_width: 1200,
            format: String::from_str("PNG"),
            post_action: String::from_str("clipboard"),
            close_after_copy: true,
        });
        presets.push(Preset {
            id: String::from_str("preset3"),
            name: String::from_str("Max 800px"),
            max_width: 800,
            format: String::from_str("PNG"),
            post_action: String::from_str("clipboard"),
            close_after_copy: true,
        });
        Settings { monitoring: true, presets }
    }
}

} // verus!
