use impressy::presets::{
    render_edit_prompt, render_industry_prompt, render_poster_background_prompt, AiEditPreset,
    IndustryTool,
};

#[test]
fn every_locked_edit_preset_is_embedded() {
    for preset in AiEditPreset::all() {
        let prompt = render_edit_prompt(preset, "default", "detail");
        if preset == AiEditPreset::Freeform {
            assert!(prompt.is_none());
        } else {
            let prompt = prompt.expect("locked prompt");
            assert!(prompt.len() > 80, "{} prompt is too short", preset.id());
            assert!(!prompt.contains("{{"));
        }
    }
}

#[test]
fn every_industry_tool_has_a_locked_prompt() {
    for tool in IndustryTool::all() {
        let prompt = render_industry_prompt(tool, "tier", "detail");
        assert!(prompt.len() > 100, "{} prompt is too short", tool.id());
        assert!(!prompt.contains("{{"));
    }
}

#[test]
fn placeholders_receive_trimmed_values() {
    let prompt = render_industry_prompt(IndustryTool::all()[0], "  tier-x  ", "  keep it simple \n");
    assert!(prompt.contains("tier-x"));
    assert!(prompt.contains("keep it simple"));
    assert!(!prompt.contains("  tier-x"));
    let poster = render_poster_background_prompt("sale", "blue");
    assert!(poster.contains("sale"));
    assert!(!poster.contains("{{"));
}
