use spaghetti_engine::abilities::WeaponAbilities;
use spaghetti_engine::config::WeaponActionsHelper;
use spaghetti_engine::enums_types::{activations_from_ranges, any_triggered, SoundType};
use spaghetti_engine::render_targets::{
    framebuffer_status_label, settings_require_restart, ui_texture_filter, ui_texture_internal_format,
    ui_texture_upload_format, ui_texture_wrap, RestartSettings, UiTextureFilter, UiTextureFormat,
    UiTextureWrap,
};
use spaghetti_engine::shader_source::{extract_shader_sources, parse_uniform_names};
use spaghetti_engine::sound::{one_shots_for, OneShot};
use spaghetti_engine::weapon_actions::{ActionClip, WeaponAction};

fn helper() -> WeaponActionsHelper {
    let chain: Vec<String> = vec!["Basic1".to_string(), "Basic2".to_string(), "Basic3".to_string()];
    WeaponActionsHelper {
        basic_chain: chain.clone(),
        basic_chain_default: chain,
        dash: "DashF".to_string(),
        block: "Block".to_string(),
    }
}

fn abilities() -> WeaponAbilities {
    WeaponAbilities { m1: Some(1), m2: Some(2), q: Some(11), e: Some(12), shift: Some(3), r: None }
}

#[test]
fn action_names() {
    assert_eq!(WeaponAction::from_name("basic"), Some(WeaponAction::Basic));
    assert_eq!(WeaponAction::from_name("skill2"), Some(WeaponAction::Skill2));
    assert_eq!(WeaponAction::from_name("ultimate"), Some(WeaponAction::Ultimate));
    assert_eq!(WeaponAction::from_name("Basic"), None);
    assert_eq!(WeaponAction::from_name("jump"), None);
}

#[test]
fn basic_attacks_walk_round_the_chain_and_reset() {
    let mut h = helper();
    let a = abilities();
    let mut played = Vec::new();
    for _ in 0..4 {
        match h.clip_for_action(WeaponAction::Basic, &a) {
            ActionClip::Named(n) => played.push(n),
            ActionClip::Ability(_) => panic!("a basic attack names its clip"),
        }
    }
    assert_eq!(played, vec!["Basic1", "Basic2", "Basic3", "Basic1"]);
    assert_eq!(h.basic_chain, vec!["Basic2", "Basic3", "Basic1"]);
    h.reset_attacks();
    assert_eq!(h.basic_chain, vec!["Basic1", "Basic2", "Basic3"]);
}

#[test]
fn other_actions_name_their_clip_or_ability() {
    let mut h = helper();
    let a = abilities();
    assert_eq!(h.clip_for_action(WeaponAction::Dash, &a), ActionClip::Named("DashF".to_string()));
    assert_eq!(h.clip_for_action(WeaponAction::Block, &a), ActionClip::Named("Block".to_string()));
    assert_eq!(h.clip_for_action(WeaponAction::Skill1, &a), ActionClip::Ability(Some(11)));
    assert_eq!(h.clip_for_action(WeaponAction::Skill2, &a), ActionClip::Ability(Some(12)));
    assert_eq!(h.clip_for_action(WeaponAction::Ultimate, &a), ActionClip::Ability(None));
    assert_eq!(h.basic_chain, vec!["Basic1", "Basic2", "Basic3"]);
}

#[test]
fn one_shots_play_once_per_pass_through_their_segment() {
    let mut cue = OneShot { sound_type: SoundType::Footstep, segment: 5, triggered: false };
    assert!(!cue.observe_segment(4));
    assert!(cue.observe_segment(5));
    assert!(!cue.observe_segment(5));
    assert!(!cue.observe_segment(6));
    assert!(cue.observe_segment(5));
}

#[test]
fn one_shot_cues_from_configuration() {
    let cues = one_shots_for(&vec![(SoundType::Footstep, vec![3, 9]), (SoundType::Land, vec![]), (SoundType::Bloop, vec![1])]);
    let got: Vec<(SoundType, u32, bool)> = cues.iter().map(|c| (c.sound_type, c.segment, c.triggered)).collect();
    assert_eq!(
        got,
        vec![(SoundType::Footstep, 3, false), (SoundType::Footstep, 9, false), (SoundType::Bloop, 1, false)]
    );
}

#[test]
fn activations_are_on_inside_their_range() {
    let mut list = activations_from_ranges(&vec![(10, 14), (20, 20)]);
    assert_eq!(list.len(), 2);
    assert_eq!(list[0].segment_range, 10..=14);
    assert!(!any_triggered(&list));
    list[0].observe_segment(9);
    assert!(!list[0].triggered);
    list[0].observe_segment(10);
    assert!(list[0].triggered);
    assert!(any_triggered(&list));
    list[0].observe_segment(14);
    assert!(list[0].triggered);
    list[0].observe_segment(15);
    assert!(!list[0].triggered);
    list[1].observe_segment(20);
    assert!(list[1].triggered);
}

#[test]
fn gl_enumerants_and_labels() {
    assert_eq!(framebuffer_status_label(0x8CD5), "FRAMEBUFFER_COMPLETE");
    assert_eq!(framebuffer_status_label(0x8CDD), "FRAMEBUFFER_UNSUPPORTED");
    assert_eq!(framebuffer_status_label(0x8D56), "FRAMEBUFFER_INCOMPLETE_MULTISAMPLE");
    assert_eq!(framebuffer_status_label(7), "UNKNOWN_FRAMEBUFFER_STATUS");
    assert_eq!(ui_texture_internal_format(UiTextureFormat::AlphaMask), 0x8229);
    assert_eq!(ui_texture_internal_format(UiTextureFormat::Rgba8), 0x8058);
    assert_eq!(ui_texture_upload_format(UiTextureFormat::Rgba8), 0x1908);
    assert_eq!(ui_texture_upload_format(UiTextureFormat::AlphaMask), 0x1903);
    assert_eq!(ui_texture_filter(UiTextureFilter::Nearest), 0x2600);
    assert_eq!(ui_texture_wrap(UiTextureWrap::Repeat), 0x2901);
}

#[test]
fn restart_needed_only_for_restart_settings() {
    let a = RestartSettings { msaa_level: 4, debug_mode: false, webgl_compatibility_mode: false };
    assert!(!settings_require_restart(a, a));
    assert!(settings_require_restart(a, RestartSettings { msaa_level: 1, ..a }));
    assert!(settings_require_restart(a, RestartSettings { debug_mode: true, ..a }));
    assert!(settings_require_restart(a, RestartSettings { webgl_compatibility_mode: true, ..a }));
}

#[test]
fn shader_file_stages() {
    let text = "#version 330\n// VERTEX_SHADER\nvoid main() {}\n  // FRAGMENT_SHADER \t\r\nout vec4 c;\n\nvoid main() {}";
    let s = extract_shader_sources(text).unwrap();
    assert_eq!(s.vertex, "void main() {}\n");
    assert_eq!(s.fragment, "out vec4 c;\n\nvoid main() {}\n");
    assert!(s.geometry.is_none());
}

#[test]
fn a_geometry_marker_starts_the_geometry_stage() {
    let text = "// VERTEX_SHADER\na\n// FRAGMENT_SHADER\nb\n// GEOMETRY_SHADER\ng\n";
    let s = extract_shader_sources(text).unwrap();
    assert_eq!(s.vertex, "a\n");
    assert_eq!(s.fragment, "b\n");
    assert_eq!(s.geometry.as_deref(), Some("g\n"));
    assert!(extract_shader_sources("// VERTEX_SHADER\na\n// GEOMETRY_SHADER\ng\n").is_none());
}

#[test]
fn a_stage_marked_again_starts_empty() {
    let text = "// FRAGMENT_SHADER\nf\n// VERTEX_SHADER\nold\n\u{a0}// VERTEX_SHADER\u{3000}\nnew\n";
    let s = extract_shader_sources(text).unwrap();
    assert_eq!(s.vertex, "new\n");
    assert_eq!(s.fragment, "f\n");
}

#[test]
fn a_shader_file_needs_both_stages() {
    assert!(extract_shader_sources("// VERTEX_SHADER\nv\n").is_none());
    assert!(extract_shader_sources("//VERTEX_SHADER\n// FRAGMENT_SHADER\n").is_none());
    assert!(extract_shader_sources("").is_none());
    let s = extract_shader_sources("// VERTEX_SHADER\r\n// FRAGMENT_SHADER").unwrap();
    assert_eq!(s.vertex, "");
    assert_eq!(s.fragment, "");
}

#[test]
fn uniforms_are_listed_with_their_fields() {
    let text = "#version 330 core\n// VERTEX_SHADER\nuniform mat4 model;\nuniform Material material;\n\
uniform DirLight dir_light;\nuniform PointLight point_lights[4];\n  uniform float  gamma;;\r\n\
void main() { }\n";
    let names = parse_uniform_names(text);
    let expected = vec![
        "model",
        "material.Diffuse",
        "material.Specular",
        "material.Emissive",
        "material.Opacity",
        "dir_light.direction",
        "dir_light.view_pos",
        "dir_light.ambient",
        "dir_light.diffuse",
        "dir_light.specular",
        "point_lights",
        "gamma",
    ];
    assert_eq!(names, expected);
}

#[test]
fn sources_without_uniforms_list_none() {
    assert!(parse_uniform_names("").is_empty());
    assert!(parse_uniform_names("void main() {}\n// uniform mat4 x;\n").is_empty());
}

fn uniform_names_by_std(text: &str) -> Vec<String> {
    let mut out = Vec::new();
    for line in text.lines() {
        let parts: Vec<&str> = line.split_whitespace().collect();
        if parts.is_empty() || parts[0] != "uniform" {
            continue;
        }
        let name = parts[2].split('[').next().unwrap().replace(';', "");
        match parts[1] {
            "Material" => {
                for f in ["Diffuse", "Specular", "Emissive", "Opacity"] {
                    out.push(format!("{name}.{f}"));
                }
            }
            "DirLight" => {
                for f in ["direction", "view_pos", "ambient", "diffuse", "specular"] {
                    out.push(format!("{name}.{f}"));
                }
            }
            _ => out.push(name),
        }
    }
    out
}

#[test]
fn uniform_names_split_lines_and_words_as_std_does() {
    let spaces = [" ", "\t", "\u{A0}", "\u{2003}", "\u{85}", "\u{1680}", "\u{3000}", "  \t "];
    let ends = ["\n", "\r\n", "\r\r\n", "\n\n"];
    let names = ["a;", "b[2];", ";c;[x]", "d", "[e]"];
    let types = ["vec3", "Material", "DirLight", "float"];
    let mut count = 0;
    for (i, sp) in spaces.iter().enumerate() {
        for (j, end) in ends.iter().enumerate() {
            let mut text = String::new();
            for (k, ty) in types.iter().enumerate() {
                let name = names[(i + j + k) % names.len()];
                text.push_str(&format!("{sp}uniform{sp}{ty}{sp}{name}{end}"));
                text.push_str(&format!("void{sp}f();{end}"));
            }
            text.push_str(&format!("uniform{sp}int{sp}last;\r"));
            assert_eq!(parse_uniform_names(&text), uniform_names_by_std(&text), "text {text:?}");
            count += 1;
        }
    }
    assert_eq!(count, spaces.len() * ends.len());
}
