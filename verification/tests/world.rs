use spaghetti_engine::bone_file::{import_bone_data, read_bone_file, scan_skeleton};
use spaghetti_engine::model_file::read_model_file;
use spaghetti_engine::enums_types::{AnimationType, TextureProfile, TextureType};
use spaghetti_engine::enums_types::CellType;
use spaghetti_engine::grid::{cell_of, parse_grid_data};
use spaghetti_engine::input::ButtonTracker;
use spaghetti_engine::skeleton::{build_bone_hierarchy, children_lists, find_root_bone};

#[test]
fn grid_characters_name_cells() {
    assert_eq!(cell_of(b'0'), CellType::Grass);
    assert_eq!(cell_of(b'T'), CellType::Tree);
    assert_eq!(cell_of(b'S'), CellType::Path);
    assert_eq!(cell_of(b'X'), CellType::Path);
    assert_eq!(cell_of(b'E'), CellType::Path);
    assert_eq!(cell_of(b'q'), CellType::Grass);
}

#[test]
fn grid_file_lays_out_rows() {
    let g = parse_grid_data(b"0 T S\nX 0 E\n").unwrap();
    assert_eq!(g.width, 3);
    assert_eq!(g.height, 2);
    assert_eq!(
        g.cells,
        vec![CellType::Grass, CellType::Tree, CellType::Path, CellType::Path, CellType::Grass, CellType::Path]
    );
}

#[test]
fn grid_file_with_crlf_and_no_final_newline() {
    let g = parse_grid_data(b"TT\r\n0S").unwrap();
    assert_eq!(g.width, 2);
    assert_eq!(g.height, 2);
    assert_eq!(g.cells, vec![CellType::Tree, CellType::Tree, CellType::Grass, CellType::Path]);
}

#[test]
fn unknown_characters_are_grass_and_short_rows_leave_grass() {
    let g = parse_grid_data(b"T\n?SS\n").unwrap();
    assert_eq!(g.width, 3);
    assert_eq!(g.height, 2);
    assert_eq!(
        g.cells,
        vec![CellType::Tree, CellType::Grass, CellType::Grass, CellType::Grass, CellType::Path, CellType::Path]
    );
}

#[test]
fn a_long_row_spills_into_the_next_which_overwrites_it() {
    let g = parse_grid_data(b"TTTT\nSS\n00\n").unwrap();
    assert_eq!(g.width, 2);
    assert_eq!(g.height, 3);
    assert_eq!(
        g.cells,
        vec![CellType::Tree, CellType::Tree, CellType::Path, CellType::Path, CellType::Grass, CellType::Grass]
    );
}

#[test]
fn grid_text_that_cannot_be_laid_out() {
    assert!(parse_grid_data(b"").is_none());
    assert!(parse_grid_data(b"   ").is_none());
    assert!(parse_grid_data(b"TTT\nS").is_none());
    assert!(parse_grid_data(b"T\n\n").is_none());
    let g = parse_grid_data(b"\n").unwrap();
    assert_eq!((g.width, g.height), (0, 1));
    assert!(g.cells.is_empty());
}

#[test]
fn skeleton_root_and_children() {
    let parents = vec![Some(2), Some(2), None, Some(0), Some(2)];
    assert_eq!(find_root_bone(&parents), Some(2));
    assert_eq!(children_lists(&parents), vec![vec![3], vec![], vec![0, 1, 4], vec![], vec![]]);
    let h = build_bone_hierarchy(&parents);
    assert_eq!(h.root, 2);
    assert_eq!(h.children_of[2], vec![0, 1, 4]);
    assert_eq!(find_root_bone(&vec![Some(1), Some(0)]), None);
    assert_eq!(find_root_bone(&vec![None, None]), Some(0));
}

#[test]
fn button_edges_last_one_frame() {
    let space = 57;
    let w = 17;
    let mut keys = ButtonTracker::new();
    assert!(!keys.is_down(space));
    keys.press(space);
    keys.press(space);
    assert!(keys.is_down(space));
    assert!(keys.just_pressed(space));
    assert!(!keys.just_released(space));
    keys.update();
    assert!(keys.is_down(space));
    assert!(!keys.just_pressed(space));
    keys.press(w);
    keys.release(space);
    assert!(keys.just_released(space));
    assert!(keys.just_pressed(w));
    keys.update();
    assert!(!keys.just_released(space));
    assert!(!keys.is_down(space));
    assert!(keys.is_down(w));
    keys.release(w);
    keys.release(w);
    assert!(!keys.is_down(w));
    assert!(keys.just_released(w));
}

#[test]
fn skeleton_file_lists_bones_and_their_offset_rows() {
    let text = "WiseModel\nSKELETON_DATA\nBONECOUNT: 2\n\
BONE_NAME: Root\nPARENT: -1\nOFFSET\n1 0 0 0\n0 1 0 0\n0 0 1 0\n0 0 0 1\n\
BONE_NAME: Arm\nPARENT: 0\nOFFSET\n1 0 0 0\n0 1 0 0\n0 0 1 0\n0 0 0 1\n\
ANIMATION_DATA\n";
    let sc = scan_skeleton(text).unwrap();
    assert_eq!(sc.bone_count, Some(2));
    assert_eq!(sc.bones.len(), 2);
    assert_eq!(sc.bones[0].name, "Root");
    assert_eq!(sc.bones[0].parent, None);
    assert_eq!(sc.bones[0].offset_row, 6);
    assert_eq!(sc.bones[1].name, "Arm");
    assert_eq!(sc.bones[1].parent, Some(0));
    assert_eq!(sc.bones[1].offset_row, 13);
}

#[test]
fn skeleton_file_that_cannot_be_read() {
    assert!(scan_skeleton("BONECOUNT:\n").is_none());
    assert!(scan_skeleton("BONECOUNT: many\n").is_none());
    assert!(scan_skeleton("BONE_NAME: Root\nPARENT: -1\nOFFSET\n1 0 0 0\n").is_none());
    assert!(scan_skeleton("BONE_NAME: Root\nPARENT: none\nx\n1 0 0 0\n0 1 0 0\n0 0 1 0\n0 0 0 1\n").is_none());
    assert!(scan_skeleton("BONE_NAME: Root\nPARENT: -1\nx\n1 0 0\n0 1 0 0\n0 0 1 0\n0 0 0 1\n").is_none());
    let sc = scan_skeleton("nothing here\n\n").unwrap();
    assert_eq!(sc.bone_count, None);
    assert!(sc.bones.is_empty());
    let sc = scan_skeleton("BONECOUNT: 3\nBONECOUNT: +4\nBONE_NAME: A B\nPARENT: -2\n\n0 0 0 0\n0 0 0 0\n0 0 0 0\n0 0 0 0").unwrap();
    assert_eq!(sc.bone_count, Some(4));
    assert_eq!(sc.bones[0].name, "A");
    assert_eq!(sc.bones[0].parent, Some(4294967294));
}

fn bone_file(lines: &[&str]) -> String {
    lines.join("\n")
}

const ONE_BONE: [&str; 9] = [
    "SKELETON_DATA",
    "BONECOUNT: 1",
    "BONE_NAME: Root",
    "PARENT: -1",
    "OFFSET",
    "1 0 0 0",
    "0 1 0 0",
    "0 0 1 0",
    "0 0 0 1",
];

const KEY_ROWS: [&str; 4] = ["0 0 0", "0 0 0 1", "1 1 1", "BONE Root"];

#[test]
fn bone_file_clips_keep_all_but_their_first_keyframe() {
    let mut lines: Vec<&str> = ONE_BONE.to_vec();
    lines.push("ANIMATION_DATA"); // 9
    lines.push("FPS: 24"); // 10
    lines.push("ANIMATION_NAME: Idle"); // 11
    lines.push("DURATION: 2.0"); // 12
    lines.push("TIMESTAMP: 0"); // 13
    lines.extend_from_slice(&KEY_ROWS); // 14-17
    lines.push("TIMESTAMP: 1"); // 18
    lines.extend_from_slice(&KEY_ROWS); // 19-22
    lines.push("ANIMATION_NAME: Slash"); // 23
    lines.push("TIMESTAMP: 0"); // 24
    lines.extend_from_slice(&KEY_ROWS); // 25-28
    let f = read_bone_file(&bone_file(&lines)).unwrap();
    assert_eq!(f.skeleton.bones.len(), 1);
    assert_eq!(f.clips.len(), 2);
    assert_eq!(f.clips[0].name, AnimationType::Idle);
    assert!(f.clips[0].looping);
    assert_eq!(f.clips[0].duration_row, Some(12));
    assert_eq!(f.clips[0].fps_row, Some(10));
    assert_eq!(f.clips[0].keyframes, vec![18]);
    assert_eq!(f.clips[1].name, AnimationType::Slash);
    assert!(!f.clips[1].looping);
    assert_eq!(f.clips[1].duration_row, None);
    assert_eq!(f.clips[1].fps_row, Some(10));
    assert!(f.clips[1].keyframes.is_empty());
}

#[test]
fn bone_file_that_cannot_be_read_for_clips() {
    let mut no_clip: Vec<&str> = ONE_BONE.to_vec();
    no_clip.push("ANIMATION_DATA");
    assert!(read_bone_file(&bone_file(&no_clip)).is_none());

    let mut unknown: Vec<&str> = ONE_BONE.to_vec();
    unknown.push("ANIMATION_NAME: Wave");
    assert!(read_bone_file(&bone_file(&unknown)).is_none());

    let mut short: Vec<&str> = ONE_BONE.to_vec();
    short.push("ANIMATION_NAME: Run");
    short.push("TIMESTAMP: 0");
    short.push("0 0 0");
    short.push("0 0 0 1");
    assert!(read_bone_file(&bone_file(&short)).is_none());

    let mut ok: Vec<&str> = ONE_BONE.to_vec();
    ok.push("ANIMATION_NAME: Run");
    ok.push("TIMESTAMP: 0");
    ok.push("0 0 0");
    ok.push("0 0 0 1");
    ok.push("1 1 1");
    let f = read_bone_file(&bone_file(&ok)).unwrap();
    assert_eq!(f.clips.len(), 1);
    assert!(f.clips[0].looping);
}

const MODEL: &str = "MESH_DATA
TEXTURE_PROFILE: DecalCrisp
VERT:
0 0 0
0 1 0
0.5 0.5
  COLOR: 1 0 0 1
Root 0.75 Arm 0.25
VERT:
1 0 0
0 1 0
1 1
None
INDEX_COUNT: 3
0 1 1
TEXTURE_DIFFUSE: skin.png";

fn skeleton_names() -> Vec<String> {
    vec!["Root".to_string(), "Arm".to_string(), "Root".to_string()]
}

#[test]
fn model_file_vertices_indices_and_textures() {
    let m = read_model_file(MODEL, &skeleton_names(), 4).unwrap();
    assert_eq!(m.texture_profile, TextureProfile::DecalCrisp);
    assert_eq!(m.vertices.len(), 2);
    assert_eq!(m.vertices[0].position_row, 3);
    assert_eq!(m.vertices[0].color_row, Some(6));
    assert_eq!(m.vertices[0].weights_row, 7);
    assert_eq!(m.vertices[0].bone_ids, vec![2, 1]);
    assert_eq!(m.vertices[1].position_row, 9);
    assert_eq!(m.vertices[1].color_row, None);
    assert_eq!(m.vertices[1].weights_row, 12);
    assert!(m.vertices[1].bone_ids.is_empty());
    assert_eq!(m.indices, Some(vec![0, 1, 1]));
    assert_eq!(m.textures, vec![(TextureType::Diffuse, "skin.png".to_string())]);
}

#[test]
fn model_file_bone_names_that_no_bone_has() {
    let m = read_model_file("VERT:\n0 0 0\n0 1 0\n0 0\nTail 1.0\n", &skeleton_names(), 4).unwrap();
    assert_eq!(m.vertices[0].bone_ids, vec![-1]);
}

#[test]
fn model_file_that_cannot_be_read() {
    let names = skeleton_names();
    assert!(read_model_file("INDEX_COUNT: 2\n0 1 2\n", &names, 4).is_none());
    assert!(read_model_file("INDEX_COUNT: 2\n0 x\n", &names, 4).is_none());
    assert!(read_model_file("INDEX_COUNT: 1\n", &names, 4).is_none());
    assert!(read_model_file("VERT:\n0 0 0\n0 1 0\n0 0\nRoot\n", &names, 4).is_none());
    assert!(read_model_file("VERT:\n0 0 0\n0 1 0\n0 0\nA 1 B 1 C 1\n", &names, 2).is_none());
    assert!(read_model_file("VERT:\n0 0 0\n0 1 0\n0 0\n", &names, 4).is_none());
    assert!(read_model_file("VERT:\n0 0 0\n0 1 0\n0 0\n\n", &names, 4).is_none());
    assert!(read_model_file("TEXTURE_PROFILE: Shiny\n", &names, 4).is_none());
    assert!(read_model_file("TEXTURE_SPECULAR:\n", &names, 4).is_none());
    let m = read_model_file("", &names, 4).unwrap();
    assert!(m.vertices.is_empty() && m.indices.is_none() && m.textures.is_empty());
}

#[test]
fn ground_texture_is_dark_left_and_light_right() {
    let img = spaghetti_engine::grid::generate_texture();
    assert_eq!((img.width, img.height), (10, 10));
    assert_eq!(img.rgba.len(), 400);
    for y in 0..10usize {
        for x in 0..10usize {
            let i = 4 * (y * 10 + x);
            let level = if x < 5 { 87 } else { 91 };
            assert_eq!(&img.rgba[i..i + 4], &[level, level, level, 90]);
        }
    }
}

#[test]
fn height_map_is_flat() {
    let img = spaghetti_engine::grid::generate_height_map();
    assert_eq!((img.width, img.height), (10, 10));
    assert!(img.rgba.chunks(4).all(|p| p == [128, 128, 128, 255]));
    assert_eq!(img.rgba.len(), 400);
}

#[test]
fn loading_a_bone_file_starts_on_its_last_clip_with_all_its_keyframes() {
    let text = "BONECOUNT: 1\nBONE_NAME: root\nPARENT: -1\nOFFSET:\n1 0 0 0\n0 1 0 0\n0 0 1 0\n0 0 0 1\n\
ANIMATION_NAME: Jump\nTIMESTAMP: 0\n0 0 0\n0 0 0 1\n1 1 1\n-\nTIMESTAMP: 1\n2 0 0\n0 0 0 1\n1 1 1\n-";
    let d = import_bone_data(text).unwrap();
    assert_eq!(d.hierarchy.root, 0);
    assert_eq!(d.hierarchy.children_of, vec![Vec::<usize>::new()]);
    assert_eq!(d.animator_clips, vec![0]);
    assert_eq!(d.selection.current_animation, AnimationType::Jump);
    assert_eq!(d.selection.next_animation, AnimationType::Jump);
    assert!(!d.scan.clips[0].looping);
    assert_eq!(d.scan.clips[0].keyframes, vec![14]);
    assert_eq!(d.selected_keyframes, vec![9, 14]);
}

#[test]
fn a_later_clip_of_the_same_type_replaces_the_earlier_one() {
    let mut lines: Vec<&str> = ONE_BONE.to_vec();
    lines.push("ANIMATION_NAME: Idle"); // 9
    lines.push("TIMESTAMP: 0"); // 10
    lines.extend_from_slice(&KEY_ROWS);
    lines.push("ANIMATION_NAME: Run"); // 15
    lines.push("ANIMATION_NAME: Idle"); // 16
    lines.push("DURATION: 3"); // 17
    let d = import_bone_data(&bone_file(&lines)).unwrap();
    assert_eq!(d.scan.clips.len(), 3);
    assert_eq!(d.animator_clips, vec![1, 2]);
    assert_eq!(d.scan.clips[2].duration_row, Some(17));
    assert_eq!(d.selection.current_animation, AnimationType::Idle);
    assert!(d.selected_keyframes.is_empty());
}

#[test]
fn a_skeleton_needs_a_root_and_parents_that_exist() {
    let no_root = "BONE_NAME: a\nPARENT: 0\nOFFSET\n1 0 0 0\n0 1 0 0\n0 0 1 0\n0 0 0 1\nANIMATION_NAME: Idle\n";
    assert!(read_bone_file(no_root).is_some());
    assert!(import_bone_data(no_root).is_none());
    let bad_parent = "BONE_NAME: a\nPARENT: -1\nOFFSET\n1 0 0 0\n0 1 0 0\n0 0 1 0\n0 0 0 1\n\
BONE_NAME: b\nPARENT: 5\nOFFSET\n1 0 0 0\n0 1 0 0\n0 0 1 0\n0 0 0 1\nANIMATION_NAME: Idle\n";
    assert!(read_bone_file(bad_parent).is_some());
    assert!(import_bone_data(bad_parent).is_none());
}
