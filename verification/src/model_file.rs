//! A model file, line by line. A line whose first word is `VERT:` starts a vertex: the
//! next three lines hold its position, normal and texture coordinates (three, three
//! and two numbers); an optional line beginning with `COLOR:` after white space holds
//! its color; the line after that lists its bone influences as pairs of a bone name
//! and a weight, or starts with the word `None`. A bone name stands for the last bone
//! of the skeleton with that name, or -1 when none has it. `INDEX_COUNT:` gives a count
//! in its second word and the next line the indices, which must be as many.
//! `TEXTURE_PROFILE:` names the sampling profile of the textures, and
//! `TEXTURE_DIFFUSE:`, `TEXTURE_SPECULAR:`, `TEXTURE_EMISSIVE:` and `TEXTURE_OPACITY:`
//! name texture files. Other lines are skipped. The numbers of the rows are read by the
//! caller.
use crate::enums_types::{TextureProfile, TextureType};
use crate::numbers::{parse_u32_chars, spec_parse_u32};
use crate::text::{
    chars_eq, chars_of, is_white_space, split_lines, split_words, string_from_chars, text_lines,
    white_space, words,
};
use vstd::prelude::*;

verus! {

/// The line holds `m` at position `a`, after nothing but white space.
pub open spec fn prefix_at(l: Seq<char>, m: Seq<char>, a: int) -> bool {
    &&& 0 <= a
    &&& a + m.len() <= l.len()
    &&& forall|j: int| 0 <= j < a ==> is_white_space(#[trigger] l[j])
    &&& l.subrange(a, a + m.len()) == m
}

/// The line, with its leading white space taken off, starts with `m`.
pub open spec fn starts_after_white_space(l: Seq<char>, m: Seq<char>) -> bool {
    exists|a: int| #[trigger] prefix_at(l, m, a)
}

/// The position of the last of the first `n` bone names that is `name`, or -1.
pub open spec fn last_bone_named(join: Seq<Seq<char>>, name: Seq<char>, n: int) -> int
    decreases n,
{
    if n <= 0 {
        -1
    } else if join[n - 1] == name {
        n - 1
    } else {
        last_bone_named(join, name, n - 1)
    }
}

/// The bones of the influence pairs of a weights line.
pub open spec fn influences_of(join: Seq<Seq<char>>, ws: Seq<Seq<char>>) -> Seq<i32> {
    if ws[0] == "None"@ {
        Seq::empty()
    } else {
        Seq::new(ws.len() / 2, |p: int| last_bone_named(join, ws[2 * p], join.len() as int) as i32)
    }
}

/// A weights line can be read: it has a first word, and unless that is `None` its words
/// pair up, into no more pairs than a vertex has influences.
pub open spec fn weights_readable(ws: Seq<Seq<char>>, max_influences: nat) -> bool {
    ws.len() > 0 && (ws[0] == "None"@ || (ws.len() % 2 == 0 && ws.len() / 2 <= max_influences))
}

/// The texture type a keyword names.
pub open spec fn texture_keyword(w: Seq<char>) -> Option<TextureType> {
    if w == "TEXTURE_DIFFUSE:"@ {
        Some(TextureType::Diffuse)
    } else if w == "TEXTURE_SPECULAR:"@ {
        Some(TextureType::Specular)
    } else if w == "TEXTURE_EMISSIVE:"@ {
        Some(TextureType::Emissive)
    } else if w == "TEXTURE_OPACITY:"@ {
        Some(TextureType::Opacity)
    } else {
        None
    }
}

/// Every index word is a `u32`, and there are `count` of them.
pub open spec fn indices_readable(iw: Seq<Seq<char>>, count: u32) -> bool {
    &&& forall|k: int| 0 <= k < iw.len() ==> (#[trigger] spec_parse_u32(iw[k])) is Some
    &&& count == iw.len() as u32
}

/// The indices an index line lists.
pub open spec fn indices_of(iw: Seq<Seq<char>>) -> Seq<u32> {
    Seq::new(iw.len(), |k: int| spec_parse_u32(iw[k]).unwrap())
}

/// A vertex as the file lists it: the line of its position (its normal and texture
/// coordinates follow), the line of its color, the line of its weights, and the bones
/// of its influences.
pub type VertexView = (int, Option<int>, int, Seq<i32>);

/// What the file gives: the texture profile, the vertices, the indices and the
/// textures.
pub type ModelView = (TextureProfile, Seq<VertexView>, Option<Seq<u32>>, Seq<(TextureType, Seq<char>)>);

/// What scanning from line `i` on gives, with what the lines before gave; None when a
/// line cannot be read as the format asks.
pub open spec fn scan_model(
    lines: Seq<Seq<char>>,
    join: Seq<Seq<char>>,
    max_influences: nat,
    i: nat,
    so_far: ModelView,
) -> Option<ModelView>
    decreases (if i >= lines.len() {
        0
    } else {
        lines.len() - i
    }),
{
    if i >= lines.len() {
        Some(so_far)
    } else {
        let (profile, verts, indices, textures) = so_far;
        let w = words(lines[i as int]);
        if w.len() == 0 {
            scan_model(lines, join, max_influences, i + 1, so_far)
        } else if w[0] == "TEXTURE_PROFILE:"@ {
            if w.len() < 2 {
                None
            } else {
                match TextureProfile::spec_from_name(w[1]) {
                    None => None,
                    Some(p) => scan_model(lines, join, max_influences, i + 1, (p, verts, indices, textures)),
                }
            }
        } else if w[0] == "VERT:"@ {
            if i + 3 >= lines.len() || words(lines[i + 1 as int]).len() < 3 || words(lines[i + 2 as int]).len()
                < 3 || words(lines[i + 3 as int]).len() < 2 {
                None
            } else {
                let has_color = i + 4 < lines.len() && starts_after_white_space(lines[i + 4 as int], "COLOR:"@);
                let wl: nat = if has_color {
                    i + 5
                } else {
                    i + 4
                };
                if wl >= lines.len() || !weights_readable(words(lines[wl as int]), max_influences) {
                    None
                } else {
                    let v: VertexView = (
                        i + 1 as int,
                        if has_color {
                            Some(i + 4 as int)
                        } else {
                            None
                        },
                        wl as int,
                        influences_of(join, words(lines[wl as int])),
                    );
                    scan_model(lines, join, max_influences, wl + 1, (profile, verts.push(v), indices, textures))
                }
            }
        } else if w[0] == "INDEX_COUNT:"@ {
            if w.len() < 2 || spec_parse_u32(w[1]) is None || i + 1 >= lines.len() || !indices_readable(
                words(lines[i + 1 as int]),
                spec_parse_u32(w[1]).unwrap(),
            ) {
                None
            } else {
                scan_model(
                    lines,
                    join,
                    max_influences,
                    i + 2,
                    (profile, verts, Some(indices_of(words(lines[i + 1 as int]))), textures),
                )
            }
        } else if texture_keyword(w[0]) is Some {
            if w.len() < 2 {
                None
            } else {
                scan_model(
                    lines,
                    join,
                    max_influences,
                    i + 1,
                    (profile, verts, indices, textures.push((texture_keyword(w[0]).unwrap(), w[1]))),
                )
            }
        } else {
            scan_model(lines, join, max_influences, i + 1, so_far)
        }
    }
}

fn starts_after_ws(l: &Vec<char>, m: &Vec<char>) -> (b: bool)
    requires
        m@.len() > 0,
        !is_white_space(m@[0]),
    ensures
        b == starts_after_white_space(l@, m@),
{
    let mut a: usize = 0;
    while a < l.len() && white_space(l[a])
        invariant
            a <= l.len(),
            forall|j: int| 0 <= j < a ==> is_white_space(#[trigger] l@[j]),
        decreases l.len() - a,
    {
        a = a + 1;
    }
    proof {
        assert forall|a2: int| #[trigger] prefix_at(l@, m@, a2) implies a2 == a by {
            assert(l@.subrange(a2, a2 + m@.len())[0] == l@[a2]);
            if a2 < a {
                assert(is_white_space(l@[a2]));
            } else if a2 > a {
                assert(is_white_space(l@[a as int]));
            }
        }
    }
    if l.len() - a < m.len() {
        return false;
    }
    let mut i: usize = 0;
    while i < m.len()
        invariant
            a + m@.len() <= l@.len(),
            a <= l.len(),
            i <= m@.len(),
            forall|a2: int| #[trigger] prefix_at(l@, m@, a2) ==> a2 == a,
            forall|j: int| 0 <= j < i ==> l@[a + j] == #[trigger] m@[j],
        decreases m.len() - i,
    {
        if l[a + i] != m[i] {
            proof {
                if prefix_at(l@, m@, a as int) {
                    assert(l@.subrange(a as int, a + m@.len())[i as int] == l@[a + i]);
                }
                assert(!prefix_at(l@, m@, a as int));
            }
            return false;
        }
        i = i + 1;
    }
    assert(l@.subrange(a as int, a + m@.len()) =~= m@);
    assert(prefix_at(l@, m@, a as int));
    true
}

fn bone_named(join: &Vec<Vec<char>>, Ghost(jv): Ghost<Seq<Seq<char>>>, name: &Vec<char>) -> (id: i32)
    requires
        join@.len() == jv.len(),
        forall|k: int| 0 <= k < join@.len() ==> (#[trigger] join@[k])@ == jv[k],
    ensures
        id == last_bone_named(jv, name@, jv.len() as int) as i32,
{
    let mut id: i32 = -1;
    let mut j: usize = 0;
    while j < join.len()
        invariant
            j <= join@.len(),
            join@.len() == jv.len(),
            forall|k: int| 0 <= k < join@.len() ==> (#[trigger] join@[k])@ == jv[k],
            id == last_bone_named(jv, name@, j as int) as i32,
        decreases join.len() - j,
    {
        assert(join@[j as int]@ == jv[j as int]);
        if chars_eq(&join[j], name) {
            id = j as i32;
        }
        j = j + 1;
    }
    id
}

fn influences(join: &Vec<Vec<char>>, Ghost(jv): Ghost<Seq<Seq<char>>>, ws: &Vec<Vec<char>>, Ghost(wv): Ghost<Seq<Seq<char>>>) -> (ids: Vec<i32>)
    requires
        join@.len() == jv.len(),
        forall|k: int| 0 <= k < join@.len() ==> (#[trigger] join@[k])@ == jv[k],
        ws@.len() == wv.len(),
        forall|k: int| 0 <= k < ws@.len() ==> (#[trigger] ws@[k])@ == wv[k],
    ensures
        ids@ == Seq::new(wv.len() / 2, |p: int| last_bone_named(jv, wv[2 * p], jv.len() as int) as i32),
{
    let mut ids: Vec<i32> = Vec::new();
    let pairs = ws.len() / 2;
    let mut p: usize = 0;
    while p < pairs
        invariant
            pairs == ws@.len() / 2,
            p <= pairs,
            join@.len() == jv.len(),
            forall|k: int| 0 <= k < join@.len() ==> (#[trigger] join@[k])@ == jv[k],
            ws@.len() == wv.len(),
            forall|k: int| 0 <= k < ws@.len() ==> (#[trigger] ws@[k])@ == wv[k],
            ids@ == Seq::new(p as nat, |q: int| last_bone_named(jv, wv[2 * q], jv.len() as int) as i32),
        decreases pairs - p,
    {
        proof {
            vstd::arithmetic::div_mod::lemma_fundamental_div_mod(ws@.len() as int, 2);
        }
        assert(2 * p + 1 < ws@.len());
        assert(ws@.len() == ws.len());
        assert(ws@[2 * p as int]@ == wv[2 * p as int]);
        let id = bone_named(join, Ghost(jv), &ws[2 * p]);
        ids.push(id);
        assert(ids@ =~= Seq::new((p + 1) as nat, |q: int| last_bone_named(jv, wv[2 * q], jv.len() as int) as i32));
        p = p + 1;
    }
    ids
}

fn parse_indices(iw: &Vec<Vec<char>>, Ghost(wv): Ghost<Seq<Seq<char>>>, count: u32) -> (r: Option<Vec<u32>>)
    requires
        iw@.len() == wv.len(),
        forall|k: int| 0 <= k < iw@.len() ==> (#[trigger] iw@[k])@ == wv[k],
    ensures
        r is Some <==> indices_readable(wv, count),
        r matches Some(v) ==> v@ == indices_of(wv),
{
    let mut out: Vec<u32> = Vec::new();
    let mut k: usize = 0;
    while k < iw.len()
        invariant
            k <= iw@.len(),
            iw@.len() == wv.len(),
            forall|j: int| 0 <= j < iw@.len() ==> (#[trigger] iw@[j])@ == wv[j],
            forall|j: int| 0 <= j < k ==> (#[trigger] spec_parse_u32(wv[j])) is Some,
            out@ == Seq::new(k as nat, |j: int| spec_parse_u32(wv[j]).unwrap()),
        decreases iw.len() - k,
    {
        assert(iw@[k as int]@ == wv[k as int]);
        match parse_u32_chars(&iw[k]) {
            None => {
                return None;
            },
            Some(v) => {
                out.push(v);
            },
        }
        assert(out@ =~= Seq::new((k + 1) as nat, |j: int| spec_parse_u32(wv[j]).unwrap()));
        k = k + 1;
    }
    if count != iw.len() as u32 {
        return None;
    }
    Some(out)
}

/// A vertex as the file lists it.
#[derive(Debug)]
pub struct VertexRows {
    /// the line of the position; the normal and the texture coordinates follow it
    pub position_row: usize,
    pub color_row: Option<usize>,
    pub weights_row: usize,
    /// the bone of each influence pair, -1 for a name no bone has
    pub bone_ids: Vec<i32>,
}

impl VertexRows {
    pub open spec fn spec_view(&self) -> VertexView {
        (
            self.position_row as int,
            match self.color_row {
                Some(r) => Some(r as int),
                None => None,
            },
            self.weights_row as int,
            self.bone_ids@,
        )
    }
}

/// What a model file gives.
#[derive(Debug)]
pub struct ModelScan {
    pub texture_profile: TextureProfile,
    pub vertices: Vec<VertexRows>,
    pub indices: Option<Vec<u32>>,
    pub textures: Vec<(TextureType, String)>,
}

/// The vertices of a scan, seen as values.
pub open spec fn vertices_view(v: Seq<VertexRows>) -> Seq<VertexView> {
    v.map_values(|x: VertexRows| x.spec_view())
}

/// The textures of a scan, seen as values.
pub open spec fn textures_view(t: Seq<(TextureType, String)>) -> Seq<(TextureType, Seq<char>)> {
    t.map_values(|x: (TextureType, String)| (x.0, x.1@))
}

/// The indices of a scan, seen as values.
pub open spec fn indices_view(i: Option<Vec<u32>>) -> Option<Seq<u32>> {
    match i {
        Some(v) => Some(v@),
        None => None,
    }
}

impl ModelScan {
    pub open spec fn spec_view(&self) -> ModelView {
        (self.texture_profile, vertices_view(self.vertices@), indices_view(self.indices), textures_view(self.textures@))
    }
}

/// The bone names of a skeleton, seen as values.
pub open spec fn names_view(names: Seq<String>) -> Seq<Seq<char>> {
    names.map_values(|s: String| s@)
}

/// Reads a model file whose bones are named `bone_names`, for vertices of at most
/// `max_influences` influences; None when a line cannot be read as the format asks.
pub fn read_model_file(text: &str, bone_names: &Vec<String>, max_influences: usize) -> (r: Option<ModelScan>)
    ensures
        match scan_model(
            text_lines(text@),
            names_view(bone_names@),
            max_influences as nat,
            0,
            (TextureProfile::BroadDefault, Seq::empty(), None, Seq::empty()),
        ) {
            None => r is None,
            Some(m) => r matches Some(sc) && sc.spec_view() == m,
        },
{
    let chars = chars_of(text);
    let lines = split_lines(&chars);
    let ghost ls = text_lines(text@);
    let ghost jv = names_view(bone_names@);
    let mut join: Vec<Vec<char>> = Vec::new();
    let mut b: usize = 0;
    while b < bone_names.len()
        invariant
            b <= bone_names@.len(),
            jv == names_view(bone_names@),
            join@.len() == b,
            forall|k: int| 0 <= k < b ==> (#[trigger] join@[k])@ == jv[k],
        decreases bone_names.len() - b,
    {
        join.push(chars_of(bone_names[b].as_str()));
        b = b + 1;
    }
    let profile_word = chars_of("TEXTURE_PROFILE:");
    let vert_word = chars_of("VERT:");
    let color_word = chars_of("COLOR:");
    let none_word = chars_of("None");
    let count_word = chars_of("INDEX_COUNT:");
    let diffuse_word = chars_of("TEXTURE_DIFFUSE:");
    let specular_word = chars_of("TEXTURE_SPECULAR:");
    let emissive_word = chars_of("TEXTURE_EMISSIVE:");
    let opacity_word = chars_of("TEXTURE_OPACITY:");
    proof {
        reveal_strlit("COLOR:");
    }
    let mut profile = TextureProfile::BroadDefault;
    let mut vertices: Vec<VertexRows> = Vec::new();
    let mut indices: Option<Vec<u32>> = None;
    let mut textures: Vec<(TextureType, String)> = Vec::new();
    let ghost init: ModelView = (TextureProfile::BroadDefault, Seq::empty(), None, Seq::empty());
    proof {
        assert(vertices_view(vertices@) =~= Seq::<VertexView>::empty());
        assert(textures_view(textures@) =~= Seq::<(TextureType, Seq<char>)>::empty());
    }
    let mut i: usize = 0;
    while i < lines.len()
        invariant
            i <= lines@.len(),
            lines@.len() == ls.len(),
            forall|k: int| 0 <= k < lines@.len() ==> (#[trigger] lines@[k])@ == ls[k],
            join@.len() == jv.len(),
            forall|k: int| 0 <= k < join@.len() ==> (#[trigger] join@[k])@ == jv[k],
            profile_word@ == "TEXTURE_PROFILE:"@,
            vert_word@ == "VERT:"@,
            color_word@ == "COLOR:"@,
            color_word@.len() > 0 && !is_white_space(color_word@[0]),
            none_word@ == "None"@,
            count_word@ == "INDEX_COUNT:"@,
            diffuse_word@ == "TEXTURE_DIFFUSE:"@,
            specular_word@ == "TEXTURE_SPECULAR:"@,
            emissive_word@ == "TEXTURE_EMISSIVE:"@,
            opacity_word@ == "TEXTURE_OPACITY:"@,
            ls == text_lines(text@),
            jv == names_view(bone_names@),
            init == (TextureProfile::BroadDefault, Seq::<VertexView>::empty(), None::<Seq<u32>>, Seq::<(TextureType, Seq<char>)>::empty()),
            scan_model(ls, jv, max_influences as nat, 0, init) == scan_model(
                ls,
                jv,
                max_influences as nat,
                i as nat,
                (profile, vertices_view(vertices@), indices_view(indices), textures_view(textures@)),
            ),
        decreases lines.len() - i,
    {
        let mut w = split_words(&lines[i]);
        assert(lines@[i as int]@ == ls[i as int]);
        if w.len() == 0 {
            i = i + 1;
        } else if chars_eq(&w[0], &profile_word) {
            if w.len() < 2 {
                return None;
            }
            let name = string_from_chars(w.remove(1));
            match TextureProfile::try_from_name(name.as_str()) {
                None => {
                    return None;
                },
                Some(p) => {
                    profile = p;
                },
            }
            i = i + 1;
        } else if chars_eq(&w[0], &vert_word) {
            if lines.len() - i <= 3 {
                return None;
            }
            assert(lines@[i + 1]@ == ls[i + 1]);
            assert(lines@[i + 2]@ == ls[i + 2]);
            assert(lines@[i + 3]@ == ls[i + 3]);
            if split_words(&lines[i + 1]).len() < 3 || split_words(&lines[i + 2]).len() < 3 || split_words(
                &lines[i + 3],
            ).len() < 2 {
                return None;
            }
            let has_color = lines.len() - i > 4 && starts_after_ws(&lines[i + 4], &color_word);
            proof {
                if lines.len() - i > 4 {
                    assert(lines@[i + 4]@ == ls[i + 4]);
                }
            }
            let wl = if has_color {
                i + 5
            } else {
                i + 4
            };
            if wl >= lines.len() {
                return None;
            }
            let ws = split_words(&lines[wl]);
            assert(lines@[wl as int]@ == ls[wl as int]);
            let ghost wv = words(ls[wl as int]);
            if ws.len() == 0 {
                return None;
            }
            let is_none = chars_eq(&ws[0], &none_word);
            if !is_none && (ws.len() % 2 != 0 || ws.len() / 2 > max_influences) {
                return None;
            }
            let ids = if is_none {
                Vec::new()
            } else {
                influences(&join, Ghost(jv), &ws, Ghost(wv))
            };
            let v = VertexRows {
                position_row: i + 1,
                color_row: if has_color {
                    Some(i + 4)
                } else {
                    None
                },
                weights_row: wl,
                bone_ids: ids,
            };
            let ghost vv = v.spec_view();
            let ghost before = vertices@;
            vertices.push(v);
            proof {
                assert(vv.3 == influences_of(jv, wv));
                assert(vertices_view(vertices@) =~= vertices_view(before).push(vv));
            }
            i = wl + 1;
        } else if chars_eq(&w[0], &count_word) {
            if w.len() < 2 {
                return None;
            }
            let count = match parse_u32_chars(&w[1]) {
                None => {
                    return None;
                },
                Some(c) => c,
            };
            if lines.len() - i <= 1 {
                return None;
            }
            let iw = split_words(&lines[i + 1]);
            assert(lines@[i + 1]@ == ls[i + 1]);
            match parse_indices(&iw, Ghost(words(ls[i + 1])), count) {
                None => {
                    return None;
                },
                Some(v) => {
                    indices = Some(v);
                },
            }
            i = i + 2;
        } else {
            let kind = if chars_eq(&w[0], &diffuse_word) {
                Some(TextureType::Diffuse)
            } else if chars_eq(&w[0], &specular_word) {
                Some(TextureType::Specular)
            } else if chars_eq(&w[0], &emissive_word) {
                Some(TextureType::Emissive)
            } else if chars_eq(&w[0], &opacity_word) {
                Some(TextureType::Opacity)
            } else {
                None
            };
            match kind {
                Some(t) => {
                    if w.len() < 2 {
                        return None;
                    }
                    let path = string_from_chars(w.remove(1));
                    let ghost before = textures@;
                    let ghost pv = path@;
                    textures.push((t, path));
                    proof {
                        assert(textures_view(textures@) =~= textures_view(before).push((t, pv)));
                    }
                },
                None => {},
            }
            i = i + 1;
        }
    }
    Some(ModelScan { texture_profile: profile, vertices, indices, textures })
}

} // verus!
