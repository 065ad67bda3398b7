//! A shader file holds the sources of a program's stages one after the other. A line
//! `// VERTEX_SHADER` starts the vertex stage and a line `// FRAGMENT_SHADER` the
//! fragment stage; spaces around a marker do not count. A line `// GEOMETRY_SHADER`
//! starts the geometry stage, which a file may leave out. The lines of a stage are kept as they are, each ended by a line feed; lines before the
//! first marker belong to no stage, and a stage that starts again starts empty.
//!
//! A line whose first word is `uniform` declares a uniform: its second word is the
//! type and its third the name, which loses an array suffix `[..]` and any `;`. A
//! `Material` uniform stands for its four texture fields and a `DirLight` uniform for
//! its five fields, each looked up as `name.field`.
use crate::text::{
    chars_eq, chars_of, is_white_space, split_lines, split_words, string_from_chars, text_lines,
    white_space, words,
};
use vstd::prelude::*;
use vstd::string::StringExecFns;

verus! {

/// The marker `m` stands at position `a` of the line, with only white space before and
/// after it.
pub open spec fn marker_at(l: Seq<char>, m: Seq<char>, a: int) -> bool {
    &&& 0 <= a
    &&& a + m.len() <= l.len()
    &&& forall|j: int| 0 <= j < a ==> is_white_space(#[trigger] l[j])
    &&& l.subrange(a, a + m.len()) == m
    &&& forall|j: int| a + m.len() <= j < l.len() ==> is_white_space(#[trigger] l[j])
}

/// The line is the marker `m` with white space around it, which is what the line
/// trimmed of white space equals when the marker neither starts nor ends with white
/// space.
pub open spec fn is_marker_line(l: Seq<char>, m: Seq<char>) -> bool {
    exists|a: int| #[trigger] marker_at(l, m, a)
}

/// The stages a shader file holds.
#[derive(Debug, Clone, Copy, PartialEq, Eq, Structural)]
pub enum ShaderStage {
    Vertex,
    Geometry,
    Fragment,
}

/// The stage a line starts, if it is a marker.
pub open spec fn stage_started_by(l: Seq<char>) -> Option<ShaderStage> {
    if is_marker_line(l, "// VERTEX_SHADER"@) {
        Some(ShaderStage::Vertex)
    } else if is_marker_line(l, "// FRAGMENT_SHADER"@) {
        Some(ShaderStage::Fragment)
    } else if is_marker_line(l, "// GEOMETRY_SHADER"@) {
        Some(ShaderStage::Geometry)
    } else {
        None
    }
}

/// The stage being read after the first `n` lines, and the vertex, geometry and
/// fragment sources so far, each present once its stage has started.
pub open spec fn stages_after(lines: Seq<Seq<char>>, n: nat) -> (
    Option<ShaderStage>,
    Option<Seq<char>>,
    Option<Seq<char>>,
    Option<Seq<char>>,
)
    decreases n,
{
    if n == 0 || n > lines.len() {
        (None, None, None, None)
    } else {
        let (cur, v, g, f) = stages_after(lines, (n - 1) as nat);
        let l = lines[n - 1];
        match stage_started_by(l) {
            Some(ShaderStage::Vertex) => (Some(ShaderStage::Vertex), Some(Seq::empty()), g, f),
            Some(ShaderStage::Geometry) => (Some(ShaderStage::Geometry), v, Some(Seq::empty()), f),
            Some(ShaderStage::Fragment) => (Some(ShaderStage::Fragment), v, g, Some(Seq::empty())),
            None => match cur {
                Some(ShaderStage::Vertex) => (cur, Some(v.unwrap() + l.push('\n')), g, f),
                Some(ShaderStage::Geometry) => (cur, v, Some(g.unwrap() + l.push('\n')), f),
                Some(ShaderStage::Fragment) => (cur, v, g, Some(f.unwrap() + l.push('\n'))),
                None => (cur, v, g, f),
            },
        }
    }
}

/// The vertex, geometry and fragment sources of a shader file, each present if its
/// stage occurs in it.
pub open spec fn shader_stages(text: Seq<char>) -> (Option<Seq<char>>, Option<Seq<char>>, Option<Seq<char>>) {
    let lines = text_lines(text);
    let (_, v, g, f) = stages_after(lines, lines.len());
    (v, g, f)
}

/// The sources of a shader program.
#[derive(Debug)]
pub struct ShaderSources {
    pub vertex: String,
    pub geometry: Option<String>,
    pub fragment: String,
}

fn marker_line_matches(l: &Vec<char>, m: &Vec<char>) -> (b: bool)
    requires
        m@.len() > 0,
        !is_white_space(m@[0]),
    ensures
        b == is_marker_line(l@, m@),
{
    let mut a: usize = 0;
    while a < l.len() && white_space(l[a])
        invariant
            a <= l.len(),
            forall|j: int| 0 <= j < a ==> is_white_space(#[trigger] l@[j]),
        decreases l.len() - a,
    {
        a = a + 1;
    }
    proof {
        assert forall|a2: int| #[trigger] marker_at(l@, m@, a2) implies a2 == a by {
            assert(l@.subrange(a2, a2 + m@.len())[0] == l@[a2]);
            if a2 < a {
                assert(is_white_space(l@[a2]));
            } else if a2 > a {
                assert(is_white_space(l@[a as int]));
            }
        }
    }
    if l.len() - a < m.len() {
        return false;
    }
    let mut i: usize = 0;
    while i < m.len()
        invariant
            a + m@.len() <= l@.len(),
            a <= l.len(),
            i <= m@.len(),
            forall|a2: int| #[trigger] marker_at(l@, m@, a2) ==> a2 == a,
            forall|j: int| 0 <= j < i ==> l@[a + j] == #[trigger] m@[j],
        decreases m.len() - i,
    {
        if l[a + i] != m[i] {
            proof {
                if marker_at(l@, m@, a as int) {
                    assert(l@.subrange(a as int, a + m@.len())[i as int] == l@[a + i]);
                }
                assert(!marker_at(l@, m@, a as int));
            }
            return false;
        }
        i = i + 1;
    }
    assert(l@.subrange(a as int, a + m@.len()) =~= m@);
    let mut j: usize = a + m.len();
    while j < l.len()
        invariant
            a + m@.len() <= j <= l@.len(),
            forall|a2: int| #[trigger] marker_at(l@, m@, a2) ==> a2 == a,
            forall|k: int| a + m@.len() <= k < j ==> is_white_space(#[trigger] l@[k]),
        decreases l.len() - j,
    {
        if !white_space(l[j]) {
            assert(!marker_at(l@, m@, a as int));
            return false;
        }
        j = j + 1;
    }
    assert(marker_at(l@, m@, a as int));
    true
}

fn append_line(buf: &mut Vec<char>, line: &Vec<char>)
    ensures
        final(buf)@ == old(buf)@ + line@.push('\n'),
{
    let mut i: usize = 0;
    while i < line.len()
        invariant
            i <= line.len(),
            buf@ == old(buf)@ + line@.take(i as int),
        decreases line.len() - i,
    {
        buf.push(line[i]);
        assert(line@.take(i as int + 1) =~= line@.take(i as int).push(line@[i as int]));
        i = i + 1;
    }
    buf.push('\n');
    assert(line@.take(line.len() as int) =~= line@);
    assert(old(buf)@ + line@.push('\n') =~= (old(buf)@ + line@).push('\n'));
}

/// The sources of the stages of a shader file; None when the file lacks the vertex
/// or the fragment stage. The geometry stage is there when the file has one.
pub fn extract_shader_sources(text: &str) -> (r: Option<ShaderSources>)
    ensures
        r is None <==> (shader_stages(text@).0 is None || shader_stages(text@).2 is None),
        r matches Some(src) ==> {
            &&& src.vertex@ == shader_stages(text@).0.unwrap()
            &&& src.fragment@ == shader_stages(text@).2.unwrap()
            &&& match src.geometry {
                Some(g) => shader_stages(text@).1 == Some(g@),
                None => shader_stages(text@).1 is None,
            }
        },
{
    let chars = chars_of(text);
    let lines = split_lines(&chars);
    let vertex_marker = chars_of("// VERTEX_SHADER");
    let fragment_marker = chars_of("// FRAGMENT_SHADER");
    let geometry_marker = chars_of("// GEOMETRY_SHADER");
    proof {
        reveal_strlit("// VERTEX_SHADER");
        reveal_strlit("// FRAGMENT_SHADER");
        reveal_strlit("// GEOMETRY_SHADER");
    }
    let ghost ls = text_lines(text@);
    let mut cur: Option<ShaderStage> = None;
    let mut vertex: Vec<char> = Vec::new();
    let mut vertex_started = false;
    let mut geometry: Vec<char> = Vec::new();
    let mut geometry_started = false;
    let mut fragment: Vec<char> = Vec::new();
    let mut fragment_started = false;
    let mut i: usize = 0;
    while i < lines.len()
        invariant
            i <= lines.len(),
            lines@.len() == ls.len(),
            ls == text_lines(text@),
            forall|k: int| 0 <= k < lines@.len() ==> (#[trigger] lines@[k])@ == ls[k],
            vertex_marker@ == "// VERTEX_SHADER"@,
            fragment_marker@ == "// FRAGMENT_SHADER"@,
            geometry_marker@ == "// GEOMETRY_SHADER"@,
            vertex_marker@.len() > 0 && !is_white_space(vertex_marker@[0]),
            fragment_marker@.len() > 0 && !is_white_space(fragment_marker@[0]),
            geometry_marker@.len() > 0 && !is_white_space(geometry_marker@[0]),
            cur == stages_after(ls, i as nat).0,
            vertex_started == stages_after(ls, i as nat).1 is Some,
            vertex_started ==> vertex@ == stages_after(ls, i as nat).1.unwrap(),
            geometry_started == stages_after(ls, i as nat).2 is Some,
            geometry_started ==> geometry@ == stages_after(ls, i as nat).2.unwrap(),
            fragment_started == stages_after(ls, i as nat).3 is Some,
            fragment_started ==> fragment@ == stages_after(ls, i as nat).3.unwrap(),
        decreases lines.len() - i,
    {
        let line = &lines[i];
        assert(line@ == ls[i as int]);
        if marker_line_matches(line, &vertex_marker) {
            cur = Some(ShaderStage::Vertex);
            vertex = Vec::new();
            vertex_started = true;
        } else if marker_line_matches(line, &fragment_marker) {
            cur = Some(ShaderStage::Fragment);
            fragment = Vec::new();
            fragment_started = true;
        } else if marker_line_matches(line, &geometry_marker) {
            cur = Some(ShaderStage::Geometry);
            geometry = Vec::new();
            geometry_started = true;
        } else {
            match cur {
                Some(ShaderStage::Vertex) => {
                    append_line(&mut vertex, line);
                },
                Some(ShaderStage::Geometry) => {
                    append_line(&mut geometry, line);
                },
                Some(ShaderStage::Fragment) => {
                    append_line(&mut fragment, line);
                },
                None => {},
            }
        }
        i = i + 1;
    }
    if vertex_started && fragment_started {
        Some(
            ShaderSources {
                vertex: string_from_chars(vertex),
                geometry: if geometry_started {
                    Some(string_from_chars(geometry))
                } else {
                    None
                },
                fragment: string_from_chars(fragment),
            },
        )
    } else {
        None
    }
}

/// The characters of `w` before its first `[`.
pub open spec fn before_bracket(w: Seq<char>) -> Seq<char>
    decreases w.len(),
{
    if w.len() == 0 {
        w
    } else if w[0] == '[' {
        Seq::empty()
    } else {
        seq![w[0]] + before_bracket(w.drop_first())
    }
}

/// The characters of `w` that are not `;`.
pub open spec fn without_semicolons(w: Seq<char>) -> Seq<char>
    decreases w.len(),
{
    if w.len() == 0 {
        w
    } else if w.last() == ';' {
        without_semicolons(w.drop_last())
    } else {
        without_semicolons(w.drop_last()).push(w.last())
    }
}

/// The name a uniform is looked up by, given the third word of its declaration.
pub open spec fn uniform_base_name(w: Seq<char>) -> Seq<char> {
    without_semicolons(before_bracket(w))
}

/// The names that a line makes the shader look up: none unless the line declares a
/// uniform; the fields of a `Material` or a `DirLight`; else the uniform's own name.
pub open spec fn uniform_names_of_line(line: Seq<char>) -> Seq<Seq<char>> {
    let w = words(line);
    if w.len() > 0 && w[0] == "uniform"@ {
        let n = uniform_base_name(w[2]);
        if w[1] == "Material"@ {
            seq![n + ".Diffuse"@, n + ".Specular"@, n + ".Emissive"@, n + ".Opacity"@]
        } else if w[1] == "DirLight"@ {
            seq![
                n + ".direction"@,
                n + ".view_pos"@,
                n + ".ambient"@,
                n + ".diffuse"@,
                n + ".specular"@,
            ]
        } else {
            seq![n]
        }
    } else {
        Seq::empty()
    }
}

/// The names that `lines` make the shader look up, line by line.
pub open spec fn uniform_names(lines: Seq<Seq<char>>) -> Seq<Seq<char>>
    decreases lines.len(),
{
    if lines.len() == 0 {
        Seq::empty()
    } else {
        uniform_names(lines.drop_last()) + uniform_names_of_line(lines.last())
    }
}

/// A line that starts a uniform declaration but lacks its type or its name.
pub open spec fn is_short_uniform_line(line: Seq<char>) -> bool {
    words(line).len() > 0 && words(line)[0] == "uniform"@ && words(line).len() < 3
}

proof fn lemma_before_bracket_prefix(w: Seq<char>, k: int)
    requires
        0 <= k <= w.len(),
        forall|j: int| 0 <= j < k ==> w[j] != '[',
        k == w.len() || w[k] == '[',
    ensures
        before_bracket(w) == w.take(k),
    decreases w.len(),
{
    if w.len() > 0 && k > 0 {
        lemma_before_bracket_prefix(w.drop_first(), k - 1);
        assert(w.take(k) =~= seq![w[0]] + w.drop_first().take(k - 1));
    } else if w.len() > 0 {
        assert(w.take(k) =~= Seq::<char>::empty());
    }
}

/// The uniform name written as `word`: its characters before a `[`, without `;`.
fn base_name(word: &Vec<char>) -> (r: Vec<char>)
    ensures
        r@ == uniform_base_name(word@),
{
    let mut out: Vec<char> = Vec::new();
    let mut k: usize = 0;
    while k < word.len()
        invariant
            k <= word@.len(),
            forall|j: int| 0 <= j < k ==> word@[j] != '[',
            out@ == without_semicolons(word@.take(k as int)),
        ensures
            k <= word@.len(),
            forall|j: int| 0 <= j < k ==> word@[j] != '[',
            out@ == without_semicolons(word@.take(k as int)),
            k == word@.len() || word@[k as int] == '[',
        decreases word@.len() - k,
    {
        let c = word[k];
        if c == '[' {
            break;
        }
        assert(word@.take(k + 1).drop_last() =~= word@.take(k as int));
        if c != ';' {
            out.push(c);
        }
        k = k + 1;
    }
    proof {
        lemma_before_bracket_prefix(word@, k as int);
    }
    out
}

/// The names of the uniforms that the shader source `text` declares, in the order of
/// their lines, as its program looks them up.
pub fn parse_uniform_names(text: &str) -> (r: Vec<String>)
    requires
        forall|i: int|
            0 <= i < text_lines(text@).len() ==> !is_short_uniform_line(
                #[trigger] text_lines(text@)[i],
            ),
    ensures
        r@.len() == uniform_names(text_lines(text@)).len(),
        forall|k: int| 0 <= k < r@.len() ==> (#[trigger] r@[k])@ == uniform_names(text_lines(text@))[k],
{
    let chars = chars_of(text);
    let lines = split_lines(&chars);
    let keyword = chars_of("uniform");
    let material = chars_of("Material");
    let dir_light = chars_of("DirLight");
    let ghost all = text_lines(text@);
    let mut out: Vec<String> = Vec::new();
    let mut i: usize = 0;
    while i < lines.len()
        invariant
            lines@.len() == all.len(),
            forall|k: int| 0 <= k < lines@.len() ==> (#[trigger] lines@[k])@ == all[k],
            forall|k: int| 0 <= k < all.len() ==> !is_short_uniform_line(#[trigger] all[k]),
            keyword@ == "uniform"@,
            material@ == "Material"@,
            dir_light@ == "DirLight"@,
            i <= lines@.len(),
            out@.len() == uniform_names(all.take(i as int)).len(),
            forall|k: int|
                0 <= k < out@.len() ==> (#[trigger] out@[k])@ == uniform_names(all.take(i as int))[k],
        decreases lines@.len() - i,
    {
        let ghost before = out@;
        let ghost line = all[i as int];
        proof {
            assert(all.take(i + 1).drop_last() =~= all.take(i as int));
            assert(all.take(i + 1).last() == line);
        }
        let parts = split_words(&lines[i]);
        if parts.len() > 0 && chars_eq(&parts[0], &keyword) {
            assert(parts@.len() >= 3) by {
                assert(!is_short_uniform_line(all[i as int]));
            }
            let name = string_from_chars(base_name(&parts[2]));
            let ghost n = name@;
            if chars_eq(&parts[1], &material) {
                out.push(name.clone().concat(".Diffuse"));
                out.push(name.clone().concat(".Specular"));
                out.push(name.clone().concat(".Emissive"));
                out.push(name.concat(".Opacity"));
            } else if chars_eq(&parts[1], &dir_light) {
                out.push(name.clone().concat(".direction"));
                out.push(name.clone().concat(".view_pos"));
                out.push(name.clone().concat(".ambient"));
                out.push(name.clone().concat(".diffuse"));
                out.push(name.concat(".specular"));
            } else {
                out.push(name);
            }
            proof {
                let added = uniform_names_of_line(line);
                assert(out@.len() == before.len() + added.len());
                assert forall|k: int| 0 <= k < out@.len() implies (#[trigger] out@[k])@
                    == uniform_names(all.take(i + 1))[k] by {
                    if k < before.len() {
                        assert(out@[k] == before[k]);
                    }
                }
            }
        } else {
            proof {
                assert(uniform_names_of_line(line) =~= Seq::<Seq<char>>::empty());
                assert(uniform_names(all.take(i + 1)) =~= uniform_names(all.take(i as int)));
            }
        }
        i = i + 1;
    }
    proof {
        assert(all.take(lines@.len() as int) =~= all);
    }
    out
}

} // verus!
