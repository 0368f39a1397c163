//! The scene description: one entry per line, tokens separated by single
//! spaces, the first token naming the kind of line.
//!
//! ```text
//! P name x y z                    a named point
//! OBJ / END_OBJ                   open and close an object
//! M R deg ax ay az dx dy dz       the open object's rotation (the first one counts)
//! T a b c glyph                   a triangle over three named points
//! S center radius glyph           a sphere around a named point
//! TRS dx dy dz px py pz R r glyph a torus: axis, center, major and minor radius
//! C O dx dy dz px py pz scale     an orthographic camera (the first one counts)
//! C P dx dy dz px py pz scale f   a perspective camera with focal distance f
//! L D dx dy dz lum motion..       a directional light
//! L P px py pz lum motion..       a point light
//! STL file motion..               a mesh read from a file beside the scene file
//! // ...                          a comment
//! ```
//!
//! A motion is `R deg ax ay az dx dy dz` or any other single token for none.
//! Numbers stay as the tokens that were written; the renderer reads them.
use vstd::prelude::*;
use crate::paths::{dir_of, joined_path, same_dir_file};
use crate::text::{parse_char, split_on, split_spec, token_is};

verus! {

#[derive(PartialEq, Eq, Structural, Clone, Copy, Debug)]
pub enum ShapeKind {
    /// Numbers: the three corners, x y z each.
    Triangle,
    /// Numbers: the center x y z, then the radius.
    Sphere,
    /// Numbers: the axis x y z, the center x y z, the major and the minor radius.
    Torus,
}

/// A primitive of an object.
#[derive(Debug)]
pub struct Shape {
    pub kind: ShapeKind,
    pub nums: Vec<String>,
    pub color: char,
}

pub struct ShapeModel {
    pub kind: ShapeKind,
    pub nums: Seq<Seq<char>>,
    pub color: char,
}

impl DeepView for Shape {
    type V = ShapeModel;

    open spec fn deep_view(&self) -> ShapeModel {
        ShapeModel { kind: self.kind, nums: self.nums.deep_view(), color: self.color }
    }
}

/// A rotation: its rate in degrees per unit of time, a point of its axis
/// (x y z) and the axis direction (x y z).
#[derive(Debug)]
pub struct Rotation {
    pub nums: Vec<String>,
}

impl DeepView for Rotation {
    type V = Seq<Seq<char>>;

    open spec fn deep_view(&self) -> Seq<Seq<char>> {
        self.nums.deep_view()
    }
}

/// A top-level entry of the scene.
#[derive(Debug)]
pub enum Group {
    Object { children: Vec<Shape>, motion: Option<Rotation> },
    /// A mesh file, its path resolved against the scene file's directory.
    Mesh { path: String, motion: Option<Rotation> },
}

pub enum GroupModel {
    Object { children: Seq<ShapeModel>, motion: Option<Seq<Seq<char>>> },
    Mesh { path: Seq<char>, motion: Option<Seq<Seq<char>>> },
}

impl DeepView for Group {
    type V = GroupModel;

    open spec fn deep_view(&self) -> GroupModel {
        match self {
            Group::Object { children, motion } => GroupModel::Object {
                children: children.deep_view(),
                motion: motion.deep_view(),
            },
            Group::Mesh { path, motion } => GroupModel::Mesh {
                path: path@,
                motion: motion.deep_view(),
            },
        }
    }
}

#[derive(PartialEq, Eq, Structural, Clone, Copy, Debug)]
pub enum CameraKind {
    /// Numbers: direction x y z, position x y z, scale.
    Ortho,
    /// Numbers: direction x y z, position x y z, scale, focal distance.
    Perspective,
}

#[derive(Debug)]
pub struct CameraSetup {
    pub kind: CameraKind,
    pub nums: Vec<String>,
}

pub struct CameraModel {
    pub kind: CameraKind,
    pub nums: Seq<Seq<char>>,
}

impl DeepView for CameraSetup {
    type V = CameraModel;

    open spec fn deep_view(&self) -> CameraModel {
        CameraModel { kind: self.kind, nums: self.nums.deep_view() }
    }
}

#[derive(PartialEq, Eq, Structural, Clone, Copy, Debug)]
pub enum LightKind {
    /// Numbers: direction x y z, intensity.
    Directional,
    /// Numbers: position x y z, intensity.
    Point,
}

#[derive(Debug)]
pub struct LightSetup {
    pub kind: LightKind,
    pub nums: Vec<String>,
    pub motion: Option<Rotation>,
}

pub struct LightModel {
    pub kind: LightKind,
    pub nums: Seq<Seq<char>>,
    pub motion: Option<Seq<Seq<char>>>,
}

impl DeepView for LightSetup {
    type V = LightModel;

    open spec fn deep_view(&self) -> LightModel {
        LightModel { kind: self.kind, nums: self.nums.deep_view(), motion: self.motion.deep_view() }
    }
}

#[derive(Debug)]
pub struct Scene {
    pub groups: Vec<Group>,
    pub camera: CameraSetup,
    pub lights: Vec<LightSetup>,
}

pub struct SceneModel {
    pub groups: Seq<GroupModel>,
    pub camera: CameraModel,
    pub lights: Seq<LightModel>,
}

impl DeepView for Scene {
    type V = SceneModel;

    open spec fn deep_view(&self) -> SceneModel {
        SceneModel {
            groups: self.groups.deep_view(),
            camera: self.camera.deep_view(),
            lights: self.lights.deep_view(),
        }
    }
}

/// Why a line was refused.
#[derive(PartialEq, Eq, Structural, Clone, Copy, Debug)]
pub enum LineFault {
    /// The line has fewer tokens than its kind needs.
    MissingField,
    /// A point name that no earlier `P` line defined.
    UnknownPoint,
    /// An empty glyph token.
    EmptyGlyph,
    /// The first token names no kind of line.
    UnknownKind,
    /// A light that is neither `D` nor `P`.
    UnknownLight,
    /// A mesh line in a description that was not read from a file.
    MeshWithoutFile,
}

#[derive(PartialEq, Eq, Structural, Clone, Copy, Debug)]
pub enum SceneError {
    /// The line at this index (from 0) was refused.
    Line { line: usize, fault: LineFault },
    /// No line set up a camera.
    NoCamera,
}

/// The named points, in order of definition; a later definition hides an earlier one.
pub type Points = Seq<(Seq<char>, Seq<Seq<char>>)>;

pub open spec fn lookup(points: Points, name: Seq<char>) -> Option<Seq<Seq<char>>>
    decreases points.len(),
{
    if points.len() == 0 {
        None
    } else if points.last().0 == name {
        Some(points.last().1)
    } else {
        lookup(points.drop_last(), name)
    }
}

/// Reads the motion that `args` start with.
pub open spec fn motion_spec(args: Seq<Seq<char>>) -> Result<Option<Seq<Seq<char>>>, LineFault> {
    if args.len() == 0 {
        Err(LineFault::MissingField)
    } else if args[0] == seq!['R'] {
        if args.len() < 8 {
            Err(LineFault::MissingField)
        } else {
            Ok(Some(args.subrange(1, 8)))
        }
    } else {
        Ok(None)
    }
}

/// Copies the tokens `toks[from..to]`.
fn copy_tokens(toks: &Vec<String>, from: usize, to: usize) -> (r: Vec<String>)
    requires
        from <= to <= toks.len(),
    ensures
        r.deep_view() == toks.deep_view().subrange(from as int, to as int),
{
    let mut r: Vec<String> = Vec::new();
    let mut i: usize = from;
    while i < to
        invariant
            from <= i <= to <= toks.len(),
            r.deep_view() == toks.deep_view().subrange(from as int, i as int),
        decreases to - i,
    {
        let ghost before = r.deep_view();
        r.push(toks[i].clone());
        assert(r.deep_view() =~= before.push(toks[i as int]@));
        i = i + 1;
        assert(r.deep_view() =~= toks.deep_view().subrange(from as int, i as int));
    }
    r
}

/// The coordinates of the point last defined under `name`.
fn lookup_point(points: &Vec<(String, Vec<String>)>, name: &String) -> (r: Option<Vec<String>>)
    ensures
        r.deep_view() == lookup(points.deep_view(), name@),
{
    let mut i: usize = points.len();
    assert(points.deep_view().subrange(0, i as int) =~= points.deep_view());
    while i > 0
        invariant
            i <= points.len(),
            lookup(points.deep_view(), name@) == lookup(
                points.deep_view().subrange(0, i as int),
                name@,
            ),
        decreases i,
    {
        let ghost pre = points.deep_view().subrange(0, i as int);
        assert(pre.drop_last() =~= points.deep_view().subrange(0, i - 1));
        if points[i - 1].0 == *name {
            let coords = &points[i - 1].1;
            return Some(copy_tokens(coords, 0, coords.len()));
        }
        i = i - 1;
    }
    None
}

/// Reads the motion in `toks[at..]`.
fn read_motion(toks: &Vec<String>, at: usize) -> (r: Result<Option<Rotation>, LineFault>)
    requires
        at <= toks.len(),
    ensures
        match r {
            Ok(m) => motion_spec(toks.deep_view().subrange(at as int, toks.len() as int)) == Ok::<
                _,
                LineFault,
            >(m.deep_view()),
            Err(f) => motion_spec(toks.deep_view().subrange(at as int, toks.len() as int))
                == Err::<Option<Seq<Seq<char>>>, _>(f),
        },
{
    let ghost args = toks.deep_view().subrange(at as int, toks.len() as int);
    if at == toks.len() {
        return Err(LineFault::MissingField);
    }
    proof {
        reveal_strlit("R");
    }
    assert("R"@ =~= seq!['R']);
    if token_is(&toks[at], "R") {
        if toks.len() - at < 8 {
            Err(LineFault::MissingField)
        } else {
            let nums = copy_tokens(toks, at + 1, at + 8);
            assert(nums.deep_view() =~= args.subrange(1, 8));
            Ok(Some(Rotation { nums }))
        }
    } else {
        Ok(None)
    }
}

/// The kinds of line, named by a line's first token.
#[derive(PartialEq, Eq, Structural, Clone, Copy, Debug)]
pub enum LineKind {
    Point,
    Open,
    Close,
    Motion,
    Triangle,
    Sphere,
    Torus,
    Camera,
    Light,
    Mesh,
    Comment,
    Unknown,
}

pub open spec fn kind_spec(w: Seq<char>) -> LineKind {
    if w == seq!['P'] {
        LineKind::Point
    } else if w == seq!['O', 'B', 'J'] {
        LineKind::Open
    } else if w == seq!['E', 'N', 'D', '_', 'O', 'B', 'J'] {
        LineKind::Close
    } else if w == seq!['M'] {
        LineKind::Motion
    } else if w == seq!['T'] {
        LineKind::Triangle
    } else if w == seq!['S'] {
        LineKind::Sphere
    } else if w == seq!['T', 'R', 'S'] {
        LineKind::Torus
    } else if w == seq!['C'] {
        LineKind::Camera
    } else if w == seq!['L'] {
        LineKind::Light
    } else if w == seq!['S', 'T', 'L'] {
        LineKind::Mesh
    } else if w == seq!['/', '/'] {
        LineKind::Comment
    } else {
        LineKind::Unknown
    }
}

/// The kind of line that the token `w` opens.
pub fn line_kind(w: &String) -> (r: LineKind)
    ensures
        r == kind_spec(w@),
{
    proof {
        reveal_strlit("P");
        reveal_strlit("OBJ");
        reveal_strlit("END_OBJ");
        reveal_strlit("M");
        reveal_strlit("T");
        reveal_strlit("S");
        reveal_strlit("TRS");
        reveal_strlit("C");
        reveal_strlit("L");
        reveal_strlit("STL");
        reveal_strlit("//");
    }
    assert("P"@ =~= seq!['P']);
    assert("OBJ"@ =~= seq!['O', 'B', 'J']);
    assert("END_OBJ"@ =~= seq!['E', 'N', 'D', '_', 'O', 'B', 'J']);
    assert("M"@ =~= seq!['M']);
    assert("T"@ =~= seq!['T']);
    assert("S"@ =~= seq!['S']);
    assert("TRS"@ =~= seq!['T', 'R', 'S']);
    assert("C"@ =~= seq!['C']);
    assert("L"@ =~= seq!['L']);
    assert("STL"@ =~= seq!['S', 'T', 'L']);
    assert("//"@ =~= seq!['/', '/']);
    if token_is(w, "P") {
        LineKind::Point
    } else if token_is(w, "OBJ") {
        LineKind::Open
    } else if token_is(w, "END_OBJ") {
        LineKind::Close
    } else if token_is(w, "M") {
        LineKind::Motion
    } else if token_is(w, "T") {
        LineKind::Triangle
    } else if token_is(w, "S") {
        LineKind::Sphere
    } else if token_is(w, "TRS") {
        LineKind::Torus
    } else if token_is(w, "C") {
        LineKind::Camera
    } else if token_is(w, "L") {
        LineKind::Light
    } else if token_is(w, "STL") {
        LineKind::Mesh
    } else if token_is(w, "//") {
        LineKind::Comment
    } else {
        LineKind::Unknown
    }
}

/// A glyph token gives its first character.
pub open spec fn glyph_spec(t: Seq<char>) -> Result<char, LineFault> {
    if t.len() == 0 {
        Err(LineFault::EmptyGlyph)
    } else {
        Ok(t[0])
    }
}

fn read_glyph(t: &String) -> (r: Result<char, LineFault>)
    ensures
        r == glyph_spec(t@),
{
    if t.as_str().unicode_len() == 0 {
        Err(LineFault::EmptyGlyph)
    } else {
        Ok(parse_char(t))
    }
}

/// `T a b c glyph`: the corners are the coordinates of three named points.
pub open spec fn triangle_spec(points: Points, toks: Seq<Seq<char>>) -> Result<ShapeModel, LineFault> {
    if toks.len() < 5 {
        Err(LineFault::MissingField)
    } else {
        match (lookup(points, toks[1]), lookup(points, toks[2]), lookup(points, toks[3])) {
            (Some(a), Some(b), Some(c)) => match glyph_spec(toks[4]) {
                Ok(g) => Ok(ShapeModel { kind: ShapeKind::Triangle, nums: a + b + c, color: g }),
                Err(f) => Err(f),
            },
            _ => Err(LineFault::UnknownPoint),
        }
    }
}

/// `S center radius glyph`.
pub open spec fn sphere_spec(points: Points, toks: Seq<Seq<char>>) -> Result<ShapeModel, LineFault> {
    if toks.len() < 4 {
        Err(LineFault::MissingField)
    } else {
        match lookup(points, toks[1]) {
            Some(o) => match glyph_spec(toks[3]) {
                Ok(g) => Ok(ShapeModel { kind: ShapeKind::Sphere, nums: o.push(toks[2]), color: g }),
                Err(f) => Err(f),
            },
            None => Err(LineFault::UnknownPoint),
        }
    }
}

/// `TRS dx dy dz px py pz R r glyph`.
pub open spec fn torus_spec(toks: Seq<Seq<char>>) -> Result<ShapeModel, LineFault> {
    if toks.len() < 10 {
        Err(LineFault::MissingField)
    } else {
        match glyph_spec(toks[9]) {
            Ok(g) => Ok(ShapeModel { kind: ShapeKind::Torus, nums: toks.subrange(1, 9), color: g }),
            Err(f) => Err(f),
        }
    }
}

/// Appends the tokens of `b` to those of `a`.
fn concat_tokens(a: Vec<String>, b: Vec<String>) -> (r: Vec<String>)
    ensures
        r.deep_view() == a.deep_view() + b.deep_view(),
{
    let mut a = a;
    let mut b = b;
    let ghost a0 = a;
    let ghost b0 = b;
    a.append(&mut b);
    assert(a.deep_view() =~= a0.deep_view() + b0.deep_view());
    a
}

fn read_triangle(points: &Vec<(String, Vec<String>)>, toks: &Vec<String>) -> (r: Result<
    Shape,
    LineFault,
>)
    ensures
        match r {
            Ok(s) => triangle_spec(points.deep_view(), toks.deep_view()) == Ok::<_, LineFault>(
                s.deep_view(),
            ),
            Err(f) => triangle_spec(points.deep_view(), toks.deep_view()) == Err::<ShapeModel, _>(
                f,
            ),
        },
{
    if toks.len() < 5 {
        return Err(LineFault::MissingField);
    }
    let a = lookup_point(points, &toks[1]);
    let b = lookup_point(points, &toks[2]);
    let c = lookup_point(points, &toks[3]);
    match (a, b, c) {
        (Some(a), Some(b), Some(c)) => {
            let color = read_glyph(&toks[4])?;
            let ab = concat_tokens(a, b);
            let nums = concat_tokens(ab, c);
            Ok(Shape { kind: ShapeKind::Triangle, nums, color })
        },
        _ => Err(LineFault::UnknownPoint),
    }
}

fn read_sphere(points: &Vec<(String, Vec<String>)>, toks: &Vec<String>) -> (r: Result<
    Shape,
    LineFault,
>)
    ensures
        match r {
            Ok(s) => sphere_spec(points.deep_view(), toks.deep_view()) == Ok::<_, LineFault>(
                s.deep_view(),
            ),
            Err(f) => sphere_spec(points.deep_view(), toks.deep_view()) == Err::<ShapeModel, _>(f),
        },
{
    if toks.len() < 4 {
        return Err(LineFault::MissingField);
    }
    match lookup_point(points, &toks[1]) {
        Some(o) => {
            let color = read_glyph(&toks[3])?;
            let mut nums = o;
            let ghost before = nums.deep_view();
            nums.push(toks[2].clone());
            assert(nums.deep_view() =~= before.push(toks[2]@));
            Ok(Shape { kind: ShapeKind::Sphere, nums, color })
        },
        None => Err(LineFault::UnknownPoint),
    }
}

fn read_torus(toks: &Vec<String>) -> (r: Result<Shape, LineFault>)
    ensures
        match r {
            Ok(s) => torus_spec(toks.deep_view()) == Ok::<_, LineFault>(s.deep_view()),
            Err(f) => torus_spec(toks.deep_view()) == Err::<ShapeModel, _>(f),
        },
{
    if toks.len() < 10 {
        return Err(LineFault::MissingField);
    }
    let color = read_glyph(&toks[9])?;
    let nums = copy_tokens(toks, 1, 9);
    Ok(Shape { kind: ShapeKind::Torus, nums, color })
}

/// `C O ...` or `C P ...`; another camera kind sets up no camera.
pub open spec fn camera_spec(toks: Seq<Seq<char>>) -> Result<Option<CameraModel>, LineFault> {
    if toks.len() < 2 {
        Err(LineFault::MissingField)
    } else if toks[1] == seq!['O'] {
        if toks.len() < 9 {
            Err(LineFault::MissingField)
        } else {
            Ok(Some(CameraModel { kind: CameraKind::Ortho, nums: toks.subrange(2, 9) }))
        }
    } else if toks[1] == seq!['P'] {
        if toks.len() < 10 {
            Err(LineFault::MissingField)
        } else {
            Ok(Some(CameraModel { kind: CameraKind::Perspective, nums: toks.subrange(2, 10) }))
        }
    } else {
        Ok(None)
    }
}

fn read_camera(toks: &Vec<String>) -> (r: Result<Option<CameraSetup>, LineFault>)
    ensures
        match r {
            Ok(c) => camera_spec(toks.deep_view()) == Ok::<_, LineFault>(c.deep_view()),
            Err(f) => camera_spec(toks.deep_view()) == Err::<Option<CameraModel>, _>(f),
        },
{
    if toks.len() < 2 {
        return Err(LineFault::MissingField);
    }
    proof {
        reveal_strlit("O");
        reveal_strlit("P");
    }
    assert("O"@ =~= seq!['O']);
    assert("P"@ =~= seq!['P']);
    if token_is(&toks[1], "O") {
        if toks.len() < 9 {
            return Err(LineFault::MissingField);
        }
        Ok(Some(CameraSetup { kind: CameraKind::Ortho, nums: copy_tokens(toks, 2, 9) }))
    } else if token_is(&toks[1], "P") {
        if toks.len() < 10 {
            return Err(LineFault::MissingField);
        }
        Ok(Some(CameraSetup { kind: CameraKind::Perspective, nums: copy_tokens(toks, 2, 10) }))
    } else {
        Ok(None)
    }
}

/// `L D dx dy dz lum motion..` or `L P px py pz lum motion..`.
pub open spec fn light_spec(toks: Seq<Seq<char>>) -> Result<LightModel, LineFault> {
    if toks.len() < 2 {
        Err(LineFault::MissingField)
    } else if toks[1] != seq!['D'] && toks[1] != seq!['P'] {
        Err(LineFault::UnknownLight)
    } else if toks.len() < 6 {
        Err(LineFault::MissingField)
    } else {
        let kind = if toks[1] == seq!['D'] {
            LightKind::Directional
        } else {
            LightKind::Point
        };
        match motion_spec(toks.subrange(6, toks.len() as int)) {
            Ok(m) => Ok(LightModel { kind, nums: toks.subrange(2, 6), motion: m }),
            Err(f) => Err(f),
        }
    }
}

fn read_light(toks: &Vec<String>) -> (r: Result<LightSetup, LineFault>)
    ensures
        match r {
            Ok(l) => light_spec(toks.deep_view()) == Ok::<_, LineFault>(l.deep_view()),
            Err(f) => light_spec(toks.deep_view()) == Err::<LightModel, _>(f),
        },
{
    if toks.len() < 2 {
        return Err(LineFault::MissingField);
    }
    proof {
        reveal_strlit("D");
        reveal_strlit("P");
    }
    assert("D"@ =~= seq!['D']);
    assert("P"@ =~= seq!['P']);
    let kind = if token_is(&toks[1], "D") {
        LightKind::Directional
    } else if token_is(&toks[1], "P") {
        LightKind::Point
    } else {
        return Err(LineFault::UnknownLight);
    };
    if toks.len() < 6 {
        return Err(LineFault::MissingField);
    }
    let motion = read_motion(toks, 6)?;
    Ok(LightSetup { kind, nums: copy_tokens(toks, 2, 6), motion })
}

/// `STL file motion..`, read beside the scene file `base`.
pub open spec fn mesh_spec(toks: Seq<Seq<char>>, base: Option<Seq<char>>) -> Result<
    GroupModel,
    LineFault,
> {
    match base {
        None => Err(LineFault::MeshWithoutFile),
        Some(b) => if toks.len() < 2 {
            Err(LineFault::MissingField)
        } else {
            match motion_spec(toks.subrange(2, toks.len() as int)) {
                Ok(m) => Ok(GroupModel::Mesh { path: joined_path(dir_of(b), toks[1]), motion: m }),
                Err(f) => Err(f),
            }
        },
    }
}

fn read_mesh(toks: &Vec<String>, base: Option<&str>) -> (r: Result<Group, LineFault>)
    ensures
        match r {
            Ok(g) => mesh_spec(toks.deep_view(), base.deep_view()) == Ok::<_, LineFault>(
                g.deep_view(),
            ),
            Err(f) => mesh_spec(toks.deep_view(), base.deep_view()) == Err::<GroupModel, _>(f),
        },
{
    match base {
        None => Err(LineFault::MeshWithoutFile),
        Some(b) => {
            if toks.len() < 2 {
                return Err(LineFault::MissingField);
            }
            let motion = read_motion(toks, 2)?;
            let path = same_dir_file(toks[1].as_str(), b);
            Ok(Group::Mesh { path, motion })
        },
    }
}

/// What has been read after some lines of a description.
pub struct ParseState {
    pub points: Points,
    pub groups: Seq<GroupModel>,
    /// The shapes of the object that is open.
    pub children: Seq<ShapeModel>,
    /// The motion of the object that is open.
    pub motion: Option<Seq<Seq<char>>>,
    pub camera: Option<CameraModel>,
    pub lights: Seq<LightModel>,
}

pub open spec fn empty_state() -> ParseState {
    ParseState {
        points: Seq::empty(),
        groups: Seq::empty(),
        children: Seq::empty(),
        motion: None,
        camera: None,
        lights: Seq::empty(),
    }
}

pub open spec fn add_child(st: ParseState, s: Result<ShapeModel, LineFault>) -> Result<
    ParseState,
    LineFault,
> {
    match s {
        Ok(m) => Ok(ParseState { children: st.children.push(m), ..st }),
        Err(f) => Err(f),
    }
}

/// The effect of one line, given as its tokens.
pub open spec fn step_spec(st: ParseState, toks: Seq<Seq<char>>, base: Option<Seq<char>>) -> Result<
    ParseState,
    LineFault,
> {
    match kind_spec(toks[0]) {
        LineKind::Point => if toks.len() < 5 {
            Err(LineFault::MissingField)
        } else {
            Ok(ParseState { points: st.points.push((toks[1], toks.subrange(2, 5))), ..st })
        },
        LineKind::Open => Ok(st),
        LineKind::Close => Ok(
            ParseState {
                groups: st.groups.push(
                    GroupModel::Object { children: st.children, motion: st.motion },
                ),
                children: Seq::empty(),
                motion: None,
                ..st
            },
        ),
        LineKind::Motion => if st.motion is Some {
            Ok(st)
        } else {
            match motion_spec(toks.drop_first()) {
                Ok(m) => Ok(ParseState { motion: m, ..st }),
                Err(f) => Err(f),
            }
        },
        LineKind::Triangle => add_child(st, triangle_spec(st.points, toks)),
        LineKind::Sphere => add_child(st, sphere_spec(st.points, toks)),
        LineKind::Torus => add_child(st, torus_spec(toks)),
        LineKind::Camera => if st.camera is Some {
            Ok(st)
        } else {
            match camera_spec(toks) {
                Ok(c) => Ok(ParseState { camera: c, ..st }),
                Err(f) => Err(f),
            }
        },
        LineKind::Light => match light_spec(toks) {
            Ok(l) => Ok(ParseState { lights: st.lights.push(l), ..st }),
            Err(f) => Err(f),
        },
        LineKind::Mesh => match mesh_spec(toks, base) {
            Ok(g) => Ok(ParseState { groups: st.groups.push(g), ..st }),
            Err(f) => Err(f),
        },
        LineKind::Comment => Ok(st),
        LineKind::Unknown => Err(LineFault::UnknownKind),
    }
}

/// The state after the first `n` lines, or the first refused line among them.
pub open spec fn run_spec(lines: Seq<Seq<char>>, base: Option<Seq<char>>, n: nat) -> Result<
    ParseState,
    SceneError,
>
    decreases n,
{
    if n == 0 {
        Ok(empty_state())
    } else {
        match run_spec(lines, base, (n - 1) as nat) {
            Ok(st) => match step_spec(st, split_spec(lines[n - 1], ' '), base) {
                Ok(next) => Ok(next),
                Err(f) => Err(SceneError::Line { line: (n - 1) as usize, fault: f }),
            },
            Err(e) => Err(e),
        }
    }
}

/// The scene that a whole description sets up. Shapes after the last
/// `END_OBJ` belong to no object and are left out.
pub open spec fn scene_spec(lines: Seq<Seq<char>>, base: Option<Seq<char>>) -> Result<
    SceneModel,
    SceneError,
> {
    match run_spec(lines, base, lines.len()) {
        Ok(st) => match st.camera {
            Some(c) => Ok(SceneModel { groups: st.groups, camera: c, lights: st.lights }),
            None => Err(SceneError::NoCamera),
        },
        Err(e) => Err(e),
    }
}

struct Reader {
    /// The named points in order of definition, searched from the back so that
    /// a later definition hides an earlier one. A `HashMap` keyed by `String`
    /// would do the same, but Verus proves nothing of such a map's contents.
    points: Vec<(String, Vec<String>)>,
    groups: Vec<Group>,
    children: Vec<Shape>,
    motion: Option<Rotation>,
    camera: Option<CameraSetup>,
    lights: Vec<LightSetup>,
}

impl DeepView for Reader {
    type V = ParseState;

    closed spec fn deep_view(&self) -> ParseState {
        ParseState {
            points: self.points.deep_view(),
            groups: self.groups.deep_view(),
            children: self.children.deep_view(),
            motion: self.motion.deep_view(),
            camera: self.camera.deep_view(),
            lights: self.lights.deep_view(),
        }
    }
}

impl Reader {
    /// Reads one line, given as its tokens.
    fn read_line(&mut self, toks: &Vec<String>, base: Option<&str>) -> (r: Result<(), LineFault>)
        requires
            toks.len() >= 1,
        ensures
            match step_spec(old(self).deep_view(), toks.deep_view(), base.deep_view()) {
                Ok(st) => r is Ok && final(self).deep_view() == st,
                Err(f) => r == Err::<(), _>(f),
            },
    {
        match line_kind(&toks[0]) {
            LineKind::Point => {
                if toks.len() < 5 {
                    return Err(LineFault::MissingField);
                }
                let ghost before = self.points.deep_view();
                self.points.push((toks[1].clone(), copy_tokens(toks, 2, 5)));
                assert(self.points.deep_view() =~= before.push(
                    (toks.deep_view()[1], toks.deep_view().subrange(2, 5)),
                ));
                Ok(())
            },
            LineKind::Open => Ok(()),
            LineKind::Close => {
                let mut children: Vec<Shape> = Vec::new();
                let mut motion: Option<Rotation> = None;
                std::mem::swap(&mut children, &mut self.children);
                std::mem::swap(&mut motion, &mut self.motion);
                let ghost before = self.groups.deep_view();
                let g = Group::Object { children, motion };
                self.groups.push(g);
                assert(self.groups.deep_view() =~= before.push(g.deep_view()));
                assert(self.children.deep_view() =~= Seq::<ShapeModel>::empty());
                Ok(())
            },
            LineKind::Motion => {
                if self.motion.is_some() {
                    return Ok(());
                }
                assert(toks.deep_view().subrange(1, toks.len() as int) =~= toks.deep_view().drop_first());
                self.motion = read_motion(toks, 1)?;
                Ok(())
            },
            LineKind::Triangle => {
                let s = read_triangle(&self.points, toks)?;
                self.add_child(s);
                Ok(())
            },
            LineKind::Sphere => {
                let s = read_sphere(&self.points, toks)?;
                self.add_child(s);
                Ok(())
            },
            LineKind::Torus => {
                let s = read_torus(toks)?;
                self.add_child(s);
                Ok(())
            },
            LineKind::Camera => {
                if self.camera.is_some() {
                    return Ok(());
                }
                self.camera = read_camera(toks)?;
                Ok(())
            },
            LineKind::Light => {
                let l = read_light(toks)?;
                let ghost before = self.lights.deep_view();
                self.lights.push(l);
                assert(self.lights.deep_view() =~= before.push(l.deep_view()));
                Ok(())
            },
            LineKind::Mesh => {
                let g = read_mesh(toks, base)?;
                let ghost before = self.groups.deep_view();
                self.groups.push(g);
                assert(self.groups.deep_view() =~= before.push(g.deep_view()));
                Ok(())
            },
            LineKind::Comment => Ok(()),
            LineKind::Unknown => Err(LineFault::UnknownKind),
        }
    }

    fn add_child(&mut self, s: Shape)
        ensures
            final(self).deep_view() == (ParseState {
                children: old(self).deep_view().children.push(s.deep_view()),
                ..old(self).deep_view()
            }),
    {
        let ghost before = self.children.deep_view();
        self.children.push(s);
        assert(self.children.deep_view() =~= before.push(s.deep_view()));
    }
}

/// Reads a scene description, one entry per line. `filename`, where the
/// description was read from a file, is where mesh files are looked for.
pub fn parse_scene(scene: Vec<String>, filename: Option<&str>) -> (r: Result<Scene, SceneError>)
    ensures
        match r {
            Ok(s) => scene_spec(scene.deep_view(), filename.deep_view()) == Ok::<_, SceneError>(
                s.deep_view(),
            ),
            Err(e) => scene_spec(scene.deep_view(), filename.deep_view()) == Err::<SceneModel, _>(
                e,
            ),
        },
{
    let mut reader = Reader {
        points: Vec::new(),
        groups: Vec::new(),
        children: Vec::new(),
        motion: None,
        camera: None,
        lights: Vec::new(),
    };
    assert(reader.deep_view() == empty_state()) by {
        assert(reader.points.deep_view() =~= Seq::<(Seq<char>, Seq<Seq<char>>)>::empty());
        assert(reader.groups.deep_view() =~= Seq::<GroupModel>::empty());
        assert(reader.children.deep_view() =~= Seq::<ShapeModel>::empty());
        assert(reader.lights.deep_view() =~= Seq::<LightModel>::empty());
    }
    let mut i: usize = 0;
    while i < scene.len()
        invariant
            i <= scene.len(),
            run_spec(scene.deep_view(), filename.deep_view(), i as nat) == Ok::<_, SceneError>(
                reader.deep_view(),
            ),
        decreases scene.len() - i,
    {
        let toks = split_on(scene[i].as_str(), ' ');
        proof {
            crate::text::lemma_split_nonempty(scene[i as int]@, ' ');
        }
        match reader.read_line(&toks, filename) {
            Ok(()) => {},
            Err(fault) => {
                proof {
                    assert(run_spec(scene.deep_view(), filename.deep_view(), (i + 1) as nat)
                        == Err::<ParseState, _>(SceneError::Line { line: i, fault }));
                    lemma_run_stops(scene.deep_view(), filename.deep_view(), (i + 1) as nat);
                }
                return Err(SceneError::Line { line: i, fault });
            },
        }
        i = i + 1;
    }
    match reader.camera {
        Some(camera) => Ok(Scene { groups: reader.groups, camera, lights: reader.lights }),
        None => Err(SceneError::NoCamera),
    }
}

/// Once a line is refused, the lines after it change nothing.
proof fn lemma_run_stops(lines: Seq<Seq<char>>, base: Option<Seq<char>>, n: nat)
    requires
        n <= lines.len(),
        run_spec(lines, base, n) is Err,
    ensures
        run_spec(lines, base, lines.len()) == run_spec(lines, base, n),
    decreases lines.len() - n,
{
    if n < lines.len() {
        lemma_run_stops(lines, base, n + 1);
    }
}

} // verus!
