//! The interpolation layer.
//!
//! Each animatable value type blends a source value toward a target value by
//! an eased progress scalar: `result = source + (target - source) * delta`.
//! The delta is already eased and may lie outside `[0, 1]`, so a blend may
//! overshoot.  Length values carry a unit tag and blend only when source and
//! target agree on the unit; a mismatch leaves the source untouched.  Layout
//! styles blend their geometric fields component-wise and keep every other
//! field from the source verbatim.

use vstd::prelude::*;
use crate::fixed::{Fx, delta_ok, value_ok, lerp_bits};

verus! {

/// A length-like value with a unit tag, as layout styles use.
#[derive(Clone, Copy, Debug, PartialEq, Eq, Structural)]
pub enum Val {
    /// No length given.
    Undefined,
    /// Length chosen by the layout engine.
    Auto,
    /// An absolute length.
    Px(Fx),
    /// A fraction of the surrounding length, in percent.
    Percent(Fx),
}

/// A width/height pair of lengths.
#[derive(Clone, Copy, Debug, PartialEq, Eq, Structural)]
pub struct Size {
    pub width: Val,
    pub height: Val,
}

/// A per-edge quad of lengths: offsets, margins, padding or borders.
#[derive(Clone, Copy, Debug, PartialEq, Eq, Structural)]
pub struct Rect {
    pub left: Val,
    pub right: Val,
    pub top: Val,
    pub bottom: Val,
}

/// How an element is positioned; never interpolated.
#[derive(Clone, Copy, Debug, PartialEq, Eq, Structural)]
pub enum PositionType {
    Relative,
    Absolute,
}

/// A layout style: the geometric fields that animate, and the positioning
/// mode, which a blend copies from the source verbatim.
#[derive(Clone, Copy, Debug, PartialEq, Eq, Structural)]
pub struct Style {
    pub position_type: PositionType,
    pub position: Rect,
    pub margin: Rect,
    pub padding: Rect,
    pub border: Rect,
    pub size: Size,
}

/// An RGBA color; each channel is a fixed-point scalar with 1.0 as full
/// intensity.
#[derive(Clone, Copy, Debug, PartialEq, Eq, Structural)]
pub struct Color {
    pub red: Fx,
    pub green: Fx,
    pub blue: Fx,
    pub alpha: Fx,
}

/// A three-component vector: a translation, a scale, or a rotation axis.
#[derive(Clone, Copy, Debug, PartialEq, Eq, Structural)]
pub struct Vec3 {
    pub x: Fx,
    pub y: Fx,
    pub z: Fx,
}

/// A rotation, as the host's quaternion components.  The crate carries these
/// through unchanged: combining two rotations is spherical interpolation,
/// which the host computes on its own scalar type.
#[derive(Clone, Copy, Debug, PartialEq, Eq, Structural)]
pub struct Quat {
    pub x: Fx,
    pub y: Fx,
    pub z: Fx,
    pub w: Fx,
}

/// A rigid transform: translation, rotation and scale.
#[derive(Clone, Copy, Debug, PartialEq, Eq, Structural)]
pub struct Transform {
    pub translation: Vec3,
    pub rotation: Quat,
    pub scale: Vec3,
}

/// A text block, reduced to what this crate animates: the color of each of
/// its sections.
#[derive(Debug)]
pub struct Text {
    pub sections: Vec<Color>,
}

/// The section colors of an optional text block, as a sequence.
pub open spec fn text_view(t: Option<Text>) -> Option<Seq<Color>> {
    match t {
        Some(tx) => Some(tx.sections@),
        None => None,
    }
}

/// The blend on fixed-point scalars, as a spec value.
pub open spec fn fx_lerped(s: Fx, t: Fx, d: Fx) -> Fx {
    Fx { bits: lerp_bits(s.bits as int, t.bits as int, d.bits as int) as i64 }
}

/// The blend on length values: unit-matched lengths blend, anything else
/// returns the source.
pub open spec fn val_lerped(s: Val, t: Val, d: Fx) -> Val {
    match (s, t) {
        (Val::Px(a), Val::Px(b)) => Val::Px(fx_lerped(a, b, d)),
        (Val::Percent(a), Val::Percent(b)) => Val::Percent(fx_lerped(a, b, d)),
        _ => s,
    }
}

pub open spec fn size_lerped(s: Size, t: Size, d: Fx) -> Size {
    Size { width: val_lerped(s.width, t.width, d), height: val_lerped(s.height, t.height, d) }
}

pub open spec fn rect_lerped(s: Rect, t: Rect, d: Fx) -> Rect {
    Rect {
        left: val_lerped(s.left, t.left, d),
        right: val_lerped(s.right, t.right, d),
        top: val_lerped(s.top, t.top, d),
        bottom: val_lerped(s.bottom, t.bottom, d),
    }
}

/// The blend on styles: geometric fields component-wise, the positioning
/// mode from the source.
pub open spec fn style_lerped(s: Style, t: Style, d: Fx) -> Style {
    Style {
        position_type: s.position_type,
        position: rect_lerped(s.position, t.position, d),
        margin: rect_lerped(s.margin, t.margin, d),
        padding: rect_lerped(s.padding, t.padding, d),
        border: rect_lerped(s.border, t.border, d),
        size: size_lerped(s.size, t.size, d),
    }
}

pub open spec fn color_lerped(s: Color, t: Color, d: Fx) -> Color {
    Color {
        red: fx_lerped(s.red, t.red, d),
        green: fx_lerped(s.green, t.green, d),
        blue: fx_lerped(s.blue, t.blue, d),
        alpha: fx_lerped(s.alpha, t.alpha, d),
    }
}

pub open spec fn vec3_lerped(s: Vec3, t: Vec3, d: Fx) -> Vec3 {
    Vec3 { x: fx_lerped(s.x, t.x, d), y: fx_lerped(s.y, t.y, d), z: fx_lerped(s.z, t.z, d) }
}

/// The blend on transforms: translation and scale component-wise; the
/// rotation slot takes the host-blended rotation handed in by the caller.
pub open spec fn transform_lerped(s: Transform, t: Transform, d: Fx, rotation: Quat) -> Transform {
    Transform {
        translation: vec3_lerped(s.translation, t.translation, d),
        rotation: rotation,
        scale: vec3_lerped(s.scale, t.scale, d),
    }
}

/// Whether a length value's payload is in blending range.
pub open spec fn val_ok(v: Val) -> bool {
    match v {
        Val::Px(a) => value_ok(a),
        Val::Percent(a) => value_ok(a),
        _ => true,
    }
}

pub open spec fn size_ok(s: Size) -> bool {
    val_ok(s.width) && val_ok(s.height)
}

pub open spec fn rect_ok(r: Rect) -> bool {
    val_ok(r.left) && val_ok(r.right) && val_ok(r.top) && val_ok(r.bottom)
}

pub open spec fn style_ok(s: Style) -> bool {
    rect_ok(s.position) && rect_ok(s.margin) && rect_ok(s.padding) && rect_ok(s.border)
        && size_ok(s.size)
}

pub open spec fn color_ok(c: Color) -> bool {
    value_ok(c.red) && value_ok(c.green) && value_ok(c.blue) && value_ok(c.alpha)
}

pub open spec fn vec3_ok(v: Vec3) -> bool {
    value_ok(v.x) && value_ok(v.y) && value_ok(v.z)
}

pub open spec fn transform_ok(t: Transform) -> bool {
    vec3_ok(t.translation) && vec3_ok(t.scale)
}

impl Default for Val {
    /// No length given.
    fn default() -> (v: Val)
        ensures
            v is Undefined,
    {
        Val::Undefined
    }
}

impl Size {
    /// A size from a width and a height.
    pub fn new(width: Val, height: Val) -> (s: Size)
        ensures
            s == (Size { width, height }),
    {
        Size { width, height }
    }
}

impl Default for Size {
    /// Both lengths left ungiven.
    fn default() -> (s: Size)
        ensures
            s == (Size { width: Val::Undefined, height: Val::Undefined }),
    {
        Size { width: Val::Undefined, height: Val::Undefined }
    }
}

impl Rect {
    /// The same length on all four edges.
    pub fn all(value: Val) -> (r: Rect)
        ensures
            r == (Rect { left: value, right: value, top: value, bottom: value }),
    {
        Rect { left: value, right: value, top: value, bottom: value }
    }
}

impl Default for Rect {
    /// All four edges left ungiven.
    fn default() -> (r: Rect)
        ensures
            r == (Rect {
                left: Val::Undefined,
                right: Val::Undefined,
                top: Val::Undefined,
                bottom: Val::Undefined,
            }),
    {
        Rect::all(Val::Undefined)
    }
}

impl Default for Style {
    /// Relative positioning with every length left ungiven.
    fn default() -> (s: Style)
        ensures
            s.position_type is Relative,
            s.position == (Rect {
                left: Val::Undefined,
                right: Val::Undefined,
                top: Val::Undefined,
                bottom: Val::Undefined,
            }),
            s.margin == s.position,
            s.padding == s.position,
            s.border == s.position,
            s.size == (Size { width: Val::Undefined, height: Val::Undefined }),
    {
        Style {
            position_type: PositionType::Relative,
            position: Rect::default(),
            margin: Rect::default(),
            padding: Rect::default(),
            border: Rect::default(),
            size: Size::default(),
        }
    }
}

impl Default for Color {
    /// Opaque white.
    fn default() -> (c: Color)
        ensures
            c == (Color {
                red: Fx { bits: crate::fixed::SCALE },
                green: Fx { bits: crate::fixed::SCALE },
                blue: Fx { bits: crate::fixed::SCALE },
                alpha: Fx { bits: crate::fixed::SCALE },
            }),
    {
        Color::white()
    }
}

impl Default for Transform {
    /// The identity transform: no translation, no rotation, unit scale.
    fn default() -> (t: Transform)
        ensures
            t.translation == (Vec3 { x: Fx { bits: 0 }, y: Fx { bits: 0 }, z: Fx { bits: 0 } }),
            t.rotation == (Quat {
                x: Fx { bits: 0 },
                y: Fx { bits: 0 },
                z: Fx { bits: 0 },
                w: Fx { bits: crate::fixed::SCALE },
            }),
            t.scale == (Vec3 {
                x: Fx { bits: crate::fixed::SCALE },
                y: Fx { bits: crate::fixed::SCALE },
                z: Fx { bits: crate::fixed::SCALE },
            }),
    {
        let zero = Fx { bits: 0 };
        let one = Fx { bits: crate::fixed::SCALE };
        Transform {
            translation: Vec3 { x: zero, y: zero, z: zero },
            rotation: Quat { x: zero, y: zero, z: zero, w: one },
            scale: Vec3 { x: one, y: one, z: one },
        }
    }
}

/// Progress 0 as a fixed-point scalar.
pub open spec fn fx_zero() -> Fx {
    Fx { bits: 0 }
}

/// Progress 1 as a fixed-point scalar.
pub open spec fn fx_one() -> Fx {
    Fx { bits: crate::fixed::SCALE }
}

/// Whether blending `s` toward `t` can actually reach `t`: the units agree,
/// or the two values are already equal.
pub open spec fn val_compat(s: Val, t: Val) -> bool {
    (s is Px && t is Px) || (s is Percent && t is Percent) || s == t
}

pub open spec fn size_compat(s: Size, t: Size) -> bool {
    val_compat(s.width, t.width) && val_compat(s.height, t.height)
}

pub open spec fn rect_compat(s: Rect, t: Rect) -> bool {
    &&& val_compat(s.left, t.left)
    &&& val_compat(s.right, t.right)
    &&& val_compat(s.top, t.top)
    &&& val_compat(s.bottom, t.bottom)
}

/// Whether a style blend can reach its target: every geometric component is
/// unit-compatible and the verbatim-copied positioning mode already agrees.
pub open spec fn style_compat(s: Style, t: Style) -> bool {
    &&& s.position_type == t.position_type
    &&& rect_compat(s.position, t.position)
    &&& rect_compat(s.margin, t.margin)
    &&& rect_compat(s.padding, t.padding)
    &&& rect_compat(s.border, t.border)
    &&& size_compat(s.size, t.size)
}

/// A scalar blend returns the source at progress 0 and the target at
/// progress 1, exactly.
pub proof fn lemma_fx_blend_endpoints(s: Fx, t: Fx)
    ensures
        fx_lerped(s, t, fx_zero()) == s,
        fx_lerped(s, t, fx_one()) == t,
{
    crate::fixed::lemma_lerp_bits_endpoints(s.bits as int, t.bits as int);
}

/// A length blend returns the source at progress 0; at progress 1 it
/// returns the target whenever the units agree (a mismatch keeps the
/// source for every progress).
pub proof fn lemma_val_blend_endpoints(s: Val, t: Val)
    ensures
        val_lerped(s, t, fx_zero()) == s,
        val_compat(s, t) ==> val_lerped(s, t, fx_one()) == t,
{
    match (s, t) {
        (Val::Px(a), Val::Px(b)) => lemma_fx_blend_endpoints(a, b),
        (Val::Percent(a), Val::Percent(b)) => lemma_fx_blend_endpoints(a, b),
        _ => (),
    }
}

pub proof fn lemma_size_blend_endpoints(s: Size, t: Size)
    ensures
        size_lerped(s, t, fx_zero()) == s,
        size_compat(s, t) ==> size_lerped(s, t, fx_one()) == t,
{
    lemma_val_blend_endpoints(s.width, t.width);
    lemma_val_blend_endpoints(s.height, t.height);
}

pub proof fn lemma_rect_blend_endpoints(s: Rect, t: Rect)
    ensures
        rect_lerped(s, t, fx_zero()) == s,
        rect_compat(s, t) ==> rect_lerped(s, t, fx_one()) == t,
{
    lemma_val_blend_endpoints(s.left, t.left);
    lemma_val_blend_endpoints(s.right, t.right);
    lemma_val_blend_endpoints(s.top, t.top);
    lemma_val_blend_endpoints(s.bottom, t.bottom);
}

/// A style blend returns the source at progress 0; at progress 1 it returns
/// the target whenever the two styles are blend-compatible.
pub proof fn lemma_style_blend_endpoints(s: Style, t: Style)
    ensures
        style_lerped(s, t, fx_zero()) == s,
        style_compat(s, t) ==> style_lerped(s, t, fx_one()) == t,
{
    lemma_rect_blend_endpoints(s.position, t.position);
    lemma_rect_blend_endpoints(s.margin, t.margin);
    lemma_rect_blend_endpoints(s.padding, t.padding);
    lemma_rect_blend_endpoints(s.border, t.border);
    lemma_size_blend_endpoints(s.size, t.size);
}

/// A color blend returns the source at progress 0 and the target at
/// progress 1, exactly.
pub proof fn lemma_color_blend_endpoints(s: Color, t: Color)
    ensures
        color_lerped(s, t, fx_zero()) == s,
        color_lerped(s, t, fx_one()) == t,
{
    lemma_fx_blend_endpoints(s.red, t.red);
    lemma_fx_blend_endpoints(s.green, t.green);
    lemma_fx_blend_endpoints(s.blue, t.blue);
    lemma_fx_blend_endpoints(s.alpha, t.alpha);
}

pub proof fn lemma_vec3_blend_endpoints(s: Vec3, t: Vec3)
    ensures
        vec3_lerped(s, t, fx_zero()) == s,
        vec3_lerped(s, t, fx_one()) == t,
{
    lemma_fx_blend_endpoints(s.x, t.x);
    lemma_fx_blend_endpoints(s.y, t.y);
    lemma_fx_blend_endpoints(s.z, t.z);
}

/// A transform blend returns the source at progress 0 and the target at
/// progress 1, exactly, when the caller installs the matching endpoint
/// rotation.
pub proof fn lemma_transform_blend_endpoints(s: Transform, t: Transform)
    ensures
        transform_lerped(s, t, fx_zero(), s.rotation) == s,
        transform_lerped(s, t, fx_one(), t.rotation) == t,
{
    lemma_vec3_blend_endpoints(s.translation, t.translation);
    lemma_vec3_blend_endpoints(s.scale, t.scale);
}

impl Val {
    /// Blends toward `target` when the units agree; returns the source
    /// unchanged on a unit mismatch.
    pub fn lerp(&self, target: &Val, delta: Fx) -> (r: Val)
        requires
            val_ok(*self),
            val_ok(*target),
            delta_ok(delta),
        ensures
            r == val_lerped(*self, *target, delta),
    {
        match (self, target) {
            (Val::Px(a), Val::Px(b)) => Val::Px(a.lerp(*b, delta)),
            (Val::Percent(a), Val::Percent(b)) => Val::Percent(a.lerp(*b, delta)),
            _ => *self,
        }
    }
}

impl Size {
    /// Blends width and height component-wise.
    pub fn lerp(&self, target: &Size, delta: Fx) -> (r: Size)
        requires
            size_ok(*self),
            size_ok(*target),
            delta_ok(delta),
        ensures
            r == size_lerped(*self, *target, delta),
    {
        Size {
            width: self.width.lerp(&target.width, delta),
            height: self.height.lerp(&target.height, delta),
        }
    }
}

impl Rect {
    /// Blends all four edges component-wise.
    pub fn lerp(&self, target: &Rect, delta: Fx) -> (r: Rect)
        requires
            rect_ok(*self),
            rect_ok(*target),
            delta_ok(delta),
        ensures
            r == rect_lerped(*self, *target, delta),
    {
        Rect {
            left: self.left.lerp(&target.left, delta),
            right: self.right.lerp(&target.right, delta),
            top: self.top.lerp(&target.top, delta),
            bottom: self.bottom.lerp(&target.bottom, delta),
        }
    }
}

impl Style {
    /// Blends the geometric fields component-wise and keeps the positioning
    /// mode of the source.
    pub fn lerp(&self, target: &Style, delta: Fx) -> (r: Style)
        requires
            style_ok(*self),
            style_ok(*target),
            delta_ok(delta),
        ensures
            r == style_lerped(*self, *target, delta),
    {
        Style {
            position_type: self.position_type,
            position: self.position.lerp(&target.position, delta),
            margin: self.margin.lerp(&target.margin, delta),
            padding: self.padding.lerp(&target.padding, delta),
            border: self.border.lerp(&target.border, delta),
            size: self.size.lerp(&target.size, delta),
        }
    }
}

impl Color {
    /// Blends the four channels component-wise in vector space.
    pub fn lerp(&self, target: &Color, delta: Fx) -> (r: Color)
        requires
            color_ok(*self),
            color_ok(*target),
            delta_ok(delta),
        ensures
            r == color_lerped(*self, *target, delta),
    {
        Color {
            red: self.red.lerp(target.red, delta),
            green: self.green.lerp(target.green, delta),
            blue: self.blue.lerp(target.blue, delta),
            alpha: self.alpha.lerp(target.alpha, delta),
        }
    }

    /// Opaque white.
    pub fn white() -> (r: Color)
        ensures
            r == (Color {
                red: Fx { bits: crate::fixed::SCALE },
                green: Fx { bits: crate::fixed::SCALE },
                blue: Fx { bits: crate::fixed::SCALE },
                alpha: Fx { bits: crate::fixed::SCALE },
            }),
    {
        let one = Fx { bits: crate::fixed::SCALE };
        Color { red: one, green: one, blue: one, alpha: one }
    }

    /// Opaque red.
    pub fn red() -> (r: Color)
        ensures
            r == (Color {
                red: Fx { bits: crate::fixed::SCALE },
                green: Fx { bits: 0 },
                blue: Fx { bits: 0 },
                alpha: Fx { bits: crate::fixed::SCALE },
            }),
    {
        let one = Fx { bits: crate::fixed::SCALE };
        let zero = Fx { bits: 0 };
        Color { red: one, green: zero, blue: zero, alpha: one }
    }
}

impl Vec3 {
    /// Blends the three components.
    pub fn lerp(&self, target: &Vec3, delta: Fx) -> (r: Vec3)
        requires
            vec3_ok(*self),
            vec3_ok(*target),
            delta_ok(delta),
        ensures
            r == vec3_lerped(*self, *target, delta),
    {
        Vec3 {
            x: self.x.lerp(target.x, delta),
            y: self.y.lerp(target.y, delta),
            z: self.z.lerp(target.z, delta),
        }
    }
}

impl Transform {
    /// Blends translation and scale component-wise and installs `rotation`,
    /// the spherical blend of the two orientations, which the host computes
    /// on its own scalar type.
    pub fn lerp(&self, target: &Transform, delta: Fx, rotation: Quat) -> (r: Transform)
        requires
            transform_ok(*self),
            transform_ok(*target),
            delta_ok(delta),
        ensures
            r == transform_lerped(*self, *target, delta, rotation),
    {
        Transform {
            translation: self.translation.lerp(&target.translation, delta),
            rotation: rotation,
            scale: self.scale.lerp(&target.scale, delta),
        }
    }
}

} // verus!
