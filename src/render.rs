use vstd::prelude::*;
use crate::config::{ConfigView, CrosshairConfig, CrosshairLine, CrosshairStyle, MAX_EXTENT};

verus! {

/// Largest distance from the origin accepted for a render center.
pub const MAX_CENTER: i32 = 1000000;

/// Fixed-point scale of the cosine and sine held by a [`Rotation`].
pub const ROTATION_SCALE: i32 = 16384;

/// A 2D rotation, given as its cosine and sine scaled by `ROTATION_SCALE`.
#[derive(Clone, Copy, Debug, PartialEq, Eq, Structural)]
pub struct Rotation {
    pub cos: i32,
    pub sin: i32,
}

pub open spec fn clamp_unit(v: i32) -> int {
    if v < -ROTATION_SCALE {
        -ROTATION_SCALE
    } else if v > ROTATION_SCALE {
        ROTATION_SCALE as int
    } else {
        v as int
    }
}

impl Rotation {
    pub open spec fn valid(self) -> bool {
        &&& -ROTATION_SCALE <= self.cos <= ROTATION_SCALE
        &&& -ROTATION_SCALE <= self.sin <= ROTATION_SCALE
    }

    pub open spec fn identity_spec() -> Rotation {
        Rotation { cos: ROTATION_SCALE, sin: 0 }
    }

    /// The rotation by zero degrees.
    pub fn identity() -> (r: Rotation)
        ensures
            r == Rotation::identity_spec(),
    {
        Rotation { cos: ROTATION_SCALE, sin: 0 }
    }

    /// A rotation from a scaled cosine and sine, each clamped to `[-ROTATION_SCALE, ROTATION_SCALE]`.
    pub fn new(cos: i32, sin: i32) -> (r: Rotation)
        ensures
            r.cos == clamp_unit(cos),
            r.sin == clamp_unit(sin),
            r.valid(),
    {
        let c = if cos < -ROTATION_SCALE {
            -ROTATION_SCALE
        } else if cos > ROTATION_SCALE {
            ROTATION_SCALE
        } else {
            cos
        };
        let s = if sin < -ROTATION_SCALE {
            -ROTATION_SCALE
        } else if sin > ROTATION_SCALE {
            ROTATION_SCALE
        } else {
            sin
        };
        Rotation { cos: c, sin: s }
    }
}

/// Stroke of a drawing primitive: width in pixels and color in native (BGR) order.
#[derive(Clone, Copy, Debug, PartialEq, Eq, Structural)]
pub struct Pen {
    pub width: i32,
    pub color: u32,
}

/// Interior of an ellipse.
#[derive(Clone, Copy, Debug, PartialEq, Eq, Structural)]
pub enum Fill {
    Hollow,
    Solid(u32),
}

/// One drawing primitive, to be issued in order.
#[derive(Clone, Copy, Debug, PartialEq, Eq, Structural)]
pub enum DrawOp {
    Line { x1: i32, y1: i32, x2: i32, y2: i32, pen: Pen },
    Ellipse { left: i32, top: i32, right: i32, bottom: i32, pen: Pen, fill: Fill },
}

// ---- colors ----
pub open spec fn red(c: u32) -> u32 {
    (c >> 16u32) & 0xFFu32
}

pub open spec fn green(c: u32) -> u32 {
    (c >> 8u32) & 0xFFu32
}

pub open spec fn blue(c: u32) -> u32 {
    c & 0xFFu32
}

/// A 24-bit RGB value repacked in the native blue, green, red order.
pub open spec fn native_color(c: u32) -> u32 {
    (blue(c) << 16u32) | (green(c) << 8u32) | red(c)
}

/// Repacks an RGB value into the native blue, green, red order.
pub fn to_native_color(c: u32) -> (r: u32)
    ensures
        r == native_color(c),
{
    let red = (c >> 16) & 0xFF;
    let green = (c >> 8) & 0xFF;
    let blue = c & 0xFF;
    (blue << 16) | (green << 8) | red
}

pub open spec fn main_pen(c: ConfigView) -> Pen {
    Pen { width: c.thickness, color: native_color(c.color) }
}

pub open spec fn outline_pen(c: ConfigView) -> Pen {
    Pen { width: (c.thickness + 2 * c.outline_thickness) as i32, color: native_color(c.outline_color) }
}

pub open spec fn shadow_pen(c: ConfigView) -> Pen {
    Pen { width: c.thickness, color: native_color(c.shadow_color) }
}

// ---- geometry ----
pub open spec fn line(x1: int, y1: int, x2: int, y2: int, pen: Pen) -> DrawOp {
    DrawOp::Line { x1: x1 as i32, y1: y1 as i32, x2: x2 as i32, y2: y2 as i32, pen }
}

/// Integer division rounded toward zero.
pub open spec fn trunc_div(a: int, d: int) -> int {
    if a >= 0 {
        a / d
    } else {
        -((-a) / d)
    }
}

/// First coordinate of `(x, y)` rotated by `r` around `(cx, cy)`.
pub open spec fn rot_x(cx: int, cy: int, x: int, y: int, r: Rotation) -> int {
    cx + trunc_div((x - cx) * r.cos - (y - cy) * r.sin, ROTATION_SCALE as int)
}

/// Second coordinate of `(x, y)` rotated by `r` around `(cx, cy)`.
pub open spec fn rot_y(cx: int, cy: int, x: int, y: int, r: Rotation) -> int {
    cy + trunc_div((x - cx) * r.sin + (y - cy) * r.cos, ROTATION_SCALE as int)
}

pub open spec fn rotated_line(
    cx: int,
    cy: int,
    x1: int,
    y1: int,
    x2: int,
    y2: int,
    r: Rotation,
    pen: Pen,
) -> DrawOp {
    line(rot_x(cx, cy, x1, y1, r), rot_y(cx, cy, x1, y1, r), rot_x(cx, cy, x2, y2, r), rot_y(cx, cy, x2, y2, r), pen)
}

/// The four arms of the classic cross, before rotation: top, bottom, left, right.
pub open spec fn plain_classic_ops(c: ConfigView, cx: int, cy: int, pen: Pen) -> Seq<DrawOp> {
    let g = c.gap as int;
    let s = c.size as int;
    seq![
        line(cx, cy - g - s, cx, cy - g, pen),
        line(cx, cy + g, cx, cy + g + s, pen),
        line(cx - g - s, cy, cx - g, cy, pen),
        line(cx + g, cy, cx + g + s, cy, pen),
    ]
}

/// The four arms of the classic cross, each endpoint rotated around the center.
pub open spec fn classic_ops(c: ConfigView, cx: int, cy: int, r: Rotation, pen: Pen) -> Seq<DrawOp> {
    let g = c.gap as int;
    let s = c.size as int;
    seq![
        rotated_line(cx, cy, cx, cy - g - s, cx, cy - g, r, pen),
        rotated_line(cx, cy, cx, cy + g, cx, cy + g + s, r, pen),
        rotated_line(cx, cy, cx - g - s, cy, cx - g, cy, r, pen),
        rotated_line(cx, cy, cx + g, cy, cx + g + s, cy, r, pen),
    ]
}

/// The classic arms overlaid on a framed style, present only when the gap is positive.
pub open spec fn inner_cross_ops(c: ConfigView, cx: int, cy: int, r: Rotation, pen: Pen) -> Seq<DrawOp> {
    if c.gap > 0 {
        classic_ops(c, cx, cy, r, pen)
    } else {
        Seq::empty()
    }
}

pub open spec fn circle_ops(c: ConfigView, cx: int, cy: int, r: Rotation, pen: Pen) -> Seq<DrawOp> {
    let rad = c.size + c.gap;
    seq![
        DrawOp::Ellipse {
            left: (cx - rad) as i32,
            top: (cy - rad) as i32,
            right: (cx + rad) as i32,
            bottom: (cy + rad) as i32,
            pen,
            fill: Fill::Hollow,
        },
    ] + inner_cross_ops(c, cx, cy, r, pen)
}

pub open spec fn square_ops(c: ConfigView, cx: int, cy: int, r: Rotation, pen: Pen) -> Seq<DrawOp> {
    let h = c.size + c.gap;
    seq![
        line(cx - h, cy - h, cx + h, cy - h, pen),
        line(cx + h, cy - h, cx + h, cy + h, pen),
        line(cx + h, cy + h, cx - h, cy + h, pen),
        line(cx - h, cy + h, cx - h, cy - h, pen),
    ] + inner_cross_ops(c, cx, cy, r, pen)
}

pub open spec fn t_ops(c: ConfigView, cx: int, cy: int, pen: Pen) -> Seq<DrawOp> {
    let g = c.gap as int;
    let s = c.size as int;
    let t = c.t_length as int;
    seq![line(cx - t, cy - g - s, cx + t, cy - g - s, pen), line(cx, cy - g - s, cx, cy - g, pen)]
        + if g > 0 {
        seq![
            line(cx, cy + g, cx, cy + g + s, pen),
            line(cx - g - s, cy, cx - g, cy, pen),
            line(cx + g, cy, cx + g + s, cy, pen),
        ]
    } else {
        Seq::empty()
    }
}

/// The stroke of a custom line: the pen already chosen in the shadow pass, its own otherwise.
pub open spec fn custom_pen(l: CrosshairLine, pen: Pen, shadow: bool) -> Pen {
    if shadow {
        pen
    } else {
        Pen { width: l.thickness, color: native_color(l.color) }
    }
}

pub open spec fn custom_op(l: CrosshairLine, cx: int, cy: int, pen: Pen, shadow: bool) -> DrawOp {
    line(cx + l.start_x, cy + l.start_y, cx + l.end_x, cy + l.end_y, custom_pen(l, pen, shadow))
}

pub open spec fn custom_ops(c: ConfigView, cx: int, cy: int, pen: Pen, shadow: bool) -> Seq<DrawOp> {
    Seq::new(c.lines.len(), |i: int| custom_op(c.lines[i], cx, cy, pen, shadow))
}

/// The primitives of one pass of the configured style.
pub open spec fn shape_ops(c: ConfigView, cx: int, cy: int, r: Rotation, pen: Pen, shadow: bool) -> Seq<DrawOp> {
    match c.style {
        CrosshairStyle::Classic => classic_ops(c, cx, cy, r, pen),
        CrosshairStyle::Dot => Seq::empty(),
        CrosshairStyle::Circle => circle_ops(c, cx, cy, r, pen),
        CrosshairStyle::Square => square_ops(c, cx, cy, r, pen),
        CrosshairStyle::TShape => t_ops(c, cx, cy, pen),
        CrosshairStyle::Custom => custom_ops(c, cx, cy, pen, shadow),
    }
}

/// The filled center dot.
pub open spec fn dot_op(c: ConfigView, cx: int, cy: int) -> DrawOp {
    DrawOp::Ellipse {
        left: (cx - c.dot_size) as i32,
        top: (cy - c.dot_size) as i32,
        right: (cx + c.dot_size) as i32,
        bottom: (cy + c.dot_size) as i32,
        pen: main_pen(c),
        fill: Fill::Solid(native_color(c.color)),
    }
}

/// Every primitive of one frame, in layering order: shadow, outline, main shape, dot.
pub open spec fn render_ops(c: ConfigView, cx: int, cy: int, r: Rotation) -> Seq<DrawOp> {
    let so = c.shadow_offset as int;
    (if c.shadow_enabled {
        shape_ops(c, cx + so, cy + so, r, shadow_pen(c), true)
    } else {
        Seq::empty()
    }) + (if c.show_outline {
        shape_ops(c, cx, cy, r, outline_pen(c), false)
    } else {
        Seq::empty()
    }) + shape_ops(c, cx, cy, r, main_pen(c), false) + (if c.show_dot {
        seq![dot_op(c, cx, cy)]
    } else {
        Seq::empty()
    })
}

// ---- execution ----
/// Whether a render center lies within the accepted range.
pub open spec fn center_ok(v: int) -> bool {
    -MAX_CENTER <= v <= MAX_CENTER
}

/// A center after the shadow offset has been applied.
pub open spec fn near(v: int) -> bool {
    -(MAX_CENTER + MAX_EXTENT) <= v <= MAX_CENTER + MAX_EXTENT
}

proof fn lemma_mul_bounded(a: int, b: int)
    requires
        -2 * MAX_EXTENT <= a <= 2 * MAX_EXTENT,
        -ROTATION_SCALE <= b <= ROTATION_SCALE,
    ensures
        -2 * MAX_EXTENT * ROTATION_SCALE <= a * b <= 2 * MAX_EXTENT * ROTATION_SCALE,
{
    assert(-2 * MAX_EXTENT * ROTATION_SCALE <= a * b <= 2 * MAX_EXTENT * ROTATION_SCALE) by (nonlinear_arith)
        requires
            -20000 <= a <= 20000,
            -16384 <= b <= 16384,
    ;
}

/// Divides by `ROTATION_SCALE`, rounding toward zero.
fn scale_down(v: i64) -> (r: i64)
    requires
        -1000000000000 <= v <= 1000000000000,
    ensures
        r == trunc_div(v as int, ROTATION_SCALE as int),
        v >= 0 ==> 0 <= r <= v,
        v < 0 ==> v <= r <= 0,
{
    if v >= 0 {
        ((v as u64) / (ROTATION_SCALE as u64)) as i64
    } else {
        let m = (0 - v) as u64;
        0 - ((m / (ROTATION_SCALE as u64)) as i64)
    }
}

/// Rotates `(x, y)` around `(cx, cy)`.
fn rotate_point(cx: i32, cy: i32, x: i32, y: i32, rot: Rotation) -> (p: (i32, i32))
    requires
        rot.valid(),
        near(cx as int),
        near(cy as int),
        -2 * MAX_EXTENT <= x - cx <= 2 * MAX_EXTENT,
        -2 * MAX_EXTENT <= y - cy <= 2 * MAX_EXTENT,
    ensures
        p.0 == rot_x(cx as int, cy as int, x as int, y as int, rot),
        p.1 == rot_y(cx as int, cy as int, x as int, y as int, rot),
{
    let dx = x as i64 - cx as i64;
    let dy = y as i64 - cy as i64;
    proof {
        lemma_mul_bounded(dx as int, rot.cos as int);
        lemma_mul_bounded(dx as int, rot.sin as int);
        lemma_mul_bounded(dy as int, rot.cos as int);
        lemma_mul_bounded(dy as int, rot.sin as int);
    }
    let nx = scale_down(dx * (rot.cos as i64) - dy * (rot.sin as i64));
    let ny = scale_down(dx * (rot.sin as i64) + dy * (rot.cos as i64));
    ((cx as i64 + nx) as i32, (cy as i64 + ny) as i32)
}

fn push_line(ops: &mut Vec<DrawOp>, x1: i32, y1: i32, x2: i32, y2: i32, pen: Pen)
    ensures
        final(ops)@ == old(ops)@.push(line(x1 as int, y1 as int, x2 as int, y2 as int, pen)),
{
    ops.push(DrawOp::Line { x1, y1, x2, y2, pen });
}

fn push_rotated_line(
    ops: &mut Vec<DrawOp>,
    cx: i32,
    cy: i32,
    x1: i32,
    y1: i32,
    x2: i32,
    y2: i32,
    rot: Rotation,
    pen: Pen,
)
    requires
        rot.valid(),
        near(cx as int),
        near(cy as int),
        -2 * MAX_EXTENT <= x1 - cx <= 2 * MAX_EXTENT,
        -2 * MAX_EXTENT <= y1 - cy <= 2 * MAX_EXTENT,
        -2 * MAX_EXTENT <= x2 - cx <= 2 * MAX_EXTENT,
        -2 * MAX_EXTENT <= y2 - cy <= 2 * MAX_EXTENT,
    ensures
        final(ops)@ == old(ops)@.push(
            rotated_line(cx as int, cy as int, x1 as int, y1 as int, x2 as int, y2 as int, rot, pen),
        ),
{
    let (ax, ay) = rotate_point(cx, cy, x1, y1, rot);
    let (bx, by) = rotate_point(cx, cy, x2, y2, rot);
    push_line(ops, ax, ay, bx, by, pen);
}

/// Appends the four rotated arms of the classic cross.
pub fn draw_classic_crosshair(ops: &mut Vec<DrawOp>, config: &CrosshairConfig, cx: i32, cy: i32, rot: Rotation, pen: Pen)
    requires
        config@.valid(),
        rot.valid(),
        near(cx as int),
        near(cy as int),
    ensures
        final(ops)@ == old(ops)@ + classic_ops(config@, cx as int, cy as int, rot, pen),
{
    let g = config.gap;
    let s = config.size;
    push_rotated_line(ops, cx, cy, cx, cy - g - s, cx, cy - g, rot, pen);
    push_rotated_line(ops, cx, cy, cx, cy + g, cx, cy + g + s, rot, pen);
    push_rotated_line(ops, cx, cy, cx - g - s, cy, cx - g, cy, rot, pen);
    push_rotated_line(ops, cx, cy, cx + g, cy, cx + g + s, cy, rot, pen);
    assert(ops@ =~= old(ops)@ + classic_ops(config@, cx as int, cy as int, rot, pen));
}

/// Appends a hollow circle of radius `size + gap`, with the classic arms inside when the gap is positive.
pub fn draw_circle_crosshair(ops: &mut Vec<DrawOp>, config: &CrosshairConfig, cx: i32, cy: i32, rot: Rotation, pen: Pen)
    requires
        config@.valid(),
        rot.valid(),
        near(cx as int),
        near(cy as int),
    ensures
        final(ops)@ == old(ops)@ + circle_ops(config@, cx as int, cy as int, rot, pen),
{
    let radius = config.size + config.gap;
    ops.push(
        DrawOp::Ellipse {
            left: cx - radius,
            top: cy - radius,
            right: cx + radius,
            bottom: cy + radius,
            pen,
            fill: Fill::Hollow,
        },
    );
    let ghost framed = ops@;
    if config.gap > 0 {
        draw_classic_crosshair(ops, config, cx, cy, rot, pen);
    }
    assert(ops@ =~= framed + inner_cross_ops(config@, cx as int, cy as int, rot, pen));
    assert(ops@ =~= old(ops)@ + circle_ops(config@, cx as int, cy as int, rot, pen));
}

/// Appends the four edges of a square of half-extent `size + gap`, with the classic arms
/// inside when the gap is positive.
pub fn draw_square_crosshair(ops: &mut Vec<DrawOp>, config: &CrosshairConfig, cx: i32, cy: i32, rot: Rotation, pen: Pen)
    requires
        config@.valid(),
        rot.valid(),
        near(cx as int),
        near(cy as int),
    ensures
        final(ops)@ == old(ops)@ + square_ops(config@, cx as int, cy as int, rot, pen),
{
    let h = config.size + config.gap;
    push_line(ops, cx - h, cy - h, cx + h, cy - h, pen);
    push_line(ops, cx + h, cy - h, cx + h, cy + h, pen);
    push_line(ops, cx + h, cy + h, cx - h, cy + h, pen);
    push_line(ops, cx - h, cy + h, cx - h, cy - h, pen);
    let ghost framed = ops@;
    if config.gap > 0 {
        draw_classic_crosshair(ops, config, cx, cy, rot, pen);
    }
    assert(ops@ =~= framed + inner_cross_ops(config@, cx as int, cy as int, rot, pen));
    assert(ops@ =~= old(ops)@ + square_ops(config@, cx as int, cy as int, rot, pen));
}

/// Appends a T: a bar of half-length `t_length` above the center and a stem down to the
/// gap; when the gap is positive, also the bottom, left and right classic arms, unrotated.
pub fn draw_t_crosshair(ops: &mut Vec<DrawOp>, config: &CrosshairConfig, cx: i32, cy: i32, pen: Pen)
    requires
        config@.valid(),
        near(cx as int),
        near(cy as int),
    ensures
        final(ops)@ == old(ops)@ + t_ops(config@, cx as int, cy as int, pen),
{
    let g = config.gap;
    let s = config.size;
    let t = config.t_length;
    push_line(ops, cx - t, cy - g - s, cx + t, cy - g - s, pen);
    push_line(ops, cx, cy - g - s, cx, cy - g, pen);
    if g > 0 {
        push_line(ops, cx, cy + g, cx, cy + g + s, pen);
        push_line(ops, cx - g - s, cy, cx - g, cy, pen);
        push_line(ops, cx + g, cy, cx + g + s, cy, pen);
    }
    assert(ops@ =~= old(ops)@ + t_ops(config@, cx as int, cy as int, pen));
}

/// Appends one segment per custom line, each endpoint offset from the center. Outside the
/// shadow pass each segment is stroked with the line's own width and color.
pub fn draw_custom_crosshair(
    ops: &mut Vec<DrawOp>,
    config: &CrosshairConfig,
    cx: i32,
    cy: i32,
    pen: Pen,
    is_shadow: bool,
)
    requires
        config@.valid(),
        near(cx as int),
        near(cy as int),
    ensures
        final(ops)@ == old(ops)@ + custom_ops(config@, cx as int, cy as int, pen, is_shadow),
{
    let ghost start = ops@;
    let mut i: usize = 0;
    while i < config.lines.len()
        invariant
            0 <= i <= config.lines.len(),
            config@.valid(),
            near(cx as int),
            near(cy as int),
            ops@ =~= start + custom_ops(config@, cx as int, cy as int, pen, is_shadow).subrange(0, i as int),
        decreases config.lines.len() - i,
    {
        let l = config.lines[i];
        assert(l.valid()) by {
            assert(config@.lines[i as int] == l);
        }
        let line_pen = if is_shadow {
            pen
        } else {
            Pen { width: l.thickness, color: to_native_color(l.color) }
        };
        push_line(ops, cx + l.start_x, cy + l.start_y, cx + l.end_x, cy + l.end_y, line_pen);
        i = i + 1;
        assert(ops@ =~= start + custom_ops(config@, cx as int, cy as int, pen, is_shadow).subrange(0, i as int));
    }
    assert(custom_ops(config@, cx as int, cy as int, pen, is_shadow).subrange(0, i as int)
        =~= custom_ops(config@, cx as int, cy as int, pen, is_shadow));
}

/// Appends one pass of the configured style. `Dot` appends nothing: its dot is drawn apart.
pub fn draw_crosshair_shape(
    ops: &mut Vec<DrawOp>,
    config: &CrosshairConfig,
    cx: i32,
    cy: i32,
    rot: Rotation,
    pen: Pen,
    is_shadow: bool,
)
    requires
        config@.valid(),
        rot.valid(),
        near(cx as int),
        near(cy as int),
    ensures
        final(ops)@ == old(ops)@ + shape_ops(config@, cx as int, cy as int, rot, pen, is_shadow),
{
    match config.style {
        CrosshairStyle::Classic => draw_classic_crosshair(ops, config, cx, cy, rot, pen),
        CrosshairStyle::Dot => {
            assert(ops@ =~= old(ops)@ + shape_ops(config@, cx as int, cy as int, rot, pen, is_shadow));
        },
        CrosshairStyle::Circle => draw_circle_crosshair(ops, config, cx, cy, rot, pen),
        CrosshairStyle::Square => draw_square_crosshair(ops, config, cx, cy, rot, pen),
        CrosshairStyle::TShape => draw_t_crosshair(ops, config, cx, cy, pen),
        CrosshairStyle::Custom => draw_custom_crosshair(ops, config, cx, cy, pen, is_shadow),
    }
}

/// Every primitive of one frame centered at `(cx, cy)`, in layering order: the shadow pass
/// (offset by `shadow_offset` on both axes), the outline pass, the main shape, then the dot.
pub fn draw_crosshair(config: &CrosshairConfig, cx: i32, cy: i32, rot: Rotation) -> (ops: Vec<DrawOp>)
    requires
        config@.valid(),
        rot.valid(),
        center_ok(cx as int),
        center_ok(cy as int),
    ensures
        ops@ == render_ops(config@, cx as int, cy as int, rot),
{
    let mut ops: Vec<DrawOp> = Vec::new();
    let color = to_native_color(config.color);
    let main = Pen { width: config.thickness, color };
    if config.shadow_enabled {
        let shadow = Pen { width: config.thickness, color: to_native_color(config.shadow_color) };
        draw_crosshair_shape(
            &mut ops,
            config,
            cx + config.shadow_offset,
            cy + config.shadow_offset,
            rot,
            shadow,
            true,
        );
    }
    let ghost after_shadow = ops@;
    if config.show_outline {
        let outline = Pen {
            width: config.thickness + config.outline_thickness * 2,
            color: to_native_color(config.outline_color),
        };
        draw_crosshair_shape(&mut ops, config, cx, cy, rot, outline, false);
    }
    let ghost after_outline = ops@;
    draw_crosshair_shape(&mut ops, config, cx, cy, rot, main, false);
    let ghost after_main = ops@;
    if config.show_dot {
        let d = config.dot_size;
        ops.push(
            DrawOp::Ellipse {
                left: cx - d,
                top: cy - d,
                right: cx + d,
                bottom: cy + d,
                pen: main,
                fill: Fill::Solid(color),
            },
        );
    }
    assert(ops@ =~= render_ops(config@, cx as int, cy as int, rot));
    ops
}

// ---- laws ----
proof fn lemma_scale_cancels(a: int)
    ensures
        trunc_div(a * ROTATION_SCALE - 0, ROTATION_SCALE as int) == a,
{
    if a >= 0 {
        assert((a * 16384) / 16384 == a) by (nonlinear_arith);
    } else {
        assert(((-a) * 16384) / 16384 == -a) by (nonlinear_arith);
        assert(-(a * 16384) == (-a) * 16384) by (nonlinear_arith);
    }
}

proof fn lemma_identity_fixes_point(cx: int, cy: int, x: int, y: int)
    ensures
        rot_x(cx, cy, x, y, Rotation::identity_spec()) == x,
        rot_y(cx, cy, x, y, Rotation::identity_spec()) == y,
{
    let r = Rotation::identity_spec();
    assert((x - cx) * r.cos - (y - cy) * r.sin == (x - cx) * ROTATION_SCALE - 0);
    lemma_scale_cancels(x - cx);
    assert((x - cx) * r.sin + (y - cy) * r.cos == (y - cy) * ROTATION_SCALE - 0);
    lemma_scale_cancels(y - cy);
}

/// Rotating by zero degrees leaves every endpoint of the classic cross where the
/// unrotated computation puts it.
pub proof fn lemma_zero_rotation_is_identity(c: ConfigView, cx: int, cy: int, pen: Pen)
    ensures
        classic_ops(c, cx, cy, Rotation::identity_spec(), pen) == plain_classic_ops(c, cx, cy, pen),
{
    let g = c.gap as int;
    let s = c.size as int;
    lemma_identity_fixes_point(cx, cy, cx, cy - g - s);
    lemma_identity_fixes_point(cx, cy, cx, cy - g);
    lemma_identity_fixes_point(cx, cy, cx, cy + g);
    lemma_identity_fixes_point(cx, cy, cx, cy + g + s);
    lemma_identity_fixes_point(cx, cy, cx - g - s, cy);
    lemma_identity_fixes_point(cx, cy, cx - g, cy);
    lemma_identity_fixes_point(cx, cy, cx + g, cy);
    lemma_identity_fixes_point(cx, cy, cx + g + s, cy);
    assert(classic_ops(c, cx, cy, Rotation::identity_spec(), pen) =~= plain_classic_ops(c, cx, cy, pen));
}

/// A custom reticle draws exactly one segment per configured line, and each endpoint
/// is the center plus that line's stored offset.
pub proof fn lemma_custom_draws_each_line(c: ConfigView, cx: int, cy: int, r: Rotation, pen: Pen, shadow: bool)
    requires
        c.valid(),
        c.style == CrosshairStyle::Custom,
        near(cx),
        near(cy),
    ensures
        shape_ops(c, cx, cy, r, pen, shadow).len() == c.lines.len(),
        forall|i: int|
            0 <= i < c.lines.len() ==> {
                let op = #[trigger] shape_ops(c, cx, cy, r, pen, shadow)[i];
                let l = c.lines[i];
                &&& op is Line
                &&& op->x1 == cx + l.start_x
                &&& op->y1 == cy + l.start_y
                &&& op->x2 == cx + l.end_x
                &&& op->y2 == cy + l.end_y
            },
{
    assert forall|i: int| 0 <= i < c.lines.len() implies {
        let op = #[trigger] shape_ops(c, cx, cy, r, pen, shadow)[i];
        let l = c.lines[i];
        &&& op is Line
        &&& op->x1 == cx + l.start_x
        &&& op->y1 == cy + l.start_y
        &&& op->x2 == cx + l.end_x
        &&& op->y2 == cy + l.end_y
    } by {
        assert(c.lines[i].valid());
    }
}

/// The `Dot` style contributes no shape primitive in any pass, so a frame holds only the
/// center dot when it is shown, and nothing otherwise.
pub proof fn lemma_dot_style_draws_only_dot(c: ConfigView, cx: int, cy: int, r: Rotation, pen: Pen, shadow: bool)
    requires
        c.style == CrosshairStyle::Dot,
    ensures
        shape_ops(c, cx, cy, r, pen, shadow).len() == 0,
        c.show_dot ==> render_ops(c, cx, cy, r) == seq![dot_op(c, cx, cy)],
        !c.show_dot ==> render_ops(c, cx, cy, r).len() == 0,
{
    assert(render_ops(c, cx, cy, r) =~= if c.show_dot {
        seq![dot_op(c, cx, cy)]
    } else {
        Seq::empty()
    });
}

} // verus!
