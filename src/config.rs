use vstd::prelude::*;

verus! {

/// Largest extent, in pixels, accepted for any length, offset or line coordinate.
pub const MAX_EXTENT: i32 = 10000;

/// Full opacity, in thousandths.
pub const FULL_OPACITY: i32 = 1000;

/// Largest 24-bit RGB value.
pub const MAX_RGB: u32 = 0xFFFFFF;

/// Which geometry routine draws the reticle.
#[derive(Clone, Copy, Debug, PartialEq, Eq, Structural)]
pub enum CrosshairStyle {
    Classic,
    Dot,
    Circle,
    Square,
    TShape,
    Custom,
}

/// One segment of a custom reticle; coordinates are offsets from the render center.
#[derive(Clone, Copy, Debug, PartialEq, Eq, Structural)]
pub struct CrosshairLine {
    pub start_x: i32,
    pub start_y: i32,
    pub end_x: i32,
    pub end_y: i32,
    pub thickness: i32,
    pub color: u32,
}

/// The user-tunable description of one reticle.
///
/// Opacity is held in thousandths (`1000` is opaque) and rotation in thousandths
/// of a degree, so that the whole value is made of plain integers.
#[derive(Debug, PartialEq, Eq)]
pub struct CrosshairConfig {
    pub enabled: bool,
    pub size: i32,
    pub thickness: i32,
    pub gap: i32,
    pub color: u32,
    pub outline_color: u32,
    pub outline_thickness: i32,
    pub show_dot: bool,
    pub dot_size: i32,
    pub show_outline: bool,
    pub opacity_permille: i32,
    pub style: CrosshairStyle,
    pub position_x: i32,
    pub position_y: i32,
    pub rotation_millideg: i32,
    pub t_length: i32,
    pub shadow_enabled: bool,
    pub shadow_color: u32,
    pub shadow_offset: i32,
    pub lines: Vec<CrosshairLine>,
}

/// The mathematical value of a [`CrosshairConfig`]: the same fields, with the
/// custom lines as a sequence.
pub struct ConfigView {
    pub enabled: bool,
    pub size: i32,
    pub thickness: i32,
    pub gap: i32,
    pub color: u32,
    pub outline_color: u32,
    pub outline_thickness: i32,
    pub show_dot: bool,
    pub dot_size: i32,
    pub show_outline: bool,
    pub opacity_permille: i32,
    pub style: CrosshairStyle,
    pub position_x: i32,
    pub position_y: i32,
    pub rotation_millideg: i32,
    pub t_length: i32,
    pub shadow_enabled: bool,
    pub shadow_color: u32,
    pub shadow_offset: i32,
    pub lines: Seq<CrosshairLine>,
}

impl View for CrosshairConfig {
    type V = ConfigView;

    open spec fn view(&self) -> ConfigView {
        ConfigView {
            enabled: self.enabled,
            size: self.size,
            thickness: self.thickness,
            gap: self.gap,
            color: self.color,
            outline_color: self.outline_color,
            outline_thickness: self.outline_thickness,
            show_dot: self.show_dot,
            dot_size: self.dot_size,
            show_outline: self.show_outline,
            opacity_permille: self.opacity_permille,
            style: self.style,
            position_x: self.position_x,
            position_y: self.position_y,
            rotation_millideg: self.rotation_millideg,
            t_length: self.t_length,
            shadow_enabled: self.shadow_enabled,
            shadow_color: self.shadow_color,
            shadow_offset: self.shadow_offset,
            lines: self.lines@,
        }
    }
}

pub open spec fn length_ok(v: i32) -> bool {
    0 <= v <= MAX_EXTENT
}

pub open spec fn offset_ok(v: i32) -> bool {
    -MAX_EXTENT <= v <= MAX_EXTENT
}

impl CrosshairLine {
    pub open spec fn valid(self) -> bool {
        &&& offset_ok(self.start_x)
        &&& offset_ok(self.start_y)
        &&& offset_ok(self.end_x)
        &&& offset_ok(self.end_y)
        &&& length_ok(self.thickness)
        &&& self.color <= MAX_RGB
    }

    /// Whether this line lies within the accepted bounds.
    pub fn is_valid(&self) -> (r: bool)
        ensures
            r == self.valid(),
    {
        -MAX_EXTENT <= self.start_x && self.start_x <= MAX_EXTENT
            && -MAX_EXTENT <= self.start_y && self.start_y <= MAX_EXTENT
            && -MAX_EXTENT <= self.end_x && self.end_x <= MAX_EXTENT
            && -MAX_EXTENT <= self.end_y && self.end_y <= MAX_EXTENT
            && 0 <= self.thickness && self.thickness <= MAX_EXTENT
            && self.color <= MAX_RGB
    }
}

impl ConfigView {
    /// A configuration is accepted when every length is non-negative and at most
    /// `MAX_EXTENT`, every offset lies within `MAX_EXTENT` of zero, every color is
    /// a 24-bit value, opacity lies between none and full, and so is each custom line.
    pub open spec fn valid(self) -> bool {
        &&& length_ok(self.size)
        &&& length_ok(self.thickness)
        &&& length_ok(self.gap)
        &&& length_ok(self.outline_thickness)
        &&& length_ok(self.dot_size)
        &&& length_ok(self.t_length)
        &&& offset_ok(self.position_x)
        &&& offset_ok(self.position_y)
        &&& offset_ok(self.shadow_offset)
        &&& self.color <= MAX_RGB
        &&& self.outline_color <= MAX_RGB
        &&& self.shadow_color <= MAX_RGB
        &&& 0 <= self.opacity_permille <= FULL_OPACITY
        &&& forall|i: int| 0 <= i < self.lines.len() ==> (#[trigger] self.lines[i]).valid()
    }

    /// Side of the square window that encloses the largest shape, with padding.
    pub open spec fn bounding_box(self) -> int {
        2 * (self.size + self.gap) + 2 * self.thickness + 20
    }

    /// Window alpha: opacity scaled to `0..=255`, rounded toward zero.
    pub open spec fn alpha(self) -> int {
        self.opacity_permille * 255 / 1000
    }

    /// This configuration with only its `enabled` flag replaced.
    pub open spec fn with_enabled(self, enabled: bool) -> ConfigView {
        ConfigView { enabled, ..self }
    }
}

/// The configuration a new overlay starts with: a green classic cross with an
/// outline and a center dot.
pub open spec fn default_view() -> ConfigView {
    ConfigView {
        enabled: true,
        size: 10,
        thickness: 2,
        gap: 5,
        color: 0x00FF00,
        outline_color: 0,
        outline_thickness: 1,
        show_dot: true,
        dot_size: 2,
        show_outline: true,
        opacity_permille: 1000,
        style: CrosshairStyle::Classic,
        position_x: 0,
        position_y: 0,
        rotation_millideg: 0,
        t_length: 15,
        shadow_enabled: false,
        shadow_color: 0,
        shadow_offset: 2,
        lines: Seq::empty(),
    }
}

impl Default for CrosshairConfig {
    fn default() -> (r: CrosshairConfig)
        ensures
            r@ == default_view(),
    {
        CrosshairConfig {
            enabled: true,
            size: 10,
            thickness: 2,
            gap: 5,
            color: 0x00FF00,
            outline_color: 0,
            outline_thickness: 1,
            show_dot: true,
            dot_size: 2,
            show_outline: true,
            opacity_permille: 1000,
            style: CrosshairStyle::Classic,
            position_x: 0,
            position_y: 0,
            rotation_millideg: 0,
            t_length: 15,
            shadow_enabled: false,
            shadow_color: 0,
            shadow_offset: 2,
            lines: Vec::new(),
        }
    }
}

impl CrosshairConfig {
    /// Whether this configuration lies within the accepted bounds.
    pub fn is_valid(&self) -> (r: bool)
        ensures
            r == self@.valid(),
    {
        let scalars_ok = 0 <= self.size && self.size <= MAX_EXTENT
            && 0 <= self.thickness && self.thickness <= MAX_EXTENT
            && 0 <= self.gap && self.gap <= MAX_EXTENT
            && 0 <= self.outline_thickness && self.outline_thickness <= MAX_EXTENT
            && 0 <= self.dot_size && self.dot_size <= MAX_EXTENT
            && 0 <= self.t_length && self.t_length <= MAX_EXTENT
            && -MAX_EXTENT <= self.position_x && self.position_x <= MAX_EXTENT
            && -MAX_EXTENT <= self.position_y && self.position_y <= MAX_EXTENT
            && -MAX_EXTENT <= self.shadow_offset && self.shadow_offset <= MAX_EXTENT
            && self.color <= MAX_RGB
            && self.outline_color <= MAX_RGB
            && self.shadow_color <= MAX_RGB
            && 0 <= self.opacity_permille && self.opacity_permille <= FULL_OPACITY;
        if !scalars_ok {
            return false;
        }
        let mut i: usize = 0;
        while i < self.lines.len()
            invariant
                0 <= i <= self.lines.len(),
                forall|j: int| 0 <= j < i ==> (#[trigger] self.lines@[j]).valid(),
            decreases self.lines.len() - i,
        {
            if !self.lines[i].is_valid() {
                assert(!self@.lines[i as int].valid());
                return false;
            }
            i = i + 1;
        }
        true
    }

    /// A copy of this configuration.
    pub fn duplicate(&self) -> (r: CrosshairConfig)
        ensures
            r@ == self@,
    {
        let mut lines: Vec<CrosshairLine> = Vec::new();
        let mut i: usize = 0;
        while i < self.lines.len()
            invariant
                0 <= i <= self.lines.len(),
                lines@ == self.lines@.subrange(0, i as int),
            decreases self.lines.len() - i,
        {
            lines.push(self.lines[i]);
            i = i + 1;
        }
        assert(lines@ == self.lines@);
        CrosshairConfig {
            enabled: self.enabled,
            size: self.size,
            thickness: self.thickness,
            gap: self.gap,
            color: self.color,
            outline_color: self.outline_color,
            outline_thickness: self.outline_thickness,
            show_dot: self.show_dot,
            dot_size: self.dot_size,
            show_outline: self.show_outline,
            opacity_permille: self.opacity_permille,
            style: self.style,
            position_x: self.position_x,
            position_y: self.position_y,
            rotation_millideg: self.rotation_millideg,
            t_length: self.t_length,
            shadow_enabled: self.shadow_enabled,
            shadow_color: self.shadow_color,
            shadow_offset: self.shadow_offset,
            lines,
        }
    }

    /// Side of the square window that encloses this reticle.
    pub fn bounding_box(&self) -> (r: i32)
        requires
            self@.valid(),
        ensures
            r == self@.bounding_box(),
    {
        (self.size + self.gap) * 2 + self.thickness * 2 + 20
    }

    /// The window alpha for this configuration's opacity.
    pub fn alpha(&self) -> (r: u8)
        requires
            self@.valid(),
        ensures
            r == self@.alpha(),
    {
        assert(0 <= self.opacity_permille * 255 / 1000 <= 255) by (nonlinear_arith)
            requires
                0 <= self.opacity_permille <= 1000,
        ;
        (self.opacity_permille * 255 / 1000) as u8
    }
}

} // verus!
