use vstd::prelude::*;
use crate::style::{IconName, Size, ThemeColor};

verus! {

/// A rating value is held in thousandths of a point: `3500` is three and a half.
pub const UNITS_PER_POINT: u32 = 1000;

/// The visual style of the rating component.
#[derive(Clone, Copy, Debug, PartialEq, Eq, Structural)]
pub enum RatingVariant {
    Star,
    Heart,
    /// Thumbs up when filled, thumbs down when empty.
    Thumb,
    /// One icon for both the filled and the empty state.
    Custom(IconName),
}

impl Default for RatingVariant {
    fn default() -> (r: Self)
        ensures
            r == RatingVariant::Star,
    {
        RatingVariant::Star
    }
}

/// Plain state of a rating: `value` in thousandths of a point, `max` the
/// number of positions.
pub struct RatingView {
    pub value: int,
    pub max: int,
    pub variant: RatingVariant,
    pub size: Size,
    pub readonly: bool,
    pub precision: bool,
    pub show_text: bool,
    pub disabled: bool,
    /// The owner attached a change handler.
    pub has_handler: bool,
}

/// `v` clamped into `[lo, hi]`.
pub open spec fn clamp(v: int, lo: int, hi: int) -> int {
    if v < lo {
        lo
    } else if v > hi {
        hi
    } else {
        v
    }
}

impl RatingView {
    /// The scale has at least one position and the value lies on it.
    pub open spec fn wf(self) -> bool {
        &&& 1 <= self.max <= 255
        &&& 0 <= self.value <= self.max * UNITS_PER_POINT
    }

    /// The state after setting the value to `v`: `v` clamped onto the scale.
    pub open spec fn set_value(self, v: int) -> RatingView {
        RatingView { value: clamp(v, 0, self.max * UNITS_PER_POINT), ..self }
    }

    /// The state after setting the scale to `m`: at least one position, and
    /// the value clamped onto the new scale.
    pub open spec fn set_max(self, m: int) -> RatingView {
        let max = if m < 1 {
            1
        } else {
            m
        };
        RatingView { max, value: clamp(self.value, 0, max * UNITS_PER_POINT), ..self }
    }
}

/// Fill of one rating position.
#[derive(Clone, Copy, Debug, PartialEq, Eq, Structural)]
pub enum Fill {
    Empty,
    Half,
    Full,
}

/// The filled icon drawn over the left half of a half-filled position.
#[derive(Clone, Copy, Debug, PartialEq, Eq, Structural)]
pub struct HalfOverlay {
    pub icon: IconName,
    pub color: ThemeColor,
}

/// How one position of a rating is drawn, and whether it takes clicks.
#[derive(Clone, Copy, Debug, PartialEq, Eq, Structural)]
pub struct RatingCell {
    /// The position, from one.
    pub position: u8,
    pub fill: Fill,
    pub icon: IconName,
    pub color: ThemeColor,
    pub overlay: Option<HalfOverlay>,
    pub interactive: bool,
}

/// Position `i` is filled when the value reaches it.
pub open spec fn is_filled(v: RatingView, i: int) -> bool {
    v.value >= i * UNITS_PER_POINT
}

/// Position `i` is half filled when half points are displayed and the value
/// lies in `[i - 1/2, i)`.
pub open spec fn is_half_filled(v: RatingView, i: int) -> bool {
    &&& v.precision
    &&& 2 * v.value >= (2 * i - 1) * UNITS_PER_POINT
    &&& v.value < i * UNITS_PER_POINT
}

/// The icon of a variant in its filled or empty state.
pub open spec fn icon_for(variant: RatingVariant, filled: bool) -> IconName {
    match variant {
        RatingVariant::Star => if filled {
            IconName::Star
        } else {
            IconName::StarOff
        },
        RatingVariant::Heart => if filled {
            IconName::Heart
        } else {
            IconName::HeartOff
        },
        RatingVariant::Thumb => if filled {
            IconName::ThumbsUp
        } else {
            IconName::ThumbsDown
        },
        RatingVariant::Custom(icon) => icon,
    }
}

/// The colour of a position: muted when disabled or neither filled nor
/// hovered, else the variant's own colour.
pub open spec fn color_for(
    disabled: bool,
    variant: RatingVariant,
    filled: bool,
    hovered: bool,
) -> ThemeColor {
    if disabled || !(filled || hovered) {
        ThemeColor::MutedForeground
    } else {
        match variant {
            RatingVariant::Star => ThemeColor::Warning,
            RatingVariant::Heart => ThemeColor::Danger,
            RatingVariant::Thumb => ThemeColor::Success,
            RatingVariant::Custom(_) => ThemeColor::Primary,
        }
    }
}

/// The fill of position `i`.
pub open spec fn fill_at(v: RatingView, i: int) -> Fill {
    if is_filled(v, i) {
        Fill::Full
    } else if is_half_filled(v, i) {
        Fill::Half
    } else {
        Fill::Empty
    }
}

/// The cell drawn at position `i`.
pub open spec fn cell_at(v: RatingView, i: int) -> RatingCell {
    let filled = is_filled(v, i);
    let half = is_half_filled(v, i);
    RatingCell {
        position: i as u8,
        fill: fill_at(v, i),
        icon: icon_for(v.variant, filled || half),
        color: color_for(v.disabled, v.variant, filled, false),
        overlay: if half {
            Some(
                HalfOverlay {
                    icon: icon_for(v.variant, true),
                    color: color_for(v.disabled, v.variant, true, false),
                },
            )
        } else {
            None
        },
        interactive: !v.readonly && !v.disabled,
    }
}

/// The value, in thousandths of a point, that a click on position `i` hands
/// to the change handler: the whole point `i`, whatever the precision;
/// nothing when the rating is read-only or disabled or has no handler.
pub open spec fn click_value(v: RatingView, i: int) -> Option<int> {
    if v.readonly || v.disabled || !v.has_handler {
        None
    } else {
        Some(i * UNITS_PER_POINT)
    }
}

/// The value `v`, in thousandths, rounded to tenths of a point, a tie going
/// to the even tenth.
pub open spec fn tenths_of(v: int) -> int {
    let q = v / 100;
    let rem = v % 100;
    if rem > 50 || (rem == 50 && q % 2 == 1) {
        q + 1
    } else {
        q
    }
}

/// Icon size in pixels for a size class.
pub open spec fn icon_px_of(size: Size) -> int {
    match size {
        Size::XSmall => 12,
        Size::Small => 16,
        Size::Medium => 20,
        Size::Large => 24,
        Size::Custom(px) => px as int,
    }
}

/// Gap between positions in quarter pixels for a size class: a quarter of
/// the icon size for a custom size.
pub open spec fn gap_quarter_px_of(size: Size) -> int {
    match size {
        Size::XSmall => 8,
        Size::Small => 12,
        Size::Medium => 16,
        Size::Large => 20,
        Size::Custom(px) => px as int,
    }
}

/// A rating selector. Its value always lies in `[0, max_rating]`.
#[derive(Debug)]
pub struct Rating {
    id: String,
    value: u32,
    max_rating: u8,
    variant: RatingVariant,
    size: Size,
    readonly: bool,
    precision: bool,
    show_text: bool,
    disabled: bool,
    has_handler: bool,
}

impl View for Rating {
    type V = RatingView;

    closed spec fn view(&self) -> RatingView {
        RatingView {
            value: self.value as int,
            max: self.max_rating as int,
            variant: self.variant,
            size: self.size,
            readonly: self.readonly,
            precision: self.precision,
            show_text: self.show_text,
            disabled: self.disabled,
            has_handler: self.has_handler,
        }
    }
}

impl Rating {
    #[verifier::type_invariant]
    closed spec fn inv(&self) -> bool {
        self@.wf()
    }

    /// A rating named `id`: value zero on five stars, medium size, editable,
    /// whole-point display, no text, no change handler.
    pub fn new(id: String) -> (r: Self)
        ensures
            r.id() == id,
            r@ == (RatingView {
                value: 0,
                max: 5,
                variant: RatingVariant::Star,
                size: Size::Medium,
                readonly: false,
                precision: false,
                show_text: false,
                disabled: false,
                has_handler: false,
            }),
            r@.wf(),
    {
        Rating {
            id,
            value: 0,
            max_rating: 5,
            variant: RatingVariant::default(),
            size: Size::Medium,
            readonly: false,
            precision: false,
            show_text: false,
            disabled: false,
            has_handler: false,
        }
    }

    pub closed spec fn id(&self) -> String {
        self.id
    }

    /// The element id of the rating.
    pub fn get_id(&self) -> (r: &String)
        ensures
            *r == self.id(),
    {
        &self.id
    }

    /// The value in thousandths of a point.
    pub fn get_value(&self) -> (r: u32)
        ensures
            r == self@.value,
    {
        self.value
    }

    /// The number of positions.
    pub fn get_max_rating(&self) -> (r: u8)
        ensures
            r == self@.max,
    {
        self.max_rating
    }

    /// Sets the value, given in thousandths of a point, clamped onto the scale.
    pub fn value(self, value: i64) -> (r: Self)
        ensures
            r@ == self@.set_value(value as int),
            r.id() == self.id(),
            r@.wf(),
    {
        proof {
            use_type_invariant(&self);
        }
        let top = self.max_rating as u32 * UNITS_PER_POINT;
        let clamped: u32 = if value < 0 {
            0
        } else if value > top as i64 {
            top
        } else {
            value as u32
        };
        Rating { value: clamped, ..self }
    }

    /// Sets the number of positions, at least one, and clamps the value onto
    /// the new scale.
    pub fn max_rating(self, max: u8) -> (r: Self)
        ensures
            r@ == self@.set_max(max as int),
            r.id() == self.id(),
            r@.wf(),
    {
        let max_rating: u8 = if max < 1 {
            1
        } else {
            max
        };
        let top = max_rating as u32 * UNITS_PER_POINT;
        let value = if self.value > top {
            top
        } else {
            self.value
        };
        Rating { max_rating, value, ..self }
    }

    pub fn variant(self, variant: RatingVariant) -> (r: Self)
        ensures
            r@ == (RatingView { variant, ..self@ }),
            r.id() == self.id(),
            r@.wf(),
    {
        proof {
            use_type_invariant(&self);
        }
        Rating { variant, ..self }
    }

    /// Read-only ratings do not react to the pointer.
    pub fn readonly(self, readonly: bool) -> (r: Self)
        ensures
            r@ == (RatingView { readonly, ..self@ }),
            r.id() == self.id(),
            r@.wf(),
    {
        proof {
            use_type_invariant(&self);
        }
        Rating { readonly, ..self }
    }

    /// Half-point display of fractional values.
    pub fn precision(self, precision: bool) -> (r: Self)
        ensures
            r@ == (RatingView { precision, ..self@ }),
            r.id() == self.id(),
            r@.wf(),
    {
        proof {
            use_type_invariant(&self);
        }
        Rating { precision, ..self }
    }

    /// Shows the numeric value beside the icons.
    pub fn show_text(self, show: bool) -> (r: Self)
        ensures
            r@ == (RatingView { show_text: show, ..self@ }),
            r.id() == self.id(),
            r@.wf(),
    {
        proof {
            use_type_invariant(&self);
        }
        Rating { show_text: show, ..self }
    }

    pub fn disabled(self, disabled: bool) -> (r: Self)
        ensures
            r@ == (RatingView { disabled, ..self@ }),
            r.id() == self.id(),
            r@.wf(),
    {
        proof {
            use_type_invariant(&self);
        }
        Rating { disabled, ..self }
    }

    /// Marks the rating as having a change handler; the handler stays with the
    /// owner, which receives the values from [`Rating::handle_click`].
    pub fn on_rating(self) -> (r: Self)
        ensures
            r@ == (RatingView { has_handler: true, ..self@ }),
            r.id() == self.id(),
            r@.wf(),
    {
        proof {
            use_type_invariant(&self);
        }
        Rating { has_handler: true, ..self }
    }

    pub fn with_size(self, size: Size) -> (r: Self)
        ensures
            r@ == (RatingView { size, ..self@ }),
            r.id() == self.id(),
            r@.wf(),
    {
        proof {
            use_type_invariant(&self);
        }
        Rating { size, ..self }
    }

    pub fn size(self, size: Size) -> (r: Self)
        ensures
            r@ == (RatingView { size, ..self@ }),
            r.id() == self.id(),
            r@.wf(),
    {
        proof {
            use_type_invariant(&self);
        }
        self.with_size(size)
    }

    /// The icon of this rating's variant in its filled or empty state.
    pub fn get_icon(&self, filled: bool) -> (r: IconName)
        ensures
            r == icon_for(self@.variant, filled),
    {
        match self.variant {
            RatingVariant::Star => {
                if filled {
                    IconName::Star
                } else {
                    IconName::StarOff
                }
            },
            RatingVariant::Heart => {
                if filled {
                    IconName::Heart
                } else {
                    IconName::HeartOff
                }
            },
            RatingVariant::Thumb => {
                if filled {
                    IconName::ThumbsUp
                } else {
                    IconName::ThumbsDown
                }
            },
            RatingVariant::Custom(icon) => icon,
        }
    }

    /// The colour of a position in the given state.
    pub fn get_color(&self, filled: bool, hovered: bool) -> (r: ThemeColor)
        ensures
            r == color_for(self@.disabled, self@.variant, filled, hovered),
    {
        if self.disabled {
            return ThemeColor::MutedForeground;
        }
        if !(filled || hovered) {
            return ThemeColor::MutedForeground;
        }
        match self.variant {
            RatingVariant::Star => ThemeColor::Warning,
            RatingVariant::Heart => ThemeColor::Danger,
            RatingVariant::Thumb => ThemeColor::Success,
            RatingVariant::Custom(_) => ThemeColor::Primary,
        }
    }

    /// The value, in thousandths of a point, to hand to the owner's change
    /// handler when position `position` is clicked; `None` when the rating
    /// takes no clicks. The rating itself does not change.
    pub fn handle_click(&self, position: u8) -> (r: Option<u32>)
        ensures
            r matches Some(x) ==> click_value(self@, position as int) == Some(x as int),
            r is None ==> click_value(self@, position as int) is None,
    {
        if self.readonly || self.disabled {
            return None;
        }
        if !self.has_handler {
            return None;
        }
        let clicked = position as u32 * UNITS_PER_POINT;
        assert(clicked as int % 1000 == 0) by (nonlinear_arith)
            requires
                clicked == position * 1000,
        ;
        let new_value = if self.precision {
            clicked
        } else {
            ceil_to_point(clicked)
        };
        Some(new_value)
    }

    /// The cell drawn at `position`.
    pub fn render_cell(&self, position: u8) -> (r: RatingCell)
        ensures
            r == cell_at(self@, position as int),
    {
        let point = position as u64 * UNITS_PER_POINT as u64;
        let value = self.value as u64;
        let filled = value >= point;
        let half = self.precision && 2 * value + UNITS_PER_POINT as u64 >= 2 * point && value
            < point;
        let fill = if filled {
            Fill::Full
        } else if half {
            Fill::Half
        } else {
            Fill::Empty
        };
        let overlay = if half {
            Some(HalfOverlay { icon: self.get_icon(true), color: self.get_color(true, false) })
        } else {
            None
        };
        RatingCell {
            position,
            fill,
            icon: self.get_icon(filled || half),
            color: self.get_color(filled, false),
            overlay,
            interactive: !self.readonly && !self.disabled,
        }
    }

    /// The cells of positions `1..=max_rating`, in order.
    pub fn render(&self) -> (r: Vec<RatingCell>)
        ensures
            r@.len() == self@.max,
            forall|k: int| 0 <= k < r@.len() ==> #[trigger] r@[k] == cell_at(self@, k + 1),
    {
        proof {
            use_type_invariant(self);
        }
        let mut cells: Vec<RatingCell> = Vec::new();
        let mut i: u16 = 1;
        while i <= self.max_rating as u16
            invariant
                1 <= i <= self.max_rating as int + 1,
                self@.wf(),
                cells@.len() == i - 1,
                forall|k: int| 0 <= k < cells@.len() ==> #[trigger] cells@[k] == cell_at(self@, k + 1),
            decreases self.max_rating as int + 1 - i,
        {
            cells.push(self.render_cell(i as u8));
            i = i + 1;
        }
        cells
    }

    /// The value in tenths of a point, as the numeric text shows it with one
    /// decimal: `35` reads "3.5".
    pub fn text_tenths(&self) -> (r: u32)
        ensures
            r == tenths_of(self@.value),
    {
        proof {
            use_type_invariant(self);
        }
        let q = self.value / 100;
        let rem = self.value % 100;
        if rem > 50 || (rem == 50 && q % 2 == 1) {
            q + 1
        } else {
            q
        }
    }

    /// Icon size in pixels.
    pub fn icon_px(&self) -> (r: u32)
        ensures
            r == icon_px_of(self@.size),
    {
        match self.size {
            Size::XSmall => 12,
            Size::Small => 16,
            Size::Medium => 20,
            Size::Large => 24,
            Size::Custom(px) => px,
        }
    }

    /// Gap between positions in quarter pixels.
    pub fn gap_quarter_px(&self) -> (r: u32)
        ensures
            r == gap_quarter_px_of(self@.size),
    {
        match self.size {
            Size::XSmall => 8,
            Size::Small => 12,
            Size::Medium => 16,
            Size::Large => 20,
            Size::Custom(px) => px,
        }
    }
}

/// The smallest whole point, in thousandths, at or above `v`.
fn ceil_to_point(v: u32) -> (r: u32)
    requires
        v <= 255 * UNITS_PER_POINT,
    ensures
        r as int % 1000 == 0,
        v <= r < v + UNITS_PER_POINT,
        v as int % 1000 == 0 ==> r == v,
{
    let r = (v + (UNITS_PER_POINT - 1)) / UNITS_PER_POINT * UNITS_PER_POINT;
    assert(r as int % 1000 == 0 && v <= r < v + 1000 && (v as int % 1000 == 0 ==> r == v))
        by (nonlinear_arith)
        requires
            r == (v + 999) / 1000 * 1000,
    ;
    r
}

/// A change of the value or of the scale, with the argument the setter takes.
pub enum RatingUpdate {
    Value(i64),
    MaxRating(u8),
}

/// The state after one update.
pub open spec fn apply_update(v: RatingView, u: RatingUpdate) -> RatingView {
    match u {
        RatingUpdate::Value(x) => v.set_value(x as int),
        RatingUpdate::MaxRating(m) => v.set_max(m as int),
    }
}

/// The state after the updates `us`, in order.
pub open spec fn apply_updates(v: RatingView, us: Seq<RatingUpdate>) -> RatingView
    decreases us.len(),
{
    if us.len() == 0 {
        v
    } else {
        apply_updates(apply_update(v, us[0]), us.drop_first())
    }
}

/// After any sequence of value and scale updates the scale has at least one
/// position and the value lies in `[0, max]`.
pub proof fn lemma_updates_stay_on_scale(v: RatingView, us: Seq<RatingUpdate>)
    requires
        v.wf(),
    ensures
        apply_updates(v, us).wf(),
    decreases us.len(),
{
    if us.len() > 0 {
        let next = apply_update(v, us[0]);
        assert(next.wf()) by (nonlinear_arith)
            requires
                v.wf(),
                next == apply_update(v, us[0]),
        ;
        lemma_updates_stay_on_scale(next, us.drop_first());
    }
}

/// At every position: filled means the value reaches it; half filled means
/// half points are displayed and the value lies in `[i - 1/2, i)`; no
/// position is both.
pub proof fn lemma_fill_classes(v: RatingView, i: int)
    requires
        v.wf(),
        1 <= i <= v.max,
    ensures
        fill_at(v, i) == Fill::Full <==> is_filled(v, i),
        is_filled(v, i) ==> v.value >= i * UNITS_PER_POINT,
        fill_at(v, i) == Fill::Half <==> is_half_filled(v, i),
        is_half_filled(v, i) ==> v.precision && 2 * v.value >= (2 * i - 1) * UNITS_PER_POINT
            && v.value < i * UNITS_PER_POINT,
        !(is_filled(v, i) && is_half_filled(v, i)),
{
}

/// A click on position `i` asks for the value `i` whether or not half points
/// are displayed.
pub proof fn lemma_click_ignores_precision(v: RatingView, i: int, precision: bool)
    ensures
        click_value(RatingView { precision, ..v }, i) == click_value(v, i),
        !v.readonly && !v.disabled && v.has_handler ==> click_value(v, i) == Some(i
            * UNITS_PER_POINT),
{
}

} // verus!
