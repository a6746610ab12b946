use vstd::prelude::*;
use crate::style::{IconName, Size, ThemeColor};

verus! {

/// Separator styles for breadcrumbs.
#[derive(Clone, Copy, Debug, PartialEq, Eq, Structural)]
pub enum BreadcrumbSeparator {
    /// Forward slash separator (/)
    Slash,
    /// Chevron right separator (>)
    ChevronRight,
    /// Dot separator
    Dot,
    /// Custom icon separator
    Icon(IconName),
}

impl Default for BreadcrumbSeparator {
    fn default() -> (r: Self)
        ensures
            r == BreadcrumbSeparator::ChevronRight,
    {
        BreadcrumbSeparator::ChevronRight
    }
}

/// One segment of a breadcrumb trail.
///
/// `clickable` records that the owner attached an activation handler; the
/// handler itself stays with the owner, which receives the item's index
/// from [`Breadcrumb::activate`].
#[derive(Debug)]
pub struct BreadcrumbItem {
    pub label: String,
    pub icon: Option<IconName>,
    pub clickable: bool,
    pub disabled: bool,
}

impl BreadcrumbItem {
    /// A plain item with the given label: no icon, no handler, enabled.
    pub fn new(label: String) -> (r: Self)
        ensures
            r.label == label,
            r.icon.is_none(),
            !r.clickable,
            !r.disabled,
    {
        BreadcrumbItem { label, icon: None, clickable: false, disabled: false }
    }

    /// Sets an icon shown ahead of the label.
    pub fn icon(self, icon: IconName) -> (r: Self)
        ensures
            r == (BreadcrumbItem { icon: Some(icon), ..self }),
    {
        BreadcrumbItem { icon: Some(icon), ..self }
    }

    pub fn disabled(self, disabled: bool) -> (r: Self)
        ensures
            r == (BreadcrumbItem { disabled, ..self }),
    {
        BreadcrumbItem { disabled, ..self }
    }

    /// Marks the item as having an activation handler.
    pub fn on_click(self) -> (r: Self)
        ensures
            r == (BreadcrumbItem { clickable: true, ..self }),
    {
        BreadcrumbItem { clickable: true, ..self }
    }

    /// The view of this item at `position` of the shown items, taken from
    /// `index` of the trail.
    pub fn render(&self, position: usize, index: usize, is_last: bool, trail_disabled: bool) -> (r:
        ItemView)
        ensures
            r == item_view(*self, position, index, is_last, trail_disabled),
    {
        let disabled = self.disabled || trail_disabled;
        let mut color = ThemeColor::MutedForeground;
        if is_last {
            color = ThemeColor::Foreground;
        }
        if disabled {
            color = ThemeColor::MutedForeground;
        }
        let interactive = !disabled && !is_last;
        ItemView {
            position,
            index,
            is_last,
            color,
            medium_weight: is_last,
            dimmed: disabled,
            hoverable: interactive,
            clickable: interactive && self.clickable,
        }
    }
}

/// How one item of a trail is drawn, and whether it reacts to the pointer.
#[derive(Clone, Copy, Debug, PartialEq, Eq, Structural)]
pub struct ItemView {
    /// Place of the item among the shown items.
    pub position: usize,
    /// Index of the item in the whole trail.
    pub index: usize,
    pub is_last: bool,
    pub color: ThemeColor,
    pub medium_weight: bool,
    /// Drawn at reduced opacity.
    pub dimmed: bool,
    /// Highlights under the pointer.
    pub hoverable: bool,
    /// Reports activation to the owner.
    pub clickable: bool,
}

/// The view of `item`, shown at `position` and taken from `index`, in a trail
/// whose own disabled flag is `trail_disabled`: the last item is emphasised,
/// a disabled one is muted and dimmed, and only an enabled item that is not
/// the last reacts to the pointer.
pub open spec fn item_view(
    item: BreadcrumbItem,
    position: usize,
    index: usize,
    is_last: bool,
    trail_disabled: bool,
) -> ItemView {
    let disabled = item.disabled || trail_disabled;
    ItemView {
        position,
        index,
        is_last,
        color: if disabled {
            ThemeColor::MutedForeground
        } else if is_last {
            ThemeColor::Foreground
        } else {
            ThemeColor::MutedForeground
        },
        medium_weight: is_last,
        dimmed: disabled,
        hoverable: !disabled && !is_last,
        clickable: !disabled && !is_last && item.clickable,
    }
}

/// The integers `lo, lo + 1, ..., hi - 1`.
pub open spec fn index_range(lo: int, hi: int) -> Seq<int> {
    Seq::new((hi - lo) as nat, |k: int| lo + k)
}

/// Whether a trail of `n` items under the cap `max` is shortened with an
/// ellipsis: only when it is longer than a cap of at least three.
pub open spec fn shows_ellipsis(n: int, max: Option<usize>) -> bool {
    match max {
        None => false,
        Some(m) => n > m && m >= 3,
    }
}

/// Indices of the items of a trail of `n` items that are shown under the cap
/// `max`: all of them without a cap; the first and the last `m - 2` when the
/// ellipsis is shown; otherwise the last `m` (all, when `n <= m`).
pub open spec fn display_indices(n: int, max: Option<usize>) -> Seq<int> {
    match max {
        None => index_range(0, n),
        Some(m) => if shows_ellipsis(n, max) {
            seq![0int] + index_range(n - (m - 2), n)
        } else {
            index_range(if n > m { n - m } else { 0 }, n)
        },
    }
}

/// `v` holds the integers of `s`, in order.
pub open spec fn same_indices(v: Seq<usize>, s: Seq<int>) -> bool {
    &&& v.len() == s.len()
    &&& forall|k: int| 0 <= k < s.len() ==> v[k] as int == s[k]
}

/// The items of `items` that are shown under the cap `max`, in order.
pub open spec fn shown_items(items: Seq<BreadcrumbItem>, max: Option<usize>) -> Seq<BreadcrumbItem> {
    display_indices(items.len() as int, max).map_values(|i: int| items[i])
}

/// How a separator is drawn.
#[derive(Clone, Copy, Debug, PartialEq, Eq)]
pub enum SeparatorGlyph {
    Text(&'static str),
    Icon(IconName),
}

/// A separator between two shown items.
#[derive(Clone, Copy, Debug, PartialEq, Eq, Structural)]
pub struct BreadcrumbSeparatorElement {
    pub separator: BreadcrumbSeparator,
}

/// The glyph of a separator style: slash and dot are text, the chevron and a
/// custom icon are icons.
pub open spec fn separator_glyph(separator: BreadcrumbSeparator) -> SeparatorGlyph {
    match separator {
        BreadcrumbSeparator::Slash => SeparatorGlyph::Text("/"),
        BreadcrumbSeparator::ChevronRight => SeparatorGlyph::Icon(IconName::ChevronRight),
        BreadcrumbSeparator::Dot => SeparatorGlyph::Text("\u{2022}"),
        BreadcrumbSeparator::Icon(icon) => SeparatorGlyph::Icon(icon),
    }
}

impl BreadcrumbSeparatorElement {
    pub fn new(separator: BreadcrumbSeparator) -> (r: Self)
        ensures
            r.separator == separator,
    {
        BreadcrumbSeparatorElement { separator }
    }

    /// The glyph to draw; every separator is drawn in the muted colour.
    pub fn render(&self) -> (r: (SeparatorGlyph, ThemeColor))
        ensures
            r.0 == separator_glyph(self.separator),
            r.1 == ThemeColor::MutedForeground,
    {
        let glyph = match self.separator {
            BreadcrumbSeparator::Slash => SeparatorGlyph::Text("/"),
            BreadcrumbSeparator::ChevronRight => SeparatorGlyph::Icon(IconName::ChevronRight),
            BreadcrumbSeparator::Dot => SeparatorGlyph::Text("\u{2022}"),
            BreadcrumbSeparator::Icon(icon) => SeparatorGlyph::Icon(icon),
        };
        (glyph, ThemeColor::MutedForeground)
    }
}

/// One node of a rendered trail.
#[derive(Clone, Copy, Debug, PartialEq, Eq, Structural)]
pub enum BreadcrumbNode {
    Separator(BreadcrumbSeparatorElement),
    /// The marker standing for items left out.
    Ellipsis,
    Item(ItemView),
}

/// The nodes for the shown item at `position`: the first stands alone; with
/// an ellipsis, the second is preceded by a separator and the marker and by
/// no separator after the marker; every other one by a separator.
pub open spec fn nodes_at(
    separator: BreadcrumbSeparator,
    ellipsis: bool,
    position: int,
    view: ItemView,
) -> Seq<BreadcrumbNode> {
    let sep = BreadcrumbNode::Separator(BreadcrumbSeparatorElement { separator });
    if position == 0 {
        seq![BreadcrumbNode::Item(view)]
    } else if ellipsis && position == 1 {
        seq![sep, BreadcrumbNode::Ellipsis, BreadcrumbNode::Item(view)]
    } else {
        seq![sep, BreadcrumbNode::Item(view)]
    }
}

/// The nodes of the first `k` shown items of trail `b`.
pub open spec fn trail_prefix(b: Breadcrumb, k: int) -> Seq<BreadcrumbNode>
    decreases k,
{
    if k <= 0 {
        seq![]
    } else {
        let shown = display_indices(b.items@.len() as int, b.max_items);
        let index = shown[k - 1];
        let view = item_view(
            b.items@[index],
            (k - 1) as usize,
            index as usize,
            k - 1 == shown.len() - 1,
            b.disabled,
        );
        trail_prefix(b, k - 1) + nodes_at(
            b.separator,
            shows_ellipsis(b.items@.len() as int, b.max_items),
            k - 1,
            view,
        )
    }
}

/// All nodes of trail `b`, in order.
pub open spec fn trail_nodes(b: Breadcrumb) -> Seq<BreadcrumbNode> {
    trail_prefix(b, display_indices(b.items@.len() as int, b.max_items).len() as int)
}

/// Text size class applied to a whole trail.
#[derive(Clone, Copy, Debug, PartialEq, Eq, Structural)]
pub enum TextSize {
    ExtraSmall,
    Small,
    Base,
    Inherit,
}

/// A breadcrumb navigation trail, root to leaf.
#[derive(Debug)]
pub struct Breadcrumb {
    pub items: Vec<BreadcrumbItem>,
    pub separator: BreadcrumbSeparator,
    pub size: Size,
    pub disabled: bool,
    pub max_items: Option<usize>,
}

impl Breadcrumb {
    /// An empty trail with chevron separators, medium size, enabled, uncapped.
    pub fn new() -> (r: Self)
        ensures
            r.items@.len() == 0,
            r.separator == BreadcrumbSeparator::ChevronRight,
            r.size == Size::Medium,
            !r.disabled,
            r.max_items.is_none(),
    {
        Breadcrumb {
            items: Vec::new(),
            separator: BreadcrumbSeparator::default(),
            size: Size::Medium,
            disabled: false,
            max_items: None,
        }
    }

    /// Adds an item at the end of the trail.
    pub fn child(self, item: BreadcrumbItem) -> (r: Self)
        ensures
            r.items@ == self.items@.push(item),
            r.separator == self.separator,
            r.size == self.size,
            r.disabled == self.disabled,
            r.max_items == self.max_items,
    {
        let mut b = self;
        b.items.push(item);
        b
    }

    /// Adds several items at the end of the trail, in order.
    pub fn children(self, items: Vec<BreadcrumbItem>) -> (r: Self)
        ensures
            r.items@ == self.items@ + items@,
            r.separator == self.separator,
            r.size == self.size,
            r.disabled == self.disabled,
            r.max_items == self.max_items,
    {
        let mut b = self;
        let mut rest = items;
        b.items.append(&mut rest);
        b
    }

    /// Sets the separator style.
    pub fn separator(self, separator: BreadcrumbSeparator) -> (r: Self)
        ensures
            r == (Breadcrumb { separator, ..self }),
    {
        Breadcrumb { separator, ..self }
    }

    /// Caps the number of items shown.
    pub fn max_items(self, max: usize) -> (r: Self)
        ensures
            r == (Breadcrumb { max_items: Some(max), ..self }),
    {
        Breadcrumb { max_items: Some(max), ..self }
    }

    /// Disables the whole trail: no item reacts to the pointer.
    pub fn disabled(self, disabled: bool) -> (r: Self)
        ensures
            r == (Breadcrumb { disabled, ..self }),
    {
        Breadcrumb { disabled, ..self }
    }

    pub fn with_size(self, size: Size) -> (r: Self)
        ensures
            r == (Breadcrumb { size, ..self }),
    {
        Breadcrumb { size, ..self }
    }

    /// Text size of the trail: extra small for `XSmall`, small for `Small`
    /// and `Medium`, base for `Large`, inherited for a custom size.
    pub fn text_size(&self) -> (r: TextSize)
        ensures
            r == match self.size {
                Size::XSmall => TextSize::ExtraSmall,
                Size::Small | Size::Medium => TextSize::Small,
                Size::Large => TextSize::Base,
                Size::Custom(_) => TextSize::Inherit,
            },
    {
        match self.size {
            Size::XSmall => TextSize::ExtraSmall,
            Size::Small => TextSize::Small,
            Size::Medium => TextSize::Small,
            Size::Large => TextSize::Base,
            Size::Custom(_) => TextSize::Inherit,
        }
    }

    /// Indices into `items` of the items to show, and whether an ellipsis
    /// stands for the ones left out.
    pub fn get_display_items(&self) -> (r: (Vec<usize>, bool))
        ensures
            same_indices(r.0@, display_indices(self.items@.len() as int, self.max_items)),
            r.1 == shows_ellipsis(self.items@.len() as int, self.max_items),
    {
        let n = self.items.len();
        let mut shown: Vec<usize> = Vec::new();
        let (start, ellipsis) = match self.max_items {
            Some(max) => {
                if n > max && max >= 3 {
                    shown.push(0);
                    (n - (max - 2), true)
                } else {
                    (n.saturating_sub(max), false)
                }
            },
            None => (0, false),
        };
        let ghost first: Seq<int> = if ellipsis { seq![0int] } else { seq![] };
        let mut i: usize = start;
        while i < n
            invariant
                start <= i <= n,
                same_indices(shown@, first + index_range(start as int, i as int)),
            decreases n - i,
        {
            shown.push(i);
            i = i + 1;
        }
        assert(first + index_range(start as int, n as int) =~= display_indices(
            n as int,
            self.max_items,
        ));
        (shown, ellipsis)
    }

    /// The nodes of the trail, in order: shown items, separators and the
    /// ellipsis marker.
    pub fn render(&self) -> (r: Vec<BreadcrumbNode>)
        ensures
            r@ == trail_nodes(*self),
    {
        let (shown, ellipsis) = self.get_display_items();
        let ghost n = self.items@.len() as int;
        proof {
            lemma_display_in_bounds(n, self.max_items);
        }
        let count = shown.len();
        let mut nodes: Vec<BreadcrumbNode> = Vec::new();
        let mut ix: usize = 0;
        while ix < count
            invariant
                ix <= count,
                count == shown@.len(),
                same_indices(shown@, display_indices(n, self.max_items)),
                ellipsis == shows_ellipsis(n, self.max_items),
                n == self.items@.len(),
                forall|k: int| 0 <= k < count ==> 0 <= #[trigger] shown@[k] < n,
                nodes@ == trail_prefix(*self, ix as int),
            decreases count - ix,
        {
            let index = shown[ix];
            let sep = BreadcrumbNode::Separator(BreadcrumbSeparatorElement::new(self.separator));
            if ellipsis && ix == 1 {
                nodes.push(sep);
                nodes.push(BreadcrumbNode::Ellipsis);
            }
            if ix > 0 && !(ellipsis && ix == 1) {
                nodes.push(sep);
            }
            let view = self.items[index].render(ix, index, ix == count - 1, self.disabled);
            nodes.push(BreadcrumbNode::Item(view));
            proof {
                let sh = display_indices(n, self.max_items);
                assert(nodes@ =~= trail_prefix(*self, ix as int) + nodes_at(
                    self.separator,
                    ellipsis,
                    ix as int,
                    item_view(self.items@[sh[ix as int]], ix, index, ix == count - 1, self.disabled),
                ));
            }
            ix = ix + 1;
        }
        nodes
    }

    /// Index in the trail of the item shown at `position`, where that item
    /// reports activation; `None` where it is inert or there is no such item.
    pub fn activate(&self, position: usize) -> (r: Option<usize>)
        ensures
            ({
                let shown = display_indices(self.items@.len() as int, self.max_items);
                r == if 0 <= position < shown.len() && item_view(
                    self.items@[shown[position as int]],
                    position,
                    shown[position as int] as usize,
                    position == shown.len() - 1,
                    self.disabled,
                ).clickable {
                    Some(shown[position as int] as usize)
                } else {
                    None
                }
            }),
    {
        let (shown, _) = self.get_display_items();
        proof {
            lemma_display_in_bounds(self.items@.len() as int, self.max_items);
        }
        if position < shown.len() {
            let index = shown[position];
            let view = self.items[index].render(
                position,
                index,
                position == shown.len() - 1,
                self.disabled,
            );
            if view.clickable {
                Some(index)
            } else {
                None
            }
        } else {
            None
        }
    }
}

/// Every shown index points into the trail.
pub proof fn lemma_display_in_bounds(n: int, max: Option<usize>)
    requires
        n >= 0,
    ensures
        forall|k: int|
            0 <= k < display_indices(n, max).len() ==> 0 <= #[trigger] display_indices(n, max)[k]
                < n,
{
}

/// Navigates to the level `index` of `path`: keeps its first `index + 1`
/// entries and discards everything deeper.
pub fn navigate_to(path: &mut Vec<String>, index: usize)
    ensures
        final(path)@ == if index < old(path)@.len() {
            old(path)@.take(index + 1)
        } else {
            old(path)@
        },
{
    if index < path.len() {
        path.truncate(index + 1);
    }
}

/// Without a cap every item is shown, in order, and no ellipsis.
pub proof fn lemma_uncapped_shows_all(items: Seq<BreadcrumbItem>)
    ensures
        shown_items(items, None) == items,
        !shows_ellipsis(items.len() as int, None),
{
    assert(shown_items(items, None) =~= items);
}

/// A trail longer than a cap `m` of at least three shows `m - 1` items: the
/// first, then the last `m - 2`, with an ellipsis.
pub proof fn lemma_long_trail_elides_middle(items: Seq<BreadcrumbItem>, m: usize)
    requires
        items.len() > m >= 3,
    ensures
        shown_items(items, Some(m)).len() == m - 1,
        shown_items(items, Some(m))[0] == items[0],
        shown_items(items, Some(m)).subrange(1, m - 1) == items.subrange(
            items.len() - (m - 2),
            items.len() as int,
        ),
        shows_ellipsis(items.len() as int, Some(m)),
{
    assert(shown_items(items, Some(m)).subrange(1, m - 1) =~= items.subrange(
        items.len() - (m - 2),
        items.len() as int,
    ));
}

/// A trail no longer than its cap is shown whole, without an ellipsis.
pub proof fn lemma_short_trail_shown_whole(items: Seq<BreadcrumbItem>, m: usize)
    requires
        items.len() <= m,
    ensures
        shown_items(items, Some(m)) == items,
        !shows_ellipsis(items.len() as int, Some(m)),
{
    assert(shown_items(items, Some(m)) =~= items);
}

/// Under a cap `m` below three, a longer trail shows only its last `m`
/// items, and no ellipsis marks the ones dropped.
pub proof fn lemma_small_cap_keeps_tail(items: Seq<BreadcrumbItem>, m: usize)
    requires
        items.len() > m,
        m < 3,
    ensures
        shown_items(items, Some(m)) == items.subrange(items.len() - m, items.len() as int),
        !shows_ellipsis(items.len() as int, Some(m)),
{
    assert(shown_items(items, Some(m)) =~= items.subrange(
        items.len() - m,
        items.len() as int,
    ));
}

/// In a disabled trail no item reacts to the pointer, whatever handlers the
/// items carry.
pub proof fn lemma_disabled_trail_is_inert(b: Breadcrumb)
    requires
        b.disabled,
    ensures
        forall|k: int|
            0 <= k < trail_nodes(b).len() ==> match #[trigger] trail_nodes(b)[k] {
                BreadcrumbNode::Item(view) => !view.hoverable && !view.clickable,
                _ => true,
            },
{
    let shown = display_indices(b.items@.len() as int, b.max_items);
    lemma_disabled_prefix_inert(b, shown.len() as int);
}

proof fn lemma_disabled_prefix_inert(b: Breadcrumb, j: int)
    requires
        b.disabled,
    ensures
        forall|k: int|
            0 <= k < trail_prefix(b, j).len() ==> match #[trigger] trail_prefix(b, j)[k] {
                BreadcrumbNode::Item(view) => !view.hoverable && !view.clickable,
                _ => true,
            },
    decreases j,
{
    if j > 0 {
        lemma_disabled_prefix_inert(b, j - 1);
        let prev = trail_prefix(b, j - 1);
        let whole = trail_prefix(b, j);
        assert forall|k: int| 0 <= k < whole.len() implies match #[trigger] whole[k] {
            BreadcrumbNode::Item(view) => !view.hoverable && !view.clickable,
            _ => true,
        } by {
            if k < prev.len() {
                assert(whole[k] == prev[k]);
            }
        }
    }
}

} // verus!
