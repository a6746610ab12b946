use ui_widgets::breadcrumb::{
    navigate_to, Breadcrumb, BreadcrumbItem, BreadcrumbNode, BreadcrumbSeparator,
    BreadcrumbSeparatorElement, SeparatorGlyph, TextSize,
};
use ui_widgets::style::{IconName, Size, ThemeColor};

fn trail(labels: &[&str]) -> Breadcrumb {
    let mut b = Breadcrumb::new();
    for l in labels {
        b = b.child(BreadcrumbItem::new(l.to_string()).on_click());
    }
    b
}

fn path() -> Breadcrumb {
    trail(&["Home", "Documents", "Projects", "GPUI Component"])
}

fn separator_count(nodes: &[BreadcrumbNode]) -> usize {
    nodes.iter().filter(|n| matches!(n, BreadcrumbNode::Separator(_))).count()
}

#[test]
fn uncapped_trail_shows_every_item() {
    let b = trail(&["a", "b", "c", "d", "e", "f", "g"]);
    assert_eq!(b.get_display_items(), (vec![0, 1, 2, 3, 4, 5, 6], false));
}

#[test]
fn long_trail_keeps_first_and_last_items_with_ellipsis() {
    let b = trail(&["a", "b", "c", "d", "e", "f"]).max_items(4);
    assert_eq!(b.get_display_items(), (vec![0, 4, 5], true));
    let b = trail(&["a", "b", "c", "d", "e", "f"]).max_items(3);
    assert_eq!(b.get_display_items(), (vec![0, 5], true));
}

#[test]
fn trail_within_cap_is_shown_whole() {
    let b = path().max_items(4);
    assert_eq!(b.get_display_items(), (vec![0, 1, 2, 3], false));
    let b = path().max_items(10);
    assert_eq!(b.get_display_items(), (vec![0, 1, 2, 3], false));
}

#[test]
fn small_cap_drops_oldest_items_without_marker() {
    assert_eq!(path().max_items(2).get_display_items(), (vec![2, 3], false));
    assert_eq!(path().max_items(1).get_display_items(), (vec![3], false));
    assert_eq!(path().max_items(0).get_display_items(), (vec![], false));
    let nodes = path().max_items(2).render();
    assert!(!nodes.iter().any(|n| matches!(n, BreadcrumbNode::Ellipsis)));
}

#[test]
fn empty_trail_renders_nothing() {
    let b = Breadcrumb::new().max_items(3);
    assert_eq!(b.get_display_items(), (vec![], false));
    assert!(b.render().is_empty());
    assert!(Breadcrumb::new().render().is_empty());
}

#[test]
fn ellipsis_sits_after_first_item_without_separator_before_next() {
    let b = path().max_items(3).separator(BreadcrumbSeparator::Slash);
    assert_eq!(b.get_display_items(), (vec![0, 3], true));
    let nodes = b.render();
    assert_eq!(nodes.len(), 4);
    let sep = BreadcrumbSeparatorElement::new(BreadcrumbSeparator::Slash);
    assert!(matches!(nodes[0], BreadcrumbNode::Item(v) if v.index == 0 && v.position == 0));
    assert_eq!(nodes[1], BreadcrumbNode::Separator(sep));
    assert_eq!(nodes[2], BreadcrumbNode::Ellipsis);
    assert!(matches!(nodes[3], BreadcrumbNode::Item(v) if v.index == 3 && v.is_last));
}

#[test]
fn ellipsis_in_longer_trail() {
    let b = trail(&["Home", "Documents", "Projects", "Work", "GPUI Component"]).max_items(4);
    assert_eq!(b.get_display_items(), (vec![0, 3, 4], true));
    let nodes = b.render();
    assert_eq!(nodes.len(), 6);
    let sep = BreadcrumbSeparatorElement::new(BreadcrumbSeparator::ChevronRight);
    assert!(matches!(nodes[0], BreadcrumbNode::Item(v) if v.index == 0));
    assert_eq!(nodes[1], BreadcrumbNode::Separator(sep));
    assert_eq!(nodes[2], BreadcrumbNode::Ellipsis);
    assert!(matches!(nodes[3], BreadcrumbNode::Item(v) if v.index == 3 && v.position == 1));
    assert_eq!(nodes[4], BreadcrumbNode::Separator(sep));
    assert!(matches!(nodes[5], BreadcrumbNode::Item(v) if v.index == 4 && v.position == 2 && v.is_last));
    assert_eq!(separator_count(&nodes), 2);
}

#[test]
fn uncapped_trail_puts_separator_between_items() {
    let nodes = path().render();
    assert_eq!(nodes.len(), 7);
    assert_eq!(separator_count(&nodes), 3);
    for (k, n) in nodes.iter().enumerate() {
        if k % 2 == 0 {
            assert!(matches!(n, BreadcrumbNode::Item(v) if v.index == k / 2 && v.position == k / 2));
        } else {
            assert!(matches!(n, BreadcrumbNode::Separator(_)));
        }
    }
}

#[test]
fn last_item_is_emphasised_and_inert() {
    let nodes = path().render();
    match nodes[6] {
        BreadcrumbNode::Item(v) => {
            assert!(v.is_last && v.medium_weight);
            assert_eq!(v.color, ThemeColor::Foreground);
            assert!(!v.hoverable && !v.clickable);
        }
        _ => panic!("expected an item"),
    }
    match nodes[0] {
        BreadcrumbNode::Item(v) => {
            assert!(!v.is_last && !v.medium_weight && !v.dimmed);
            assert_eq!(v.color, ThemeColor::MutedForeground);
            assert!(v.hoverable && v.clickable);
        }
        _ => panic!("expected an item"),
    }
    assert_eq!(path().activate(3), None);
    assert_eq!(path().activate(1), Some(1));
    assert_eq!(path().activate(9), None);
}

#[test]
fn disabled_trail_makes_every_item_inert() {
    let b = path().disabled(true);
    for n in b.render() {
        if let BreadcrumbNode::Item(v) = n {
            assert!(!v.hoverable && !v.clickable && v.dimmed);
            assert_eq!(v.color, ThemeColor::MutedForeground);
        }
    }
    for k in 0..4 {
        assert_eq!(b.activate(k), None);
    }
}

#[test]
fn disabled_item_and_item_without_handler() {
    let b = Breadcrumb::new()
        .child(BreadcrumbItem::new("a".to_string()).on_click().disabled(true))
        .child(BreadcrumbItem::new("b".to_string()))
        .child(BreadcrumbItem::new("c".to_string()).on_click());
    assert_eq!(b.activate(0), None);
    assert_eq!(b.activate(1), None);
    let nodes = b.render();
    assert!(matches!(nodes[0], BreadcrumbNode::Item(v) if v.dimmed && !v.hoverable));
    assert!(matches!(nodes[2], BreadcrumbNode::Item(v) if v.hoverable && !v.clickable));
}

#[test]
fn activation_in_truncated_trail_reports_trail_index() {
    let b = trail(&["a", "b", "c", "d", "e", "f"]).max_items(4);
    assert_eq!(b.activate(0), Some(0));
    assert_eq!(b.activate(1), Some(4));
    assert_eq!(b.activate(2), None);
}

#[test]
fn separator_glyphs() {
    let g = |s| BreadcrumbSeparatorElement::new(s).render();
    assert_eq!(g(BreadcrumbSeparator::Slash), (SeparatorGlyph::Text("/"), ThemeColor::MutedForeground));
    assert_eq!(g(BreadcrumbSeparator::Dot), (SeparatorGlyph::Text("\u{2022}"), ThemeColor::MutedForeground));
    assert_eq!(
        g(BreadcrumbSeparator::ChevronRight),
        (SeparatorGlyph::Icon(IconName::ChevronRight), ThemeColor::MutedForeground)
    );
    assert_eq!(
        g(BreadcrumbSeparator::Icon(IconName::ArrowRight)),
        (SeparatorGlyph::Icon(IconName::ArrowRight), ThemeColor::MutedForeground)
    );
    assert_eq!(BreadcrumbSeparator::default(), BreadcrumbSeparator::ChevronRight);
}

#[test]
fn navigation_truncates_path() {
    let mut p: Vec<String> = ["Home", "Documents", "Projects", "GPUI Component"]
        .iter()
        .map(|s| s.to_string())
        .collect();
    navigate_to(&mut p, 1);
    assert_eq!(p, vec!["Home".to_string(), "Documents".to_string()]);
    navigate_to(&mut p, 5);
    assert_eq!(p.len(), 2);
    navigate_to(&mut p, usize::MAX);
    assert_eq!(p.len(), 2);
    navigate_to(&mut p, 0);
    assert_eq!(p, vec!["Home".to_string()]);
}

#[test]
fn builders_and_sizes() {
    let item = BreadcrumbItem::new("x".to_string()).icon(IconName::Folder).disabled(true);
    assert_eq!(item.icon, Some(IconName::Folder));
    assert!(item.disabled && !item.clickable);
    let b = Breadcrumb::new()
        .children(vec![BreadcrumbItem::new("a".to_string()), BreadcrumbItem::new("b".to_string())])
        .child(BreadcrumbItem::new("c".to_string()));
    let labels: Vec<&str> = b.items.iter().map(|i| i.label.as_str()).collect();
    assert_eq!(labels, vec!["a", "b", "c"]);
    assert_eq!(b.text_size(), TextSize::Small);
    assert_eq!(Breadcrumb::new().with_size(Size::XSmall).text_size(), TextSize::ExtraSmall);
    assert_eq!(Breadcrumb::new().with_size(Size::Large).text_size(), TextSize::Base);
    assert_eq!(Breadcrumb::new().with_size(Size::Custom(30)).text_size(), TextSize::Inherit);
}
