//! The external layout engine feeding the pipeline: recomputing the layout
//! of an unchanged tree must be idempotent, and its rounded geometry must
//! match what the verified pipeline draws.

use frame_studio::geometry::{content_rect, Layout, Padding, Rect};

use taffy::geometry::Rect as TaffyRect;
use taffy::geometry::Size as TaffySize;
use taffy::style::{Dimension, LengthPercentage, Style};
use taffy::style_helpers::TaffyMaxContent;
use taffy::tree::NodeId;
use taffy::TaffyTree;

fn build_tree(tree: &mut TaffyTree<()>) -> NodeId {
    tree.new_leaf(Style {
        size: TaffySize { width: Dimension::length(800.0), height: Dimension::length(600.0) },
        padding: TaffyRect {
            left: LengthPercentage::length(16.0),
            right: LengthPercentage::length(16.0),
            top: LengthPercentage::length(32.0),
            bottom: LengthPercentage::length(8.0),
        },
        ..Default::default()
    })
    .unwrap()
}

#[test]
fn recomputing_layout_on_unchanged_tree_is_idempotent() {
    let mut tree: TaffyTree<()> = TaffyTree::new();
    let root = build_tree(&mut tree);
    tree.compute_layout(root, TaffySize::MAX_CONTENT).unwrap();
    let first = *tree.layout(root).unwrap();
    tree.compute_layout(root, TaffySize::MAX_CONTENT).unwrap();
    let second = *tree.layout(root).unwrap();
    assert_eq!(first, second);
}

#[test]
fn engine_geometry_rounds_into_the_pipeline_layout() {
    let mut tree: TaffyTree<()> = TaffyTree::new();
    let root = build_tree(&mut tree);
    tree.compute_layout(root, TaffySize::MAX_CONTENT).unwrap();
    let engine = tree.layout(root).unwrap();
    let layout = Layout {
        width: engine.size.width as i32,
        height: engine.size.height as i32,
        padding: Padding {
            top: engine.padding.top as i32,
            right: engine.padding.right as i32,
            bottom: engine.padding.bottom as i32,
            left: engine.padding.left as i32,
        },
    };
    assert_eq!((layout.width, layout.height), (800, 600));
    let r = content_rect(&layout);
    assert_eq!(r, Rect { left: 16, top: 32, right: 784, bottom: 592 });
}
