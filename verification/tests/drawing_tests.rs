//! The drawing composition model: the layer registry, stacking order,
//! instruction routing and error propagation.

use drawing_core::{Brush, Drawing, Error, Instruction, InstructionBox, Layer, Point, Stroke};

fn stroke_box(uuid: &str, n_points: usize) -> InstructionBox {
    let mut points: Vec<Point> = Vec::new();
    let mut i: i64 = 0;
    while (i as usize) < n_points {
        points.push(Point { x: i, y: -i });
        i += 1;
    }
    InstructionBox {
        instruction: Instruction::Stroke(Stroke::new(points, Brush::default())),
        uuid: String::from(uuid),
    }
}

fn order_of(drawing: &Drawing) -> Vec<String> {
    drawing.layer_order()
}

fn abc_drawing() -> Drawing {
    let mut drawing = Drawing::new(100, 200);
    assert!(drawing.add_layer("a").is_ok());
    assert!(drawing.add_layer("b").is_ok());
    assert!(drawing.add_layer("c").is_ok());
    drawing
}

#[test]
fn new_takes_height_then_width() {
    let drawing = Drawing::new(100, 200);
    assert_eq!(drawing.height(), 100);
    assert_eq!(drawing.width(), 200);
    assert_eq!(drawing.layer_order().len(), 0);
}

#[test]
fn default_drawing_is_500_by_500() {
    let drawing = Drawing::default();
    assert_eq!(drawing.width(), 500);
    assert_eq!(drawing.height(), 500);
}

#[test]
fn add_layer_appends_to_the_order() {
    let drawing = abc_drawing();
    assert_eq!(
        order_of(&drawing),
        vec!["a".to_string(), "b".to_string(), "c".to_string()]
    );
}

#[test]
fn duplicate_layer_name_is_refused_unchanged() {
    let mut drawing = Drawing::new(500, 500);
    assert!(drawing.add_layer("bg").is_ok());
    let before = order_of(&drawing);
    assert_eq!(drawing.add_layer("bg"), Err(Error::DuplicateNameError));
    assert_eq!(order_of(&drawing), before);
}

#[test]
fn layer_up_swaps_with_the_preceding_entry() {
    let mut drawing = abc_drawing();
    assert!(drawing.layer_up("b").is_ok());
    assert_eq!(
        order_of(&drawing),
        vec!["b".to_string(), "a".to_string(), "c".to_string()]
    );
}

#[test]
fn layer_up_at_the_front_fails_unchanged() {
    let mut drawing = abc_drawing();
    assert_eq!(drawing.layer_up("a"), Err(Error::OrderingError));
    assert_eq!(
        order_of(&drawing),
        vec!["a".to_string(), "b".to_string(), "c".to_string()]
    );
}

#[test]
fn reorder_of_a_missing_name_fails() {
    let mut drawing = abc_drawing();
    assert_eq!(drawing.layer_up("x"), Err(Error::NotFoundError));
    assert_eq!(drawing.layer_up_by("x", 1), Err(Error::NotFoundError));
    assert_eq!(drawing.layer_down_by("x", 1), Err(Error::NotFoundError));
}

#[test]
fn layer_up_by_moves_toward_the_end() {
    let mut drawing = abc_drawing();
    assert!(drawing.layer_up_by("a", 2).is_ok());
    assert_eq!(
        order_of(&drawing),
        vec!["b".to_string(), "c".to_string(), "a".to_string()]
    );
    // Moving past the end fails and changes nothing.
    assert_eq!(drawing.layer_up_by("c", 2), Err(Error::OrderingError));
    assert_eq!(
        order_of(&drawing),
        vec!["b".to_string(), "c".to_string(), "a".to_string()]
    );
}

#[test]
fn layer_down_by_past_the_front_fails_unchanged() {
    let mut drawing = abc_drawing();
    // The target index would be -1: invalid, nothing moves.
    assert_eq!(drawing.layer_down_by("a", 2), Err(Error::OrderingError));
    assert_eq!(
        order_of(&drawing),
        vec!["a".to_string(), "b".to_string(), "c".to_string()]
    );
}

#[test]
fn layer_down_by_moves_toward_the_front() {
    let mut drawing = abc_drawing();
    assert!(drawing.layer_down_by("c", 2).is_ok());
    assert_eq!(
        order_of(&drawing),
        vec!["c".to_string(), "a".to_string(), "b".to_string()]
    );
}

#[test]
fn instruct_routes_to_the_named_layer() {
    let mut drawing = abc_drawing();
    assert!(drawing.instruct(stroke_box("s1", 2), "b").is_ok());
    let layer_b = drawing.get_layer_mut("b").unwrap();
    assert_eq!(layer_b.history().len(), 1);
    assert_eq!(layer_b.history_index(), 1);
    let layer_a = drawing.get_layer_mut("a").unwrap();
    assert_eq!(layer_a.history().len(), 0);
}

#[test]
fn instruct_on_a_missing_layer_fails() {
    let mut drawing = abc_drawing();
    assert_eq!(
        drawing.instruct(stroke_box("s1", 2), "x"),
        Err(Error::NotFoundError)
    );
}

#[test]
fn instruct_propagates_validation_failures() {
    let mut drawing = abc_drawing();
    assert_eq!(
        drawing.instruct(stroke_box("s1", 1), "a"),
        Err(Error::ValidationError)
    );
    let layer_a = drawing.get_layer_mut("a").unwrap();
    assert_eq!(layer_a.history().len(), 0);
    assert_eq!(layer_a.history_index(), 0);
}

#[test]
fn get_layer_mut_finds_and_edits() {
    let mut drawing = abc_drawing();
    assert!(drawing.get_layer_mut("x").is_none());
    assert!(drawing.instruct(stroke_box("s1", 2), "a").is_ok());
    {
        let layer = drawing.get_layer_mut("a").unwrap();
        assert!(layer.undo().is_ok());
        layer.toggle_visibility();
    }
    let layer = drawing.get_layer_mut("a").unwrap();
    assert_eq!(layer.history_index(), 0);
    assert_eq!(layer.history().len(), 1);
    assert!(!layer.is_visible());
    // Editing one layer leaves the others and the order untouched.
    assert_eq!(
        order_of(&drawing),
        vec!["a".to_string(), "b".to_string(), "c".to_string()]
    );
}

#[test]
fn drawing_rebuilds_from_its_observable_parts() {
    let mut original = Drawing::new(120, 340);
    assert!(original.add_layer("bg").is_ok());
    assert!(original.add_layer("fg").is_ok());
    assert!(original.instruct(stroke_box("s1", 2), "bg").is_ok());
    assert!(original.instruct(stroke_box("s2", 3), "bg").is_ok());
    assert!(original.instruct(stroke_box("s3", 2), "fg").is_ok());
    original.get_layer_mut("bg").unwrap().undo().unwrap();
    original.get_layer_mut("fg").unwrap().toggle_visibility();

    // Extract every observable part, rebuild, and compare: the round trip
    // reproduces layer contents, cursors, order and dimensions.
    let mut rebuilt = Drawing::new(original.height(), original.width());
    for name in original.layer_order() {
        assert!(rebuilt.add_layer(&name).is_ok());
        let source = original.get_layer_mut(&name).unwrap();
        let copy = Layer::from_parts(
            source.history().clone(),
            source.history_index(),
            source.is_visible(),
        )
        .unwrap();
        *rebuilt.get_layer_mut(&name).unwrap() = copy;
    }

    assert_eq!(rebuilt.width(), original.width());
    assert_eq!(rebuilt.height(), original.height());
    assert_eq!(rebuilt.layer_order(), original.layer_order());
    for name in original.layer_order() {
        let a = original.get_layer_mut(&name).unwrap().history().clone();
        let b = rebuilt.get_layer_mut(&name).unwrap().history().clone();
        assert_eq!(a, b);
        let ai = original.get_layer_mut(&name).unwrap().history_index();
        let bi = rebuilt.get_layer_mut(&name).unwrap().history_index();
        assert_eq!(ai, bi);
        let av = original.get_layer_mut(&name).unwrap().is_visible();
        let bv = rebuilt.get_layer_mut(&name).unwrap().is_visible();
        assert_eq!(av, bv);
    }
}
