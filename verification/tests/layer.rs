use ortelius::buffer::{usage_allows_copies, Extension, Growth, MEGABYTE};
use ortelius::layer::{interleaved, Line, LINE_USAGE, VERTICES_PER_POINT};
use ortelius::{Layer, NewData};

#[test]
fn line_of_three_points_then_one_more() {
    let (mut line, data) = Line::<f32>::new(&[0.0, 1.0, 2.0], &[0.0, 1.0, 0.0], 0.005);
    assert_eq!(data, vec![0.0, 0.0, 1.0, 1.0, 2.0, 0.0]);
    assert_eq!(line.buffer().len(), 6);
    assert_eq!(line.len(), 3);

    let staged = line.append(3.0, 1.0);
    assert_eq!(staged.data, vec![3.0, 1.0]);
    assert_eq!(
        staged.work,
        Extension { growth: None, staging_size: 8, offset: 24, size: 8 }
    );
    assert_eq!(line.buffer().len(), 8);
    assert_eq!(line.len(), 4);
}

#[test]
fn interleaved_alternates_coordinates() {
    assert_eq!(interleaved::<i32>(&[], &[]), Vec::<i32>::new());
    assert_eq!(interleaved(&[1], &[2]), vec![1, 2]);
    assert_eq!(interleaved(&[1, 3, 5], &[2, 4, 6]), vec![1, 2, 3, 4, 5, 6]);
    assert_eq!(interleaved(&['a', 'c'], &['b', 'd']), vec!['a', 'b', 'c', 'd']);
}

#[test]
fn new_line_has_the_usage_of_a_point_buffer() {
    let (line, _) = Line::<f32>::new(&[0.5], &[1.5], 0.25);
    assert_eq!(LINE_USAGE, (1 << 7) | (1 << 3) | (1 << 2));
    assert_eq!(line.buffer().usage(), LINE_USAGE);
    assert!(usage_allows_copies(line.buffer().usage()));
    assert_eq!(line.buffer().capacity(), MEGABYTE);
    assert_eq!(line.thickness(), 0.25);
}

#[test]
fn empty_line_is_allowed() {
    let (mut line, data) = Line::<f32>::new(&[], &[], 0.005);
    assert!(data.is_empty());
    assert_eq!(line.len(), 0);
    assert_eq!(line.vertex_count(), 0);
    assert_eq!(line.buffer().capacity(), 4);
    let staged = line.append(1.0, 2.0);
    assert_eq!(staged.data, vec![1.0, 2.0]);
    assert_eq!(
        staged.work,
        Extension {
            growth: Some(Growth { capacity: MEGABYTE, preserved: 0 }),
            staging_size: 8,
            offset: 0,
            size: 8,
        }
    );
    assert_eq!(line.len(), 1);
}

#[test]
fn extend_line_appends_interleaved_points() {
    let (mut line, _) = Line::<f32>::new(&[0.0, 1.0], &[10.0, 11.0], 0.005);
    let staged = line.extend(&[2.0, 3.0, 4.0], &[12.0, 13.0, 14.0]);
    assert_eq!(staged.data, vec![2.0, 12.0, 3.0, 13.0, 4.0, 14.0]);
    assert_eq!(
        staged.work,
        Extension { growth: None, staging_size: 24, offset: 16, size: 24 }
    );
    assert_eq!(line.len(), 5);
    assert_eq!(line.buffer().len(), 10);
    assert_eq!(line.thickness(), 0.005);
}

#[test]
fn extend_line_by_no_points() {
    let (mut line, _) = Line::<f32>::new(&[0.0], &[1.0], 0.005);
    let staged = line.extend(&[], &[]);
    assert!(staged.data.is_empty());
    assert_eq!(
        staged.work,
        Extension { growth: None, staging_size: 4, offset: 8, size: 0 }
    );
    assert_eq!(line.len(), 1);
}

#[test]
fn extend_line_past_a_megabyte_grows() {
    let (mut line, _) = Line::<f32>::new(&[0.0], &[1.0], 0.005);
    let count = 200_000usize;
    let xs = vec![1.0f32; count];
    let ys = vec![2.0f32; count];
    let staged = line.extend(&xs, &ys);
    assert_eq!(staged.data.len(), 2 * count);
    assert_eq!(
        staged.work,
        Extension {
            growth: Some(Growth { capacity: 2 * MEGABYTE, preserved: 8 }),
            staging_size: 1_600_000,
            offset: 8,
            size: 1_600_000,
        }
    );
    assert_eq!(line.buffer().capacity(), 2 * MEGABYTE);
    assert_eq!(line.len(), count + 1);
}

#[test]
fn two_vertices_per_point() {
    assert_eq!(VERTICES_PER_POINT, 2);
    let (mut line, _) = Line::<f32>::new(&[0.0, 1.0, 2.0], &[0.0, 1.0, 0.0], 0.005);
    assert_eq!(line.vertex_count(), 6);
    line.append(3.0, 1.0);
    assert_eq!(line.vertex_count(), 8);
}

#[test]
fn holds_and_accepts_bound_the_point_count() {
    assert!(Line::<f32>::holds(0));
    assert!(Line::<f32>::holds(1_000_000));
    assert!(!Line::<f32>::holds(usize::MAX));
    assert!(!Line::<f32>::holds(usize::MAX / 2));
    assert!(Line::<()>::holds(usize::MAX / 2));
    assert!(!Line::<()>::holds(usize::MAX / 2 + 1));
    let (line, _) = Line::<f32>::new(&[0.0, 1.0], &[0.0, 1.0], 0.005);
    assert!(line.accepts(0));
    assert!(line.accepts(5));
    assert!(!line.accepts(usize::MAX));
    assert!(!line.accepts(usize::MAX - 2));
    let (unit_line, _) = Line::<()>::new(&[(), ()], &[(), ()], ());
    assert!(unit_line.accepts(usize::MAX / 2 - 2));
    assert!(!unit_line.accepts(usize::MAX / 2 - 1));
}

#[test]
fn layers_and_new_data_carry_their_payload() {
    let (line, _) = Line::<f32>::new(&[0.0], &[1.0], 0.005);
    let layers = [Layer::XAxis, Layer::YAxis, Layer::Line(&line)];
    let mut lines = 0;
    for layer in &layers {
        if let Layer::Line(shown) = layer {
            lines += 1;
            assert_eq!(shown.len(), 1);
        }
    }
    assert_eq!(lines, 1);
    match (NewData::Point { x: 1.0f32, y: 2.0f32 }) {
        NewData::Point { x, y } => assert_eq!((x, y), (1.0, 2.0)),
        NewData::Points { .. } => panic!("a point was given"),
    }
    match (NewData::Points { xs: vec![1.0f32], ys: vec![2.0f32] }) {
        NewData::Points { xs, ys } => assert_eq!((xs, ys), (vec![1.0], vec![2.0])),
        NewData::Point { .. } => panic!("points were given"),
    }
}
