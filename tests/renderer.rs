use fracgen::{pixel_position, Functs, Renderer};

fn table() -> Functs {
    Functs::from_modes(0, false, 0, 0)
}

fn add(a: f64, b: f64) -> f64 {
    a + b
}

fn mean(c: f64, n: usize) -> f64 {
    c / n as f64
}

#[test]
fn new_renderer_is_cleared() {
    let r: Renderer<f64> = Renderer::new(4, 3, table(), 0.0);
    assert_eq!(r.width(), 4);
    assert_eq!(r.height(), 3);
    assert_eq!(r.rendered_samples(), 0);
    for x in 0..4 {
        for y in 0..3 {
            assert_eq!(r.cell(x, y), 0.0);
        }
    }
}

#[test]
fn pixel_positions_are_column_major() {
    assert_eq!(pixel_position(0, 3), (0, 0));
    assert_eq!(pixel_position(2, 3), (0, 2));
    assert_eq!(pixel_position(7, 3), (2, 1));
}

#[test]
fn first_pass_replaces_later_passes_add() {
    let mut r: Renderer<f64> = Renderer::new(2, 2, table(), 0.0);
    r.render_samples(2, &vec![1.0, 2.0, 3.0, 4.0], |a: f64, b: f64| a * 100.0 + b);
    assert_eq!(r.rendered_samples(), 2);
    assert_eq!(r.cell(1, 0), 3.0);
    r.render_samples(3, &vec![10.0, 20.0, 30.0, 40.0], add);
    assert_eq!(r.rendered_samples(), 5);
    assert_eq!(r.cell(0, 0), 11.0);
    assert_eq!(r.cell(0, 1), 22.0);
    assert_eq!(r.cell(1, 0), 33.0);
    assert_eq!(r.cell(1, 1), 44.0);
}

#[test]
fn split_passes_equal_single_pass() {
    let e1 = vec![0.5, 1.5, 2.0, 0.25, 4.0, 1.0];
    let e2 = vec![1.0, 0.5, 3.0, 0.75, 2.0, 6.0];
    let whole: Vec<f64> = e1.iter().zip(e2.iter()).map(|(a, b)| a + b).collect();
    let mut split: Renderer<f64> = Renderer::new(3, 2, table(), 0.0);
    split.render_samples(2, &e1, add);
    split.render_samples(4, &e2, add);
    let mut single: Renderer<f64> = Renderer::new(3, 2, table(), 0.0);
    single.render_samples(6, &whole, add);
    assert_eq!(split.rendered_samples(), single.rendered_samples());
    let a = split.process_image(mean);
    let b = single.process_image(mean);
    assert_eq!(a.len(), 6);
    for (x, y) in a.iter().zip(b.iter()) {
        assert!((x - y).abs() < 1e-12);
    }
    assert_eq!(a[2], 5.0 / 6.0);
}

#[test]
fn finalize_twice_is_identical() {
    let mut r: Renderer<f64> = Renderer::new(2, 3, table(), 0.0);
    r.render_samples(4, &vec![4.0, 8.0, 1.0, 0.0, 2.0, 3.0], add);
    let a = r.process_image(mean);
    let b = r.process_image(mean);
    assert_eq!(a, b);
    assert_eq!(a, vec![1.0, 2.0, 0.25, 0.0, 0.5, 0.75]);
    assert_eq!(r.rendered_samples(), 4);
}

#[test]
fn resize_clears_state() {
    let mut r: Renderer<[f64; 4]> = Renderer::new(2, 2, table(), [0.0; 4]);
    r.render_samples(3, &vec![[1.0; 4]; 4], |a: [f64; 4], b: [f64; 4]| {
        [a[0] + b[0], a[1] + b[1], a[2] + b[2], a[3] + b[3]]
    });
    r.resize(5, 3, [0.0; 4]);
    assert_eq!(r.width(), 5);
    assert_eq!(r.height(), 3);
    assert_eq!(r.rendered_samples(), 0);
    for x in 0..5 {
        for y in 0..3 {
            assert_eq!(r.cell(x, y), [0.0; 4]);
        }
    }
    assert_eq!(r.process_image(|c: [f64; 4], n: usize| (c[0], n)).len(), 15);
}

#[test]
fn update_functs_keeps_accumulation() {
    let mut r: Renderer<f64> = Renderer::new(1, 2, table(), 0.0);
    r.render_samples(1, &vec![3.0, 4.0], add);
    let other = Functs::from_modes(2, true, 1, 2);
    r.update_functs(other);
    assert_eq!(r.functs(), other);
    assert_eq!(r.rendered_samples(), 1);
    assert_eq!(r.cell(0, 1), 4.0);
}
