use sunder::{Backend, Coord, Event, Label, LabelCache, LoggedBackend, Rectangle, RenderedWidget, Size, TextEngine, Widget};

/// A text backend that lays text out on a fixed grid and counts what it is asked to do.
struct GridBackend {
    shapes: usize,
    fail_at: Option<usize>,
    drawn: Vec<String>,
}

impl GridBackend {
    fn new() -> LoggedBackend<GridBackend> {
        LoggedBackend::new(GridBackend { shapes: 0, fail_at: None, drawn: Vec::new() })
    }

    /// A backend whose shaping call number `n` (counted from 1) fails.
    fn failing_at(n: usize) -> LoggedBackend<GridBackend> {
        LoggedBackend::new(GridBackend { shapes: 0, fail_at: Some(n), drawn: Vec::new() })
    }
}

impl Backend for GridBackend {
    type Error = String;
    type Output = ();
}

impl TextEngine for GridBackend {
    type Layout = String;

    fn shape_text(&mut self, text: &str, max_width: Option<Coord>) -> Result<(String, Size), String> {
        self.shapes += 1;
        if self.fail_at == Some(self.shapes) {
            return Err("cannot shape".to_string());
        }
        let full = 8 * text.chars().count() as u32;
        let width = match max_width {
            Some(w) => full.min(f64::from_bits(w.to_bits()) as u32),
            None => full,
        };
        let lines = if width == 0 { 1 } else { (full + width - 1) / width.max(1) };
        Ok((text.to_string(), Size { width, height: 16 * lines.max(1) }))
    }

    fn draw_layout(&mut self, layout: &String) -> Result<(), String> {
        self.drawn.push(layout.clone());
        Ok(())
    }
}

fn width(w: f64) -> Coord {
    Coord::from_bits(w.to_bits())
}

#[test]
fn hi_measured_twice_gives_same_size_without_reshaping() {
    let mut backend = GridBackend::new();
    let mut cache = LabelCache::new();
    let label = Label::new("Hi");
    let first = label.rectangle(&mut cache, &mut backend).unwrap();
    assert!(first.width > 0 && first.height > 0);
    assert_eq!(backend.engine().shapes, 1);
    let second = label.rectangle(&mut cache, &mut backend).unwrap();
    assert_eq!(first, second);
    assert_eq!(backend.engine().shapes, 1);
}

#[test]
fn render_after_text_change_draws_new_text_with_one_more_shape() {
    let mut backend = GridBackend::new();
    let mut cache = LabelCache::new();
    Label::new("Hi").render(&(), &mut cache, &mut backend).unwrap();
    assert_eq!(backend.engine().shapes, 1);
    Label::new("Hello").render(&(), &mut cache, &mut backend).unwrap();
    assert_eq!(backend.engine().shapes, 2);
    assert_eq!(backend.engine().drawn, vec!["Hi".to_string(), "Hello".to_string()]);
    assert_ne!(backend.engine().drawn[0], backend.engine().drawn[1]);
}

#[test]
fn render_twice_shapes_once_and_draws_the_same() {
    let mut backend = GridBackend::new();
    let mut cache = LabelCache::new();
    let label = Label::new("Same");
    label.render(&(), &mut cache, &mut backend).unwrap();
    label.render(&(), &mut cache, &mut backend).unwrap();
    assert_eq!(backend.engine().shapes, 1);
    assert_eq!(backend.engine().drawn, vec!["Same".to_string(), "Same".to_string()]);
}

#[test]
fn measure_then_render_share_one_layout() {
    let mut backend = GridBackend::new();
    let mut cache = LabelCache::new();
    let label = Label::new("Shared");
    let size = label.rectangle(&mut cache, &mut backend).unwrap();
    label.render(&(), &mut cache, &mut backend).unwrap();
    assert_eq!(backend.engine().shapes, 1);
    assert_eq!(size, Size { width: 48, height: 16 });
    assert_eq!(cache.layout(), Some(&"Shared".to_string()));
}

#[test]
fn text_change_invalidates_measurement() {
    let mut backend = GridBackend::new();
    let mut cache = LabelCache::new();
    let short = Label::new("Hi").rectangle(&mut cache, &mut backend).unwrap();
    let long = Label::new("Hello").rectangle(&mut cache, &mut backend).unwrap();
    assert_eq!(backend.engine().shapes, 2);
    assert_eq!(short, Size { width: 16, height: 16 });
    assert_eq!(long, Size { width: 40, height: 16 });
}

#[test]
fn width_constraint_change_invalidates_measurement() {
    let mut backend = GridBackend::new();
    let mut cache = LabelCache::new();
    let free = Label::new("Hello").rectangle(&mut cache, &mut backend).unwrap();
    let wrapped = Label::new("Hello").with_max_width(width(16.0)).rectangle(&mut cache, &mut backend).unwrap();
    assert_eq!(backend.engine().shapes, 2);
    assert_eq!(free, Size { width: 40, height: 16 });
    assert_eq!(wrapped, Size { width: 16, height: 48 });
    let again = Label::new("Hello").with_max_width(width(16.0)).rectangle(&mut cache, &mut backend).unwrap();
    assert_eq!(again, wrapped);
    assert_eq!(backend.engine().shapes, 2);
    let unwrapped = Label::new("Hello").with_max_width(width(16.0)).without_max_width();
    assert_eq!(unwrapped.rectangle(&mut cache, &mut backend).unwrap(), free);
    assert_eq!(backend.engine().shapes, 3);
}

#[test]
fn removing_width_constraint_does_not_narrow_the_label() {
    let mut backend = GridBackend::new();
    let mut cache = LabelCache::new();
    let wrapped = Label::new("Monotone").with_max_width(width(20.0)).rectangle(&mut cache, &mut backend).unwrap();
    let free = Label::new("Monotone").rectangle(&mut cache, &mut backend).unwrap();
    assert!(wrapped.width <= free.width);
}

#[test]
fn label_ignores_every_event() {
    let mut label = Label::new("Hi");
    let mut immediate = ();
    let events = [
        Event::Mouse { x: width(0.0), y: width(0.0) },
        Event::Mouse { x: width(-3.5), y: width(1.0e9) },
        Event::Mouse { x: width(f64::NAN), y: width(f64::INFINITY) },
    ];
    for event in events {
        assert!(!label.handle_event(&mut immediate, event));
        assert_eq!(immediate, ());
    }
    assert_eq!(label.text(), "Hi");
    assert_eq!(label.max_width(), None);
}

#[test]
fn failed_shaping_leaves_cache_empty_and_next_call_retries() {
    let mut backend = GridBackend::failing_at(1);
    let mut cache = LabelCache::new();
    let label = Label::new("Retry");
    assert_eq!(label.rectangle(&mut cache, &mut backend), Err("cannot shape".to_string()));
    assert!(!cache.is_populated());
    assert_eq!(cache.size(), None);
    let size = label.rectangle(&mut cache, &mut backend).unwrap();
    assert_eq!(backend.engine().shapes, 2);
    assert_eq!(size, Size { width: 40, height: 16 });
    assert!(cache.is_populated());
}

#[test]
fn failed_shaping_during_render_draws_nothing() {
    let mut backend = GridBackend::failing_at(2);
    let mut cache = LabelCache::new();
    let label = Label::new("Hi");
    label.rectangle(&mut cache, &mut backend).unwrap();
    let err = Label::new("Other").render(&(), &mut cache, &mut backend);
    assert_eq!(err, Err("cannot shape".to_string()));
    assert!(backend.engine().drawn.is_empty());
    assert!(!cache.is_populated());
    Label::new("Other").render(&(), &mut cache, &mut backend).unwrap();
    assert_eq!(backend.engine().shapes, 3);
    assert_eq!(backend.engine().drawn, vec!["Other".to_string()]);
}

#[test]
fn populate_is_a_no_op_when_fresh() {
    let mut backend = GridBackend::new();
    let mut cache = LabelCache::new();
    let label = Label::new("Hi");
    assert!(!cache.is_fresh_for(&label));
    cache.populate(&label, &mut backend).unwrap();
    assert!(cache.is_fresh_for(&label));
    assert!(!cache.is_fresh_for(&Label::new("Ho")));
    assert!(!cache.is_fresh_for(&Label::new("Hi").with_max_width(width(4.0))));
    cache.populate(&label, &mut backend).unwrap();
    assert_eq!(backend.engine().shapes, 1);
}

#[test]
fn store_keeps_layout_or_empties_on_error() {
    let label = Label::new("Kept");
    let mut cache: LabelCache<u8> = LabelCache::new();
    assert_eq!(cache.store(&label, Ok::<(u8, Size), String>((7, Size { width: 3, height: 4 }))), Ok(()));
    assert_eq!(cache.layout(), Some(&7));
    assert_eq!(cache.size(), Some(Size { width: 3, height: 4 }));
    assert!(cache.is_fresh_for(&label));
    assert_eq!(cache.store(&label, Err::<(u8, Size), String>("bad".to_string())), Err("bad".to_string()));
    assert_eq!(cache.layout(), None);
    assert!(!cache.is_fresh_for(&label));
}

#[test]
fn rectangle_geometry_and_order() {
    let r = Rectangle { x: -2, y: 3, width: 10, height: 20 };
    assert_eq!(r.size(), Size { width: 10, height: 20 });
    assert_eq!(Rectangle::at_origin(Size { width: 5, height: 6 }), Rectangle { x: 0, y: 0, width: 5, height: 6 });
    let mut rects = vec![
        Rectangle { x: 1, y: 0, width: 0, height: 0 },
        Rectangle { x: 0, y: 1, width: 0, height: 0 },
        Rectangle { x: 0, y: 0, width: 2, height: 0 },
        Rectangle { x: 0, y: 0, width: 1, height: 9 },
    ];
    rects.sort();
    assert_eq!(rects[0], Rectangle { x: 0, y: 0, width: 1, height: 9 });
    assert_eq!(rects[3], Rectangle { x: 1, y: 0, width: 0, height: 0 });
}

#[test]
fn coord_keeps_its_bits() {
    let c = width(12.25);
    assert_eq!(f64::from_bits(c.to_bits()), 12.25);
    assert_eq!(Coord::from_bits(7).bits, 7);
    assert_ne!(width(0.0), width(-0.0));
}
