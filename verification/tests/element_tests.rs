use rusticon::element::{mouse_over, Element, Elements};
use rusticon::event::EventData;
use rusticon::look::Look;

fn ev(x: u16, y: u16) -> EventData {
    EventData::for_mouse(0, x, y, vec![])
}

fn el_3x2_at(x: u16, y: u16) -> Element<u8> {
    // width 3, height 2
    Element::new(x, y, Look::from_text("abc\ndef"))
}

#[test]
fn hit_inside_every_cell() {
    let e = el_3x2_at(5, 7);
    for i in 0..3u16 {
        for j in 0..2u16 {
            assert!(mouse_over(&e, &ev(5 + i, 7 + j)));
        }
    }
}

#[test]
fn miss_just_outside_every_edge() {
    let e = el_3x2_at(5, 7);
    assert!(!mouse_over(&e, &ev(4, 7)));
    assert!(!mouse_over(&e, &ev(5 + 3, 7)));
    assert!(!mouse_over(&e, &ev(5, 6)));
    assert!(!mouse_over(&e, &ev(5, 7 + 2)));
}

#[test]
fn empty_look_never_hit() {
    let e: Element<u8> = Element::new(0, 0, Look::new());
    assert!(!mouse_over(&e, &ev(0, 0)));
}

#[test]
fn missing_coordinates_never_hit() {
    let e = el_3x2_at(0, 0);
    let t = EventData::for_tick(0);
    assert!(!mouse_over(&e, &t));
}

#[test]
fn collection_keeps_insertion_order() {
    let mut c: Elements<u8> = Elements::new();
    let mut a: Element<u8> = Element::new(1, 0, Look::new());
    a.on_loop = Some(10);
    let mut b: Element<u8> = Element::new(2, 0, Look::new());
    b.on_loop = Some(20);
    c.push(a);
    c.push(b);
    let mut d: Elements<u8> = Elements::new();
    let mut e3: Element<u8> = Element::new(3, 0, Look::new());
    e3.on_loop = Some(30);
    d.push(e3);
    c.extend(d);
    let xs: Vec<u16> = c.iter().iter().map(|e| e.x).collect();
    assert_eq!(xs, vec![1, 2, 3]);
    assert_eq!(c.len(), 3);
}
