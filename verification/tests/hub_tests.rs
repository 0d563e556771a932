use canvas_hub::canvas::{Canvas, LoadError};
use canvas_hub::color::{CssColor, Rgba};
use canvas_hub::geom::{Draw, Pt};
use canvas_hub::hub::{Connect, Disconnect, Server};
use canvas_hub::registry::Registry;

const WHITE: Rgba = Rgba { r: 255, g: 255, b: 255, a: 255 };

fn pixel(c: &Canvas, x: u32, y: u32) -> (u8, u8, u8, u8) {
    let i = ((y * c.width + x) * 4) as usize;
    (c.buf[i], c.buf[i + 1], c.buf[i + 2], c.buf[i + 3])
}

#[test]
fn color_values_are_exact() {
    assert_eq!(CssColor::Black.as_rgba(), Rgba { r: 0, g: 0, b: 0, a: 255 });
    assert_eq!(CssColor::White.as_rgba(), Rgba { r: 255, g: 255, b: 255, a: 255 });
    assert_eq!(CssColor::Red.as_rgba(), Rgba { r: 255, g: 0, b: 0, a: 255 });
    assert_eq!(CssColor::Lime.as_rgba(), Rgba { r: 0, g: 255, b: 0, a: 255 });
    assert_eq!(CssColor::Blue.as_rgba(), Rgba { r: 0, g: 0, b: 255, a: 255 });
    assert_eq!(CssColor::Yellow.as_rgba(), Rgba { r: 255, g: 255, b: 0, a: 255 });
    assert_eq!(CssColor::Magenta.as_rgba(), Rgba { r: 255, g: 0, b: 255, a: 255 });
    assert_eq!(CssColor::Cyan.as_rgba(), Rgba { r: 0, g: 255, b: 255, a: 255 });
}

#[test]
fn color_names_resolve() {
    assert_eq!(CssColor::from_name("black"), Some(CssColor::Black));
    assert_eq!(CssColor::from_name("white"), Some(CssColor::White));
    assert_eq!(CssColor::from_name("red"), Some(CssColor::Red));
    assert_eq!(CssColor::from_name("lime"), Some(CssColor::Lime));
    assert_eq!(CssColor::from_name("blue"), Some(CssColor::Blue));
    assert_eq!(CssColor::from_name("yellow"), Some(CssColor::Yellow));
    assert_eq!(CssColor::from_name("magenta"), Some(CssColor::Magenta));
    assert_eq!(CssColor::from_name("cyan"), Some(CssColor::Cyan));
}

#[test]
fn unknown_color_is_rejected_at_the_boundary() {
    // A stroke naming a color outside the enumeration never reaches the hub:
    // no stroke value can be built for it, so the canvas stays untouched and
    // no connection is dropped.
    assert_eq!(CssColor::from_name("purple"), None);
    assert_eq!(CssColor::from_name(""), None);
    assert_eq!(CssColor::from_name("Red"), None);

    let mut hub = Server::new(8, 8, WHITE, None).unwrap();
    let _ = hub.handle_connect(Connect { client: 1 });
    let before = hub.canvas.buf.clone();
    // Nothing to submit: the malformed message was dropped at the boundary.
    assert_eq!(hub.canvas.buf, before);
    assert_eq!(hub.clients.conns, vec![1]);
}

#[test]
fn blank_canvas_is_filled_with_the_background() {
    let c = Canvas::blank(3, 2, Rgba { r: 9, g: 8, b: 7, a: 255 });
    assert_eq!(c.buf.len(), 3 * 2 * 4);
    for p in 0..6 {
        assert_eq!(&c.buf[p * 4..p * 4 + 4], &[9, 8, 7, 255]);
    }
}

#[test]
fn from_raw_accepts_only_matching_lengths() {
    assert!(Canvas::from_raw(2, 2, vec![0u8; 16]).is_some());
    assert!(Canvas::from_raw(2, 2, vec![0u8; 15]).is_none());
    assert!(Canvas::from_raw(2, 2, vec![0u8; 17]).is_none());
}

#[test]
fn registry_tracks_membership() {
    let mut r = Registry::new();
    assert!(!r.contains(5));
    r.insert(5);
    r.insert(9);
    r.insert(5); // registering twice changes nothing
    assert!(r.contains(5));
    assert!(r.contains(9));
    assert_eq!(r.members(), vec![5, 9]);
    r.remove(5);
    assert!(!r.contains(5));
    assert_eq!(r.members(), vec![9]);
    r.remove(5); // removing an absent identity is a no-op
    assert_eq!(r.members(), vec![9]);
}

#[test]
fn disconnect_twice_equals_disconnect_once() {
    let mut hub = Server::new(4, 4, WHITE, None).unwrap();
    let _ = hub.handle_connect(Connect { client: 1 });
    let _ = hub.handle_connect(Connect { client: 2 });
    hub.handle_disconnect(Disconnect { client: 1 });
    let once = hub.clients.conns.clone();
    hub.handle_disconnect(Disconnect { client: 1 });
    assert_eq!(hub.clients.conns, once);
    assert_eq!(hub.clients.conns, vec![2]);
}

#[test]
fn degenerate_stroke_leaves_canvas_unchanged() {
    // The corners of a zero-length stroke coincide, so its first and last
    // computed vertices are equal and the stroke is silently skipped.
    let mut c = Canvas::blank(16, 16, WHITE);
    let before = c.buf.clone();
    let p = Pt { x: 3, y: 3 };
    c.apply_stroke(&Draw { p0: p, p1: p, p2: p, p3: p, color: CssColor::Red });
    assert_eq!(c.buf, before);
}

#[test]
fn broadcast_reaches_both_clients_and_paints_the_region() {
    // Two connections; one sends a horizontal red stroke from (0,0) to
    // (10,0) with thickness 2, whose resolved corners are (0,-1), (10,-1),
    // (10,1), (0,1). Both connections get the identical broadcast, and the
    // on-canvas part of the region is red.
    let mut hub = Server::new(32, 32, WHITE, None).unwrap();
    let _ = hub.handle_connect(Connect { client: 1 });
    let _ = hub.handle_connect(Connect { client: 2 });
    let stroke = Draw {
        p0: Pt { x: 0, y: -1 },
        p1: Pt { x: 10, y: -1 },
        p2: Pt { x: 10, y: 1 },
        p3: Pt { x: 0, y: 1 },
        color: CssColor::Red,
    };
    let recipients = hub.handle_draw(stroke);
    assert_eq!(recipients, vec![1, 2]);
    for x in 0..=10 {
        assert_eq!(pixel(&hub.canvas, x, 0), (255, 0, 0, 255));
        assert_eq!(pixel(&hub.canvas, x, 1), (255, 0, 0, 255));
    }
    assert_eq!(pixel(&hub.canvas, 0, 3), (255, 255, 255, 255));
    assert_eq!(pixel(&hub.canvas, 15, 15), (255, 255, 255, 255));
}

#[test]
fn broadcast_with_no_clients_is_empty() {
    let mut hub = Server::new(8, 8, WHITE, None).unwrap();
    let stroke = Draw {
        p0: Pt { x: 0, y: 0 },
        p1: Pt { x: 4, y: 0 },
        p2: Pt { x: 4, y: 4 },
        p3: Pt { x: 0, y: 4 },
        color: CssColor::Blue,
    };
    let recipients = hub.handle_draw(stroke);
    assert!(recipients.is_empty());
}

#[test]
fn snapshot_matches_canvas_at_registration() {
    let mut hub = Server::new(5, 4, WHITE, None).unwrap();
    let stroke = Draw {
        p0: Pt { x: 0, y: 0 },
        p1: Pt { x: 4, y: 0 },
        p2: Pt { x: 4, y: 3 },
        p3: Pt { x: 0, y: 3 },
        color: CssColor::Magenta,
    };
    let _ = hub.handle_draw(stroke);
    let snapshot = hub.handle_connect(Connect { client: 1 });

    let prefix = "data:image/png;base64,";
    assert!(snapshot.starts_with(prefix));
    let png = base64::Engine::decode(
        &base64::engine::general_purpose::STANDARD,
        &snapshot[prefix.len()..],
    )
    .expect("snapshot carries valid base64");
    let img = image::load_from_memory(&png).expect("snapshot carries a valid image");
    let rgba = img.to_rgba8();
    assert_eq!(rgba.dimensions(), (5, 4));
    assert_eq!(rgba.as_raw(), &hub.canvas.buf);
    assert_eq!(pixel(&hub.canvas, 2, 2), (255, 0, 255, 255));
}

#[test]
fn persist_then_load_reproduces_the_bytes() {
    let mut hub = Server::new(6, 6, WHITE, None).unwrap();
    let stroke = Draw {
        p0: Pt { x: 1, y: 1 },
        p1: Pt { x: 4, y: 1 },
        p2: Pt { x: 4, y: 4 },
        p3: Pt { x: 1, y: 4 },
        color: CssColor::Cyan,
    };
    let _ = hub.handle_draw(stroke);
    let png = hub.backup();

    let reloaded = Server::new(6, 6, WHITE, Some(png)).unwrap();
    assert_eq!(reloaded.canvas.buf, hub.canvas.buf);
    assert_eq!(reloaded.canvas.width, 6);
    assert_eq!(reloaded.canvas.height, 6);
}

#[test]
fn corrupt_persisted_state_is_a_fatal_startup_error() {
    let garbage = vec![1u8, 2, 3, 4, 5];
    match Server::new(4, 4, WHITE, Some(garbage)) {
        Err(LoadError::Undecodable) => {}
        other => panic!("expected an undecodable-state error, got {:?}", other.is_ok()),
    }
}

#[test]
fn mismatched_persisted_dimensions_are_fatal() {
    let hub = Server::new(4, 4, WHITE, None).unwrap();
    let png = hub.backup();
    match Server::new(5, 5, WHITE, Some(png)) {
        Err(LoadError::WrongDimensions) => {}
        other => panic!("expected a dimension error, got {:?}", other.is_ok()),
    }
}

#[test]
fn ticks_between_strokes_persist_settled_states() {
    // A persistence tick reads only settled canvas states: what it writes is
    // the canvas with every stroke accepted so far applied whole, so the
    // persisted bytes always equal a pre-stroke or post-stroke state.
    let mut hub = Server::new(8, 8, WHITE, None).unwrap();
    let before = hub.backup();
    let stroke = Draw {
        p0: Pt { x: 0, y: 0 },
        p1: Pt { x: 7, y: 0 },
        p2: Pt { x: 7, y: 7 },
        p3: Pt { x: 0, y: 7 },
        color: CssColor::Black,
    };
    let _ = hub.handle_draw(stroke);
    let after = hub.backup();

    let pre = Server::new(8, 8, WHITE, Some(before)).unwrap();
    assert_eq!(pre.canvas.buf, Canvas::blank(8, 8, WHITE).buf);
    let post = Server::new(8, 8, WHITE, Some(after)).unwrap();
    assert_eq!(post.canvas.buf, hub.canvas.buf);
    assert_ne!(pre.canvas.buf, post.canvas.buf);
}
