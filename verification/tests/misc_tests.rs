use lurk::basic::canned_reply;
use lurk::layout::{centered_rect, message_type_list, Area};
use lurk::sheep::{classify_sheep_request, conversion_reply, set_ok_reply, SheepRequest};

#[test]
fn sheep_requests() {
    assert_eq!(classify_sheep_request(1), SheepRequest::SetValue);
    assert_eq!(classify_sheep_request(2), SheepRequest::SheepToDollars);
    assert_eq!(classify_sheep_request(3), SheepRequest::DollarsToSheep);
    assert_eq!(classify_sheep_request(0), SheepRequest::Unknown);
    assert_eq!(classify_sheep_request(4), SheepRequest::Unknown);
}

#[test]
fn sheep_replies() {
    assert_eq!(set_ok_reply(), [4]);
    let v = 12.5f64.to_le_bytes();
    let r = conversion_reply(v);
    assert_eq!(r[0], 5);
    assert_eq!(&r[1..], &v[..]);
    assert_eq!(f64::from_le_bytes(r[1..9].try_into().unwrap()), 12.5);
}

#[test]
fn canned_reply_bytes() {
    let mut expected = vec![14u8, 2, 3, 0, 0, 0, 0, 7, 4, 1, 0];
    expected.extend_from_slice(b"A SAD HAS HAPPEN");
    assert_eq!(canned_reply(), expected);
}

#[test]
fn centered_rect_middle() {
    let r = Area { x: 0, y: 0, width: 100, height: 100 };
    assert_eq!(centered_rect(50, 50, r), Area { x: 25, y: 25, width: 50, height: 50 });
    let r = Area { x: 10, y: 4, width: 40, height: 20 };
    assert_eq!(centered_rect(50, 50, r), Area { x: 20, y: 9, width: 20, height: 10 });
}

#[test]
fn message_type_list_quarter() {
    let r = Area { x: 0, y: 0, width: 10, height: 8 };
    assert_eq!(message_type_list(r), Area { x: 0, y: 6, width: 10, height: 2 });
}

fn inside(inner: Area, outer: Area) -> bool {
    outer.x <= inner.x
        && inner.x as u32 + inner.width as u32 <= outer.x as u32 + outer.width as u32
        && outer.y <= inner.y
        && inner.y as u32 + inner.height as u32 <= outer.y as u32 + outer.height as u32
}

#[test]
fn centered_rect_stays_inside() {
    for (px, py) in [(0u16, 0u16), (10, 90), (33, 67), (100, 100), (99, 1)] {
        for r in [
            Area { x: 0, y: 0, width: 0, height: 0 },
            Area { x: 3, y: 7, width: 17, height: 5 },
            Area { x: 100, y: 50, width: 333, height: 111 },
        ] {
            assert!(inside(centered_rect(px, py, r), r));
        }
    }
}

#[test]
fn message_type_list_spans_width() {
    for r in [
        Area { x: 0, y: 0, width: 0, height: 0 },
        Area { x: 5, y: 9, width: 13, height: 7 },
        Area { x: 200, y: 300, width: 80, height: 25 },
    ] {
        let l = message_type_list(r);
        assert_eq!((l.x, l.width), (r.x, r.width));
        assert!(inside(l, r));
    }
}
