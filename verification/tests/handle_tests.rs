use async_hid::handle::HandleKind;
use async_hid::handle::SharedHandle;
use async_hid::handle::Teardown;

#[test]
fn reader_then_writer_closes_once() {
    let mut handle = SharedHandle::opened(true);
    assert!(handle.is_open());
    assert!(handle.is_bridge_attached());
    assert_eq!(handle.release(HandleKind::Reader), Teardown::DetachBridge);
    assert!(handle.is_open());
    assert!(!handle.is_bridge_attached());
    assert_eq!(handle.release(HandleKind::Writer), Teardown::CloseNative);
    assert!(!handle.is_open());
}

#[test]
fn writer_then_reader_closes_once() {
    let mut handle = SharedHandle::opened(true);
    assert_eq!(handle.release(HandleKind::Writer), Teardown::Nothing);
    assert!(handle.is_open());
    assert!(handle.is_bridge_attached());
    assert_eq!(handle.release(HandleKind::Reader), Teardown::DetachBridgeThenCloseNative);
    assert!(!handle.is_open());
    assert!(!handle.is_bridge_attached());
}

#[test]
fn a_lone_reader_detaches_and_closes() {
    let mut handle = SharedHandle::opened(false);
    assert_eq!(handle.readers(), 1);
    assert_eq!(handle.writers(), 0);
    assert_eq!(handle.release(HandleKind::Writer), Teardown::Nothing);
    assert_eq!(handle.release(HandleKind::Reader), Teardown::DetachBridgeThenCloseNative);
}

#[test]
fn release_after_the_close_does_nothing() {
    let mut handle = SharedHandle::opened(true);
    handle.release(HandleKind::Reader);
    handle.release(HandleKind::Writer);
    assert_eq!(handle.release(HandleKind::Reader), Teardown::Nothing);
    assert_eq!(handle.release(HandleKind::Writer), Teardown::Nothing);
    assert_eq!(handle.readers(), 0);
    assert_eq!(handle.writers(), 0);
    assert!(!handle.is_open());
}

#[test]
fn every_order_of_releases_closes_exactly_once() {
    let orders = [
        [HandleKind::Reader, HandleKind::Reader, HandleKind::Writer, HandleKind::Writer],
        [HandleKind::Reader, HandleKind::Writer, HandleKind::Reader, HandleKind::Writer],
        [HandleKind::Reader, HandleKind::Writer, HandleKind::Writer, HandleKind::Reader],
        [HandleKind::Writer, HandleKind::Reader, HandleKind::Reader, HandleKind::Writer],
        [HandleKind::Writer, HandleKind::Reader, HandleKind::Writer, HandleKind::Reader],
        [HandleKind::Writer, HandleKind::Writer, HandleKind::Reader, HandleKind::Reader],
    ];
    for order in orders {
        let mut handle = SharedHandle::opened(true);
        assert!(handle.retain(HandleKind::Reader));
        assert!(handle.retain(HandleKind::Writer));
        assert_eq!(handle.readers(), 2);
        assert_eq!(handle.writers(), 2);
        let mut closes = 0;
        let mut detaches = 0;
        for (turn, kind) in order.into_iter().enumerate() {
            let teardown = handle.release(kind);
            match teardown {
                Teardown::Nothing => {},
                Teardown::DetachBridge => detaches += 1,
                Teardown::CloseNative => closes += 1,
                Teardown::DetachBridgeThenCloseNative => {
                    detaches += 1;
                    closes += 1;
                },
            }
            if turn < 3 {
                assert_eq!(closes, 0);
                assert!(handle.is_open());
            }
        }
        assert_eq!(closes, 1);
        assert_eq!(detaches, 1);
        assert!(!handle.is_open());
    }
}

#[test]
fn a_closed_handle_takes_no_new_reference() {
    let mut handle = SharedHandle::opened(false);
    handle.release(HandleKind::Reader);
    assert!(!handle.retain(HandleKind::Reader));
    assert!(!handle.retain(HandleKind::Writer));
    assert!(!handle.is_open());
}

#[test]
fn no_reader_joins_after_the_bridge_is_detached() {
    let mut handle = SharedHandle::opened(true);
    handle.release(HandleKind::Reader);
    assert!(!handle.retain(HandleKind::Reader));
    assert!(handle.retain(HandleKind::Writer));
    assert_eq!(handle.writers(), 2);
    assert_eq!(handle.release(HandleKind::Writer), Teardown::Nothing);
    assert_eq!(handle.release(HandleKind::Writer), Teardown::CloseNative);
}
