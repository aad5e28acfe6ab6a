use axcpu::trap::PageFaultFlags;

#[test]
fn each_access_holds_one_flag() {
    assert_eq!(
        PageFaultFlags::read(),
        PageFaultFlags { read: true, write: false, execute: false, user: false }
    );
    assert_eq!(
        PageFaultFlags::write(),
        PageFaultFlags { read: false, write: true, execute: false, user: false }
    );
    assert_eq!(
        PageFaultFlags::execute(),
        PageFaultFlags { read: false, write: false, execute: true, user: false }
    );
}

#[test]
fn with_user_adds_the_flag_and_never_removes_it() {
    let read = PageFaultFlags::read();
    assert_eq!(
        read.with_user(true),
        PageFaultFlags { read: true, write: false, execute: false, user: true }
    );
    assert_eq!(read.with_user(false), read);
    assert_eq!(read.with_user(true).with_user(false), read.with_user(true));
}
