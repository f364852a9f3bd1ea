use winsafe::co;
use winsafe::gui::native_controls::BaseNativeControl;
use winsafe::gui::native_controls::CreateWindow;
use winsafe::gui::Base;
use winsafe::gui::HeaderEvents;
use winsafe::ole::decl::ole_IUnknown;
use winsafe::ole::decl::ComPtr;
use winsafe::IShellItem;
use winsafe::HWND;
use winsafe::LVCOLUMN;
use winsafe::POINT;
use winsafe::SIZE;
use winsafe::TVITEMEX;

#[test]
fn null_handles_and_addresses() {
    assert!(HWND::null().is_null());
    assert!(HWND(0).is_null());
    assert!(!HWND(1).is_null());
    assert!(ComPtr::null().is_null());
    assert_eq!(ComPtr::null(), ComPtr(0));
    assert!(!ComPtr(usize::MAX).is_null());
}

#[test]
fn points_and_sizes_keep_their_parts() {
    assert_eq!(POINT::new(-3, 4), POINT { x: -3, y: 4 });
    assert_eq!(SIZE::new(5, i32::MIN), SIZE { cx: 5, cy: i32::MIN });
}

#[test]
fn default_structures_are_all_zero() {
    let lvc = LVCOLUMN::default();
    assert_eq!(lvc.mask, co::LVCF(0));
    assert_eq!(
        (lvc.fmt, lvc.cx, lvc.cchTextMax, lvc.iSubItem, lvc.iImage, lvc.iOrder),
        (0, 0, 0, 0, 0, 0)
    );
    assert_eq!((lvc.cxMin, lvc.cxDefault, lvc.cxIdeal), (0, 0, 0));
    assert_eq!(lvc.pszText, None);

    let tvix = TVITEMEX::default();
    assert_eq!((tvix.mask.0, tvix.hItem.0, tvix.state.0, tvix.stateMask.0), (0, 0, 0, 0));
    assert_eq!((tvix.cchTextMax, tvix.iImage, tvix.iSelectedImage, tvix.cChildren), (0, 0, 0, 0));
    assert_eq!((tvix.lParam, tvix.iIntegral, tvix.uStateEx, tvix.hwnd), (0, 0, 0, HWND(0)));
    assert_eq!((tvix.iExpandedImage, tvix.iReserved), (0, 0));
    assert_eq!(tvix.pszText, None);
}

#[test]
fn a_shell_item_holds_the_address_it_was_made_from() {
    assert_eq!(IShellItem::from(ComPtr(0x90)).ptr(), ComPtr(0x90));
    assert_eq!(IShellItem::from(ComPtr(0x90)).0.ppv(), ComPtr(0x90));
}

#[test]
fn a_window_keeps_its_handle() {
    assert!(Base::new(HWND::null()).hwnd().is_null());
    assert_eq!(*Base::new(HWND(0x44)).hwnd(), HWND(0x44));
    assert_eq!(HeaderEvents::new(9).ctrl_id(), 9);
}

#[test]
fn create_window_asks_for_the_window_and_keeps_the_handle() {
    let mut control = BaseNativeControl::new(&Base::new(HWND::null()), 12);
    assert!(control.hwnd().is_null());
    assert_eq!(control.ctrl_id(), 12);

    let mut asked: Vec<CreateWindow> = Vec::new();
    let res = control.create_window(
        &Base::new(HWND(0xaa)),
        "BUTTON",
        Some("Go"),
        POINT { x: 1, y: 2 },
        SIZE { cx: 30, cy: 40 },
        co::WS_EX(co::WS_EX::TOPMOST),
        co::WS(co::WS::CHILD),
        |req| {
            asked.push(req);
            Ok(HWND(0xbb))
        },
    );
    assert_eq!(res, Ok(()));
    assert_eq!(*control.hwnd(), HWND(0xbb));
    assert_eq!(control.ctrl_id(), 12);
    assert_eq!(
        asked,
        vec![CreateWindow {
            ex_styles: co::WS_EX(8),
            class_name: String::from("BUTTON"),
            title: Some(String::from("Go")),
            styles: co::WS(0x4000_0000),
            pos: POINT { x: 1, y: 2 },
            sz: SIZE { cx: 30, cy: 40 },
            parent: HWND(0xaa),
            ctrl_id: 12,
        }]
    );
}

#[test]
fn create_window_leaves_the_control_alone_on_failure() {
    let mut control = BaseNativeControl::new(&Base::new(HWND::null()), 12);
    let res = control.create_window(
        &Base::new(HWND(0xaa)),
        "BUTTON",
        None,
        POINT { x: 0, y: 0 },
        SIZE { cx: 0, cy: 0 },
        co::WS_EX(0),
        co::WS(0),
        |req| {
            assert_eq!(req.title, None);
            Err(co::ERROR(1407))
        },
    );
    assert_eq!(res, Err(co::ERROR(1407)));
    assert!(control.hwnd().is_null());
}

#[test]
fn create_dlg_asks_the_dialog_for_the_control() {
    let mut control = BaseNativeControl::new(&Base::new(HWND::null()), 301);
    let mut asked: Vec<(HWND, u16)> = Vec::new();
    let res = control.create_dlg(&Base::new(HWND(0xd1)), |hdlg, ctrl_id| {
        asked.push((hdlg, ctrl_id));
        Ok(HWND(0xcc))
    });
    assert_eq!(res, Ok(()));
    assert_eq!(*control.hwnd(), HWND(0xcc));
    assert_eq!(asked, vec![(HWND(0xd1), 301)]);

    let res = control.create_dlg(&Base::new(HWND(0xd1)), |_, _| Err(co::ERROR(1421)));
    assert_eq!(res, Err(co::ERROR(1421)));
    assert_eq!(*control.hwnd(), HWND(0xcc));
}
