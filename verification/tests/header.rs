use winsafe::co;
use winsafe::gui::native_controls::CreateWindow;
use winsafe::gui::Base;
use winsafe::gui::Header;
use winsafe::gui::HeaderOpts;
use winsafe::gui::Horz;
use winsafe::gui::Vert;
use winsafe::HWND;
use winsafe::POINT;
use winsafe::SIZE;

fn unborn() -> Base {
    Base::new(HWND::null())
}

#[test]
fn default_options() {
    let opts = HeaderOpts::default();
    assert_eq!(opts.position, (0, 0));
    assert_eq!(opts.size, (0, 0));
    assert_eq!(opts.header_style, co::HDS(0x0002));
    assert_eq!(opts.window_style, co::WS(0x4080_0000));
    assert_eq!(opts.window_ex_style, co::WS_EX(0));
    assert_eq!(opts.ctrl_id, 0);
    assert_eq!(opts.resize_behavior, (Horz::Nothing, Vert::Nothing));
}

#[test]
fn define_ctrl_id_asks_for_an_identifier_only_when_none_is_named() {
    let mut handed_out = 0;
    let mut opts = HeaderOpts::default();
    opts.size = (10, 20);
    let defined = opts.define_ctrl_id(|| {
        handed_out += 1;
        20_001
    });
    assert_eq!(defined.ctrl_id, 20_001);
    assert_eq!(defined.size, (10, 20));
    assert_eq!(HeaderOpts { ctrl_id: 0, ..defined }, opts);

    opts.ctrl_id = 17;
    let defined = opts.define_ctrl_id(|| {
        handed_out += 1;
        20_002
    });
    assert_eq!(defined, opts);
    assert_eq!(handed_out, 1);
}

#[test]
fn a_new_header_is_not_created_and_has_its_identifier() {
    let mut opts = HeaderOpts::default();
    opts.ctrl_id = 55;
    let header = Header::new(&unborn(), opts, || 20_000);
    assert!(header.hwnd().is_null());
    assert_eq!(header.ctrl_id(), 55);
    assert_eq!(header.on(&unborn()).ctrl_id(), 55);
    assert_eq!(header.items().owner().ctrl_id(), 55);

    let header = Header::new(&unborn(), HeaderOpts::default(), || 20_000);
    assert_eq!(header.ctrl_id(), 20_000);

    let header = Header::new_dlg(&unborn(), 301, (Horz::Resize, Vert::Repos));
    assert!(header.hwnd().is_null());
    assert_eq!(header.ctrl_id(), 301);
}

/// What the system was asked, in order.
#[derive(Debug, PartialEq)]
enum Asked {
    Adjust(HWND, POINT, SIZE),
    Window(CreateWindow),
    DlgItem(HWND, u16),
    Arrange(HWND, HWND, (Horz, Vert)),
}

/// Creates `header` in a parent with the handle 0xaa. The adjustment doubles
/// every length; each step fails with the code given for it, if any.
fn create(
    header: &mut Header,
    adjust_fails: Option<u32>,
    window_fails: Option<u32>,
    arrange_fails: Option<u32>,
) -> (Result<(), co::ERROR>, Vec<Asked>) {
    let log = std::cell::RefCell::new(Vec::new());
    let parent = Base::new(HWND(0xaa));
    let res = header.create(
        &parent,
        |hwnd, pos, sz| {
            log.borrow_mut().push(Asked::Adjust(hwnd, pos, sz));
            match adjust_fails {
                Some(code) => Err(co::ERROR(code)),
                None => Ok((
                    POINT { x: pos.x * 2, y: pos.y * 2 },
                    SIZE { cx: sz.cx * 2, cy: sz.cy * 2 },
                )),
            }
        },
        |req| {
            log.borrow_mut().push(Asked::Window(req));
            match window_fails {
                Some(code) => Err(co::ERROR(code)),
                None => Ok(HWND(0xbb)),
            }
        },
        |hwnd, ctrl_id| {
            log.borrow_mut().push(Asked::DlgItem(hwnd, ctrl_id));
            match window_fails {
                Some(code) => Err(co::ERROR(code)),
                None => Ok(HWND(0xcc)),
            }
        },
        |hparent, hwnd, resize| {
            log.borrow_mut().push(Asked::Arrange(hparent, hwnd, resize));
            match arrange_fails {
                Some(code) => Err(co::ERROR(code)),
                None => Ok(()),
            }
        },
    );
    (res, log.into_inner())
}

fn some_options() -> HeaderOpts {
    HeaderOpts {
        position: (10, -20),
        size: (300, 24),
        header_style: co::HDS(co::HDS::BUTTONS | co::HDS::DRAGDROP),
        window_style: co::WS(co::WS::CHILD | co::WS::VISIBLE),
        window_ex_style: co::WS_EX(co::WS_EX::CLIENTEDGE),
        ctrl_id: 77,
        resize_behavior: (Horz::Resize, Vert::Nothing),
    }
}

fn the_request() -> CreateWindow {
    CreateWindow {
        ex_styles: co::WS_EX(0x200),
        class_name: String::from("SysHeader32"),
        title: None,
        styles: co::WS(0x5000_0042),
        pos: POINT { x: 20, y: -40 },
        sz: SIZE { cx: 600, cy: 48 },
        parent: HWND(0xaa),
        ctrl_id: 77,
    }
}

#[test]
fn create_makes_the_window_from_the_options() {
    let mut header = Header::new(&unborn(), some_options(), || 1);
    let (res, asked) = create(&mut header, None, None, None);
    assert_eq!(res, Ok(()));
    assert_eq!(*header.hwnd(), HWND(0xbb));
    assert_eq!(header.ctrl_id(), 77);
    assert_eq!(
        asked,
        vec![
            Asked::Adjust(HWND(0xaa), POINT { x: 10, y: -20 }, SIZE { cx: 300, cy: 24 }),
            Asked::Window(the_request()),
            Asked::Arrange(HWND(0xaa), HWND(0xbb), (Horz::Resize, Vert::Nothing)),
        ]
    );
}

#[test]
fn create_stops_at_the_first_failure() {
    let mut header = Header::new(&unborn(), some_options(), || 1);
    let (res, asked) = create(&mut header, Some(8), None, None);
    assert_eq!(res, Err(co::ERROR(8)));
    assert!(header.hwnd().is_null());
    assert_eq!(asked.len(), 1);

    let (res, asked) = create(&mut header, None, Some(1407), None);
    assert_eq!(res, Err(co::ERROR(1407)));
    assert!(header.hwnd().is_null());
    assert_eq!(asked.len(), 2);
    assert_eq!(asked[1], Asked::Window(the_request()));

    let (res, asked) = create(&mut header, None, None, Some(14));
    assert_eq!(res, Err(co::ERROR(14)));
    assert_eq!(*header.hwnd(), HWND(0xbb));
    assert_eq!(asked.len(), 3);
}

#[test]
fn create_takes_a_dialog_control_from_the_dialog() {
    let mut header = Header::new_dlg(&unborn(), 301, (Horz::Repos, Vert::Resize));
    let (res, asked) = create(&mut header, Some(8), None, None);
    assert_eq!(res, Ok(()));
    assert_eq!(*header.hwnd(), HWND(0xcc));
    assert_eq!(
        asked,
        vec![
            Asked::DlgItem(HWND(0xaa), 301),
            Asked::Arrange(HWND(0xaa), HWND(0xcc), (Horz::Repos, Vert::Resize)),
        ]
    );

    let mut header = Header::new_dlg(&unborn(), 301, (Horz::Repos, Vert::Resize));
    let (res, asked) = create(&mut header, None, Some(1421), None);
    assert_eq!(res, Err(co::ERROR(1421)));
    assert!(header.hwnd().is_null());
    assert_eq!(asked, vec![Asked::DlgItem(HWND(0xaa), 301)]);
}

#[test]
fn create_turns_sizes_into_signed_numbers() {
    let mut opts = some_options();
    opts.size = (u32::MAX, 0x8000_0000);
    let mut header = Header::new(&unborn(), opts, || 1);
    let mut seen = None;
    let parent = Base::new(HWND(0xaa));
    let _ = header.create(
        &parent,
        |_, _, sz| {
            seen = Some(sz);
            Err(co::ERROR(1))
        },
        |_| Ok(HWND(1)),
        |_, _| Ok(HWND(1)),
        |_, _, _| Ok(()),
    );
    assert_eq!(seen, Some(SIZE { cx: -1, cy: i32::MIN }));
}
