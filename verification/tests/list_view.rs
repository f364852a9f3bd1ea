use winsafe::co;
use winsafe::gui::ListViewColumn;
use winsafe::gui::ListViewEvents;
use winsafe::msg::lvm;
use winsafe::structs::LVFINDINFO;
use winsafe::HWND;
use winsafe::LVCOLUMN;
use winsafe::NMCUSTOMDRAW;
use winsafe::NMHDR;
use winsafe::NMITEMACTIVATE;
use winsafe::NMLVFINDITEM;
use winsafe::POINT;
use winsafe::RECT;
use winsafe::SIZE;

const LIST: HWND = HWND(0x115);

fn column(index: u32) -> ListViewColumn {
    ListViewColumn::new(LIST, index)
}

fn client(right: i32) -> RECT {
    RECT { left: 0, top: 0, right, bottom: 200 }
}

#[test]
fn set_title_sends_the_text_for_its_column() {
    let mut sent: Vec<(HWND, lvm::SetColumn)> = Vec::new();
    assert_eq!(
        column(2).set_title("Name", |hwnd, msg| {
            sent.push((hwnd, msg));
            Ok(())
        }),
        Ok(())
    );
    let mut lvc = LVCOLUMN::default();
    lvc.iSubItem = 2;
    lvc.mask = co::LVCF(co::LVCF::TEXT);
    lvc.pszText = Some(String::from("Name"));
    assert_eq!(sent, vec![(LIST, lvm::SetColumn { index: 2, lvcolumn: lvc })]);
    assert_eq!(column(0).set_title("", |_, _| Err(co::ERROR(87))), Err(co::ERROR(87)));
}

#[test]
fn set_width_sends_the_adjusted_width() {
    let mut adjusted: Vec<SIZE> = Vec::new();
    let mut sent: Vec<(HWND, lvm::SetColumnWidth)> = Vec::new();
    let res = column(1).set_width(
        100,
        |sz| {
            adjusted.push(sz);
            Ok(SIZE { cx: sz.cx * 3 / 2, cy: sz.cy })
        },
        |hwnd, msg| {
            sent.push((hwnd, msg));
            Ok(())
        },
    );
    assert_eq!(res, Ok(()));
    assert_eq!(adjusted, vec![SIZE { cx: 100, cy: 0 }]);
    assert_eq!(sent, vec![(LIST, lvm::SetColumnWidth { index: 1, width: 150 })]);
}

#[test]
fn set_width_sends_nothing_when_the_adjustment_fails() {
    let mut sent = false;
    let res = column(1).set_width(
        100,
        |_| Err(co::ERROR(8)),
        |_, _| {
            sent = true;
            Ok(())
        },
    );
    assert_eq!(res, Err(co::ERROR(8)));
    assert!(!sent);
    assert_eq!(column(1).set_width(1, |sz| Ok(sz), |_, _| Err(co::ERROR(5))), Err(co::ERROR(5)));
}

#[test]
fn set_width_to_fill_takes_what_the_other_columns_leave() {
    let mut sent: Vec<(HWND, lvm::SetColumnWidth)> = Vec::new();
    let widths = vec![120, 80, 999, 50];
    let res = column(2).set_width_to_fill(&widths, client(600), |hwnd, msg| {
        sent.push((hwnd, msg));
        Ok(())
    });
    assert_eq!(res, Ok(()));
    assert_eq!(sent, vec![(LIST, lvm::SetColumnWidth { index: 2, width: 350 })]);
}

#[test]
fn set_width_to_fill_at_the_edges() {
    let fill = |index: u32, widths: Vec<u32>, right: i32| -> Option<u32> {
        let mut width = None;
        let res = column(index).set_width_to_fill(&widths, client(right), |_, msg| {
            assert_eq!(msg.index, index);
            width = Some(msg.width);
            Ok(())
        });
        assert_eq!(res, Ok(()));
        width
    };
    // No column: nothing is sent.
    assert_eq!(fill(0, vec![], 600), None);
    // A single column takes everything.
    assert_eq!(fill(0, vec![77], 600), Some(600));
    // The others fill the control exactly.
    assert_eq!(fill(1, vec![300, 5, 300], 600), Some(0));
    // An index past the last column counts every column.
    assert_eq!(fill(7, vec![100, 200], 600), Some(300));
    assert_eq!(fill(0, vec![0, 0, 0], i32::MAX), Some(i32::MAX as u32));
}

#[test]
fn set_width_to_fill_returns_the_answer_of_the_control() {
    let widths = vec![10, 20];
    assert_eq!(
        column(0).set_width_to_fill(&widths, client(100), |_, _| Err(co::ERROR(1400))),
        Err(co::ERROR(1400))
    );
}

#[test]
fn title_asks_for_the_text_and_returns_it() {
    let mut sent: Vec<(HWND, lvm::GetColumn)> = Vec::new();
    let got = column(3).title(|hwnd, msg| {
        sent.push((hwnd, msg.clone()));
        let mut filled = msg.lvcolumn;
        filled.pszText = Some(String::from("Size"));
        Ok(filled)
    });
    assert_eq!(got, Ok(String::from("Size")));

    let mut asked = LVCOLUMN::default();
    asked.iSubItem = 3;
    asked.mask = co::LVCF(co::LVCF::TEXT);
    asked.pszText = Some(String::new());
    asked.cchTextMax = 128;
    assert_eq!(sent, vec![(LIST, lvm::GetColumn { index: 3, lvcolumn: asked })]);

    assert_eq!(column(0).title(|_, _| Ok(LVCOLUMN::default())), Ok(String::new()));
    assert_eq!(column(0).title(|_, _| Err(co::ERROR(87))), Err(co::ERROR(87)));
}

#[test]
fn width_returns_the_answer_of_the_control() {
    let mut sent: Vec<(HWND, lvm::GetColumnWidth)> = Vec::new();
    assert_eq!(
        column(4).width(|hwnd, msg| {
            sent.push((hwnd, msg));
            Ok(72)
        }),
        Ok(72)
    );
    assert_eq!(sent, vec![(LIST, lvm::GetColumnWidth { index: 4 })]);
    assert_eq!(column(4).width(|_, _| Err(co::ERROR(87))), Err(co::ERROR(87)));
}

fn hdr(id_from: usize, code: i32) -> NMHDR {
    NMHDR { hwndFrom: LIST, idFrom: id_from, code: co::NM(code) }
}

fn activate(id_from: usize, code: i32) -> NMITEMACTIVATE {
    NMITEMACTIVATE {
        hdr: hdr(id_from, code),
        iItem: 3,
        iSubItem: 0,
        uNewState: 0,
        uOldState: 0,
        uChanged: 0,
        ptAction: POINT { x: 4, y: 5 },
        lParam: 0,
        uKeyFlags: 0,
    }
}

#[test]
fn nm_hover_answers_only_its_own_notification() {
    let events = ListViewEvents::new(40);
    assert_eq!(events.nm_hover(&hdr(40, co::NM::HOVER), || 1), Some(1));
    assert_eq!(events.nm_hover(&hdr(40, co::NM::HOVER), || -3), Some(-3));
    assert_eq!(events.nm_hover(&hdr(40, co::NM::HOVER), || i32::MIN), Some(i32::MIN as isize));

    let mut called = false;
    assert_eq!(
        events.nm_hover(&hdr(41, co::NM::HOVER), || {
            called = true;
            1
        }),
        None
    );
    assert_eq!(
        events.nm_hover(&hdr(40, co::NM::RCLICK), || {
            called = true;
            1
        }),
        None
    );
    assert_eq!(
        events.nm_hover(&hdr(0x1_0028, co::NM::HOVER), || {
            called = true;
            1
        }),
        None
    );
    assert!(!called);
}

#[test]
fn nm_r_click_hands_the_notification_to_the_handler() {
    let events = ListViewEvents::new(40);
    let mut seen: Vec<(i32, POINT)> = Vec::new();
    let res = events.nm_r_click(&activate(40, co::NM::RCLICK), |p| {
        seen.push((p.iItem, p.ptAction));
        7
    });
    assert_eq!(res, Some(7));
    assert_eq!(seen, vec![(3, POINT { x: 4, y: 5 })]);
    assert_eq!(events.nm_r_click(&activate(40, co::NM::CLICK), |_| 7), None);
    assert_eq!(events.nm_r_click(&activate(39, co::NM::RCLICK), |_| 7), None);
}

#[test]
fn nm_custom_draw_answers_with_the_number_of_the_value() {
    let events = ListViewEvents::new(40);
    let draw = |id_from: usize, code: i32| NMCUSTOMDRAW {
        hdr: hdr(id_from, code),
        dwDrawStage: 1,
        hdc: 0xdc,
        rc: client(10),
        dwItemSpec: 0,
        uItemState: 0,
        lItemlParam: 0,
    };
    let mut stage = 0;
    let res = events.nm_custom_draw(&draw(40, co::NM::CUSTOMDRAW), |p| {
        stage = p.dwDrawStage;
        co::CDRF(co::CDRF::NOTIFYITEMDRAW)
    });
    assert_eq!(res, Some(0x20));
    assert_eq!(stage, 1);
    assert_eq!(
        events.nm_custom_draw(&draw(40, co::NM::CUSTOMDRAW), |_| co::CDRF(co::CDRF::DODEFAULT)),
        Some(0)
    );
    assert_eq!(events.nm_custom_draw(&draw(40, co::NM::HOVER), |_| co::CDRF(4)), None);
    assert_eq!(events.nm_custom_draw(&draw(4, co::NM::CUSTOMDRAW), |_| co::CDRF(4)), None);
}

#[test]
fn lvn_od_find_item_answers_the_index_or_minus_one() {
    let events = ListViewEvents::new(40);
    let find = |id_from: usize, code: i32| NMLVFINDITEM {
        hdr: hdr(id_from, code),
        iStart: 2,
        lvfi: LVFINDINFO {
            flags: 2,
            psz: Some(String::from("ab")),
            lParam: 0,
            pt: POINT { x: 0, y: 0 },
            vkDirection: 0,
        },
    };
    let mut asked: Vec<(i32, Option<String>)> = Vec::new();
    let res = events.lvn_od_find_item(&find(40, co::NM::LVN_ODFINDITEM), |p| {
        asked.push((p.iStart, p.lvfi.psz.clone()));
        Some(12)
    });
    assert_eq!(res, Some(12));
    assert_eq!(asked, vec![(2, Some(String::from("ab")))]);
    assert_eq!(events.lvn_od_find_item(&find(40, co::NM::LVN_ODFINDITEM), |_| Some(0)), Some(0));
    assert_eq!(events.lvn_od_find_item(&find(40, co::NM::LVN_ODFINDITEM), |_| None), Some(-1));
    assert_eq!(events.lvn_od_find_item(&find(40, co::NM::HOVER), |_| Some(1)), None);
    assert_eq!(events.lvn_od_find_item(&find(1, co::NM::LVN_ODFINDITEM), |_| Some(1)), None);
}

#[test]
fn is_for_matches_sender_and_code() {
    let events = ListViewEvents::new(u16::MAX);
    assert!(events.is_for(&hdr(0xffff, -13), -13));
    assert!(!events.is_for(&hdr(0xffff, -13), -12));
    assert!(!events.is_for(&hdr(0xfffe, -13), -13));
}
