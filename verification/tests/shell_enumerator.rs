use winsafe::co::HRESULT;
use winsafe::com::IUnknownVtbl;
use winsafe::ole::decl::ole_IUnknown;
use winsafe::ole::decl::ComPtr;
use winsafe::shell::shell_IEnumShellItems;
use winsafe::shell::EnumShellItemsIter;
use winsafe::shell::IEnumShellItems;
use winsafe::shell::IEnumShellItemsVT;
use winsafe::ComInterface;
use winsafe::IID;

/// A foreign enumerator over a fixed list of item addresses. It looks up
/// every call in its own table and records the entry it ran and the address
/// it was given.
struct ForeignEnum {
    table: IEnumShellItemsVT,
    items: Vec<usize>,
    at: usize,
    ran: Vec<(usize, usize)>,
}

impl ForeignEnum {
    fn new(items: Vec<usize>) -> ForeignEnum {
        ForeignEnum {
            table: IEnumShellItemsVT {
                IUnknownVT: IUnknownVtbl { QueryInterface: 0xa0, AddRef: 0xa1, Release: 0xa2 },
                Next: 0xa3,
                Skip: 0xa4,
                Reset: 0xa5,
                Clone: 0xa6,
            },
            items,
            at: 0,
            ran: Vec::new(),
        }
    }

    fn next(&mut self, this: ComPtr, slot: usize, celt: u32) -> (u32, ComPtr, u32) {
        let entry = self.table.entry(slot).unwrap();
        self.ran.push((entry, this.0));
        assert_eq!(entry, self.table.Next);
        assert_eq!(celt, 1);
        if self.at < self.items.len() {
            self.at += 1;
            (0, ComPtr(self.items[self.at - 1]), 1)
        } else {
            (1, ComPtr(0), 0)
        }
    }
}

#[test]
fn next_runs_the_entry_at_offset_three_with_the_stored_address() {
    let mut foreign = ForeignEnum::new(vec![0x500]);
    let items = IEnumShellItems::from(ComPtr(0x1000));

    let got = items.Next(|this, slot, celt| {
        assert_eq!(slot, 3);
        foreign.next(this, slot, celt)
    });
    let item = got.unwrap().unwrap().unwrap();
    assert_eq!(item.ptr(), ComPtr(0x500));
    assert_eq!(foreign.ran, vec![(0xa3, 0x1000)]);
}

#[test]
fn next_turns_the_no_item_status_into_an_empty_result() {
    let items = IEnumShellItems::from(ComPtr(0x1000));
    let got = items.Next(|_, _, _| (HRESULT::S_FALSE, ComPtr(0), 0));
    assert!(matches!(got, Some(Ok(None))));
}

#[test]
fn next_hands_back_any_other_status_as_the_error() {
    let items = IEnumShellItems::from(ComPtr(0x1000));
    for code in [2u32, 0x8000_4005, 0x8007_000e, u32::MAX] {
        let got = items.Next(|_, _, _| (code, ComPtr(0x77), 1));
        match got {
            Some(Err(err)) => assert_eq!(err, HRESULT(code)),
            _ => panic!("status {:#x} did not come back as an error", code),
        }
    }
}

#[test]
fn next_on_an_invalid_handle_makes_no_call() {
    let items = IEnumShellItems::from(ComPtr::null());
    let mut forwarded = false;
    let got = items.Next(|_, _, _| {
        forwarded = true;
        (0, ComPtr(1), 1)
    });
    assert!(got.is_none());
    assert!(!forwarded);
}

#[test]
fn reset_and_skip_go_to_their_entries() {
    let items = IEnumShellItems::from(ComPtr(0x1000));
    let mut seen: Vec<(ComPtr, usize, u32)> = Vec::new();

    assert_eq!(
        items.Reset(|this, slot| {
            seen.push((this, slot, 0));
            0
        }),
        Some(Ok(()))
    );
    assert_eq!(
        items.Skip(4, |this, slot, count| {
            seen.push((this, slot, count));
            0
        }),
        Some(Ok(true))
    );
    assert_eq!(seen, vec![(ComPtr(0x1000), 5, 0), (ComPtr(0x1000), 4, 4)]);
}

#[test]
fn skip_tells_the_sentinel_from_success_and_from_failure() {
    let items = IEnumShellItems::from(ComPtr(0x1000));
    assert_eq!(items.Skip(1, |_, _, _| 0), Some(Ok(true)));
    assert_eq!(items.Skip(1, |_, _, _| 1), Some(Ok(false)));
    assert_eq!(items.Skip(1, |_, _, _| 0x8000_4001), Some(Err(HRESULT(0x8000_4001))));
}

#[test]
fn reset_treats_the_sentinel_as_a_failure() {
    let items = IEnumShellItems::from(ComPtr(0x1000));
    assert_eq!(items.Reset(|_, _| 1), Some(Err(HRESULT(1))));
    assert_eq!(items.Reset(|_, _| 0x8000_ffff), Some(Err(HRESULT(0x8000_ffff))));
}

#[test]
fn reset_and_skip_on_an_invalid_handle_make_no_call() {
    let items = IEnumShellItems::from(ComPtr(0));
    let mut forwarded = false;
    assert_eq!(
        items.Reset(|_, _| {
            forwarded = true;
            0
        }),
        None
    );
    assert_eq!(
        items.Skip(1, |_, _, _| {
            forwarded = true;
            0
        }),
        None
    );
    assert!(!forwarded);
}

#[test]
fn the_cursor_yields_every_item_and_then_stops_asking() {
    let mut foreign = ForeignEnum::new(vec![0x500, 0x600, 0x700]);
    let items = IEnumShellItems::from(ComPtr(0x1000));
    let mut iter = items.iter();

    let mut got: Vec<usize> = Vec::new();
    while let Some(item) = iter.next(|this, slot, celt| foreign.next(this, slot, celt)) {
        got.push(item.unwrap().ptr().0);
    }
    assert_eq!(got, vec![0x500, 0x600, 0x700]);
    assert!(iter.is_done());
    // Three items and the answer that none is left.
    assert_eq!(foreign.ran.len(), 4);

    // Asked again, the cursor answers by itself.
    for _ in 0..3 {
        assert!(iter.next(|this, slot, celt| foreign.next(this, slot, celt)).is_none());
    }
    assert_eq!(foreign.ran.len(), 4);
}

#[test]
fn the_cursor_goes_on_after_an_error() {
    let mut iter = EnumShellItemsIter::new(ComPtr(0x1000));
    match iter.next(|_, _, _| (0x8000_4005, ComPtr(0), 0)) {
        Some(Err(err)) => assert_eq!(err, HRESULT(0x8000_4005)),
        _ => panic!("the error did not come out"),
    }
    assert!(!iter.is_done());
    match iter.next(|_, _, _| (0, ComPtr(0x42), 1)) {
        Some(Ok(item)) => assert_eq!(item.ptr(), ComPtr(0x42)),
        _ => panic!("the item did not come out"),
    }
    assert!(iter.next(|_, _, _| (1, ComPtr(0), 0)).is_none());
    assert!(iter.is_done());
}

#[test]
fn the_cursor_of_an_invalid_enumerator_is_empty() {
    let mut iter = EnumShellItemsIter::new(ComPtr::null());
    let mut forwarded = false;
    assert!(iter
        .next(|_, _, _| {
            forwarded = true;
            (0, ComPtr(1), 1)
        })
        .is_none());
    assert!(iter.is_done());
    assert!(!forwarded);
}

#[test]
fn the_enumerator_table_keeps_the_base_entries_in_front() {
    let foreign = ForeignEnum::new(Vec::new());
    for offset in 0..7 {
        assert_eq!(foreign.table.entry(offset), Some(0xa0 + offset));
    }
    assert_eq!(foreign.table.entry(7), None);
    assert_eq!(foreign.table.entry(IEnumShellItemsVT::NEXT), Some(foreign.table.Next));
    assert_eq!(foreign.table.entry(IEnumShellItemsVT::SKIP), Some(foreign.table.Skip));
    assert_eq!(foreign.table.entry(IEnumShellItemsVT::RESET), Some(foreign.table.Reset));
    assert_eq!(foreign.table.entry(IEnumShellItemsVT::CLONE), Some(foreign.table.Clone));
    for offset in 0..3 {
        assert_eq!(foreign.table.entry(offset), foreign.table.IUnknownVT.entry(offset));
    }
}

#[test]
fn interface_identifiers_are_written_in_order() {
    let iid = IID::new(0x70629033, 0xe363, 0x4a28, 0xa567, 0x0db78006e6d7);
    assert_eq!(iid.data1, 0x70629033);
    assert_eq!(iid.data2, 0xe363);
    assert_eq!(iid.data3, 0x4a28);
    assert_eq!(iid.data4, 0xa567_0db7_8006_e6d7);
    assert_eq!(IEnumShellItemsVT::Iid(), iid);

    let unknown = IUnknownVtbl::Iid();
    assert_eq!(unknown, IID { data1: 0, data2: 0, data3: 0, data4: 0xc000_0000_0000_0046 });
    assert!(unknown.same(&IUnknownVtbl::Iid()));
    assert!(!unknown.same(&iid));
    assert_eq!(
        winsafe::shell::ITaskbarList2Vtbl::Iid(),
        IID { data1: 0x602d4995, data2: 0xb13a, data3: 0x429b, data4: 0xa66e_1935_e44f_4317 }
    );
}
