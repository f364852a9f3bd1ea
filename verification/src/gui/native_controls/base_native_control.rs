use vstd::prelude::*;

use crate::co;
use crate::decl::SysResult;
use crate::gui::base::Base;
use crate::handles::HWND;
use crate::structs::text_view;
use crate::structs::POINT;
use crate::structs::SIZE;

verus! {

/// What the system is asked for when the window of a control is made.
#[derive(Clone, Debug, PartialEq, Eq)]
pub struct CreateWindow {
    pub ex_styles: co::WS_EX,
    pub class_name: String,
    pub title: Option<String>,
    pub styles: co::WS,
    pub pos: POINT,
    pub sz: SIZE,
    pub parent: HWND,
    pub ctrl_id: u16,
}

/// A request to make a window, with its texts as sequences of characters.
pub struct CreateWindowView {
    pub ex_styles: co::WS_EX,
    pub class_name: Seq<char>,
    pub title: Option<Seq<char>>,
    pub styles: co::WS,
    pub pos: POINT,
    pub sz: SIZE,
    pub parent: HWND,
    pub ctrl_id: u16,
}

impl View for CreateWindow {
    type V = CreateWindowView;

    open spec fn view(&self) -> CreateWindowView {
        CreateWindowView {
            ex_styles: self.ex_styles,
            class_name: self.class_name@,
            title: text_view(self.title),
            styles: self.styles,
            pos: self.pos,
            sz: self.sz,
            parent: self.parent,
            ctrl_id: self.ctrl_id,
        }
    }
}

/// The characters of a text that may be absent.
pub open spec fn str_view(text: Option<&str>) -> Option<Seq<char>> {
    match text {
        Some(t) => Some(t@),
        None => None,
    }
}

/// What every native control holds: the handle of its window, which is null
/// until the control is created, and the identifier of the control.
#[derive(Debug)]
pub struct BaseNativeControl {
    hwnd: HWND,
    ctrl_id: u16,
}

impl View for BaseNativeControl {
    type V = (HWND, u16);

    /// The handle of the window, and the identifier of the control.
    closed spec fn view(&self) -> (HWND, u16) {
        (self.hwnd, self.ctrl_id)
    }
}

impl BaseNativeControl {
    /// A control with the identifier `ctrl_id` that is not created yet, for a
    /// parent that is not created yet either.
    pub fn new(parent: &Base, ctrl_id: u16) -> (base: BaseNativeControl)
        requires
            parent@.is_null(),
        ensures
            base@ == (HWND(0), ctrl_id),
    {
        BaseNativeControl { hwnd: HWND::null(), ctrl_id }
    }

    /// The handle of the window.
    pub fn hwnd(&self) -> (hwnd: &HWND)
        ensures
            *hwnd == self@.0,
    {
        &self.hwnd
    }

    /// The identifier of the control.
    pub fn ctrl_id(&self) -> (ctrl_id: u16)
        ensures
            ctrl_id == self@.1,
    {
        self.ctrl_id
    }

    /// The request that makes the window of this control in `parent`.
    pub open spec fn spec_create_window(
        &self,
        parent: HWND,
        class_name: Seq<char>,
        title: Option<Seq<char>>,
        pos: POINT,
        sz: SIZE,
        ex_styles: co::WS_EX,
        styles: co::WS,
    ) -> CreateWindowView {
        CreateWindowView {
            ex_styles,
            class_name,
            title,
            styles,
            pos,
            sz,
            parent,
            ctrl_id: self@.1,
        }
    }

    /// What has become of a control, and what is returned, after the system
    /// answered `made` to the request for its window: on success the control
    /// holds the new handle, on failure it is as it was and the failure comes
    /// back.
    pub open spec fn spec_made(
        before: (HWND, u16),
        made: SysResult<HWND>,
        after: (HWND, u16),
        res: SysResult<()>,
    ) -> bool {
        match made {
            Ok(hwnd) => after == (hwnd, before.1) && res == Ok::<(), co::ERROR>(()),
            Err(err) => after == before && res == Err::<(), co::ERROR>(err),
        }
    }

    /// Makes the window of the control in `parent`: hands `create` the request
    /// and, on success, keeps the handle it answers.
    pub fn create_window<W: FnOnce(CreateWindow) -> SysResult<HWND>>(
        &mut self,
        parent: &Base,
        class_name: &str,
        title: Option<&str>,
        pos: POINT,
        sz: SIZE,
        ex_styles: co::WS_EX,
        styles: co::WS,
        create: W,
    ) -> (res: SysResult<()>)
        requires
            forall|req: CreateWindow|
                req@ == old(self).spec_create_window(
                    parent@,
                    class_name@,
                    str_view(title),
                    pos,
                    sz,
                    ex_styles,
                    styles,
                ) ==> create.requires((req,)),
        ensures
            exists|req: CreateWindow, made: SysResult<HWND>|
                req@ == old(self).spec_create_window(
                    parent@,
                    class_name@,
                    str_view(title),
                    pos,
                    sz,
                    ex_styles,
                    styles,
                ) && create.ensures((req,), made) && Self::spec_made(
                    old(self)@,
                    made,
                    final(self)@,
                    res,
                ),
    {
        let req: CreateWindow = CreateWindow {
            ex_styles,
            class_name: class_name.to_owned(),
            title: match title {
                Some(t) => Some(t.to_owned()),
                None => None,
            },
            styles,
            pos,
            sz,
            parent: *parent.hwnd(),
            ctrl_id: self.ctrl_id,
        };
        assert(req@ == self.spec_create_window(
            parent@,
            class_name@,
            str_view(title),
            pos,
            sz,
            ex_styles,
            styles,
        ));
        match create(req) {
            Ok(hwnd) => {
                self.hwnd = hwnd;
                Ok(())
            },
            Err(err) => Err(err),
        }
    }

    /// Takes the window of the control from the dialog `parent`, which holds
    /// it already: asks `get_dlg_item` for the control with this identifier
    /// and, on success, keeps the handle it answers.
    pub fn create_dlg<G: FnOnce(HWND, u16) -> SysResult<HWND>>(
        &mut self,
        parent: &Base,
        get_dlg_item: G,
    ) -> (res: SysResult<()>)
        requires
            get_dlg_item.requires((parent@, old(self)@.1)),
        ensures
            exists|made: SysResult<HWND>|
                get_dlg_item.ensures((parent@, old(self)@.1), made) && Self::spec_made(
                    old(self)@,
                    made,
                    final(self)@,
                    res,
                ),
    {
        let made: SysResult<HWND> = get_dlg_item(*parent.hwnd(), self.ctrl_id);
        let res: SysResult<()> = match made {
            Ok(hwnd) => {
                self.hwnd = hwnd;
                Ok(())
            },
            Err(err) => Err(err),
        };
        assert(get_dlg_item.ensures((parent@, old(self)@.1), made) && Self::spec_made(
            old(self)@,
            made,
            self@,
            res,
        ));
        res
    }
}

} // verus!
