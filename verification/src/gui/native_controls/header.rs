use vstd::prelude::*;

use crate::co;
use crate::decl::SysResult;
use crate::gui::base::Base;
use crate::gui::events::header_events::HeaderEvents;
use crate::gui::layout_arranger::Horz;
use crate::gui::layout_arranger::Vert;
use crate::gui::native_controls::base_native_control::BaseNativeControl;
use crate::gui::native_controls::base_native_control::CreateWindow;
use crate::gui::native_controls::base_native_control::CreateWindowView;
use crate::gui::native_controls::header_items::HeaderItems;
use crate::gui::privs::OptsResz;
use crate::handles::HWND;
use crate::structs::POINT;
use crate::structs::SIZE;

verus! {

/// The options with which a header control is made as a new window.
#[derive(Clone, Copy, Debug, PartialEq, Eq)]
pub struct HeaderOpts {
    /// Left and top of the control within the client area of its parent, in
    /// the units of the parent. By default `(0, 0)`.
    pub position: (i32, i32),
    /// Width and height of the control, in the units of the parent. By
    /// default `(0, 0)`.
    pub size: (u32, u32),
    /// Header styles. By default buttons, laid out from left to right.
    pub header_style: co::HDS,
    /// Window styles. By default a child window with a border.
    pub window_style: co::WS,
    /// Extended window styles. By default none.
    pub window_ex_style: co::WS_EX,
    /// The identifier of the control. By default zero, which stands for an
    /// identifier that is chosen when the control object is made.
    pub ctrl_id: u16,
    /// What happens to the control when its parent is resized. By default
    /// nothing.
    pub resize_behavior: (Horz, Vert),
}

impl HeaderOpts {
    /// The default options.
    pub open spec fn spec_default() -> HeaderOpts {
        HeaderOpts {
            position: (0, 0),
            size: (0, 0),
            header_style: co::HDS(co::HDS::BUTTONS | co::HDS::HORZ),
            window_style: co::WS(co::WS::CHILD | co::WS::BORDER),
            window_ex_style: co::WS_EX(co::WS_EX::NoValue),
            ctrl_id: 0,
            resize_behavior: (Horz::Nothing, Vert::Nothing),
        }
    }

    /// The options with their identifier settled: these options if they name
    /// an identifier, and otherwise these options with the identifier `auto`.
    pub open spec fn spec_define_ctrl_id(self, auto: u16) -> HeaderOpts {
        if self.ctrl_id == 0 {
            HeaderOpts { ctrl_id: auto, ..self }
        } else {
            self
        }
    }

    /// Settles the identifier: options that name none get the one that
    /// `auto_ctrl_id` hands out. Where the options name one, `auto_ctrl_id` is
    /// not called.
    pub fn define_ctrl_id<A: FnOnce() -> u16>(self, auto_ctrl_id: A) -> (opts: HeaderOpts)
        requires
            self.ctrl_id == 0 ==> auto_ctrl_id.requires(()),
        ensures
            self.ctrl_id != 0 ==> opts == self,
            self.ctrl_id == 0 ==> exists|auto: u16|
                auto_ctrl_id.ensures((), auto) && opts == self.spec_define_ctrl_id(auto),
    {
        if self.ctrl_id == 0 {
            let auto: u16 = auto_ctrl_id();
            let opts: HeaderOpts = HeaderOpts { ctrl_id: auto, ..self };
            assert(auto_ctrl_id.ensures((), auto) && opts == self.spec_define_ctrl_id(auto));
            opts
        } else {
            self
        }
    }
}

/// The styles of the default options, as numbers.
pub proof fn lemma_default_styles()
    ensures
        HeaderOpts::spec_default().header_style == co::HDS(0x0002),
        HeaderOpts::spec_default().window_style == co::WS(0x4080_0000),
        HeaderOpts::spec_default().window_ex_style == co::WS_EX(0),
{
    assert(co::HDS::BUTTONS | co::HDS::HORZ == 0x0002) by (bit_vector);
    assert(co::WS::CHILD | co::WS::BORDER == 0x4080_0000) by (bit_vector);
}

impl Default for HeaderOpts {
    fn default() -> (opts: HeaderOpts)
        ensures
            opts == HeaderOpts::spec_default(),
    {
        HeaderOpts {
            position: (0, 0),
            size: (0, 0),
            header_style: co::HDS(co::HDS::BUTTONS | co::HDS::HORZ),
            window_style: co::WS(co::WS::CHILD | co::WS::BORDER),
            window_ex_style: co::WS_EX(co::WS_EX::NoValue),
            ctrl_id: 0,
            resize_behavior: (Horz::Nothing, Vert::Nothing),
        }
    }
}

/// What a header control is, seen from outside.
pub struct HeaderView {
    /// The handle of its window: null until the control is created.
    pub hwnd: HWND,
    /// Its identifier.
    pub ctrl_id: u16,
    /// How it comes to be.
    pub opts_resz: OptsResz<HeaderOpts>,
}

/// A header control.
///
/// The object is made before its parent window exists, and holds how the
/// control is to come to be. When the parent window is created,
/// [`Header::create`] makes the control.
#[derive(Debug)]
pub struct Header {
    base: BaseNativeControl,
    events: HeaderEvents,
    opts_resz: OptsResz<HeaderOpts>,
}

impl View for Header {
    type V = HeaderView;

    closed spec fn view(&self) -> HeaderView {
        HeaderView { hwnd: self.base@.0, ctrl_id: self.base@.1, opts_resz: self.opts_resz }
    }
}

/// The window class of a header control.
pub open spec fn spec_class_name() -> Seq<char> {
    "SysHeader32"@
}

impl Header {
    /// Whether the parts of the control agree on its identifier.
    pub closed spec fn wf(&self) -> bool {
        self.events@ == self.base@.1
    }

    /// The handle of the window of the control.
    pub fn hwnd(&self) -> (hwnd: &HWND)
        ensures
            *hwnd == self@.hwnd,
    {
        self.base.hwnd()
    }

    /// The identifier of the control.
    pub fn ctrl_id(&self) -> (ctrl_id: u16)
        ensures
            ctrl_id == self@.ctrl_id,
    {
        self.base.ctrl_id()
    }

    /// The notifications of the control, to which handlers are added. This
    /// is for a control that is not created yet, in a parent that is not
    /// created yet.
    pub fn on(&self, parent: &Base) -> (events: &HeaderEvents)
        requires
            self.wf(),
            self@.hwnd.is_null(),
            parent@.is_null(),
        ensures
            events@ == self@.ctrl_id,
    {
        &self.events
    }

    /// A header control that will be made as a new window in `parent`, with
    /// the options `opts`; options that name no identifier get the one that
    /// `auto_ctrl_id` hands out. The parent is not created yet.
    pub fn new<A: FnOnce() -> u16>(
        parent: &Base,
        opts: HeaderOpts,
        auto_ctrl_id: A,
    ) -> (header: Header)
        requires
            parent@.is_null(),
            opts.ctrl_id == 0 ==> auto_ctrl_id.requires(()),
        ensures
            header.wf(),
            header@.hwnd.is_null(),
            header@.opts_resz is Wnd,
            header@.opts_resz->Wnd_0.ctrl_id == header@.ctrl_id,
            opts.ctrl_id != 0 ==> header@.opts_resz->Wnd_0 == opts,
            opts.ctrl_id == 0 ==> exists|auto: u16|
                auto_ctrl_id.ensures((), auto) && header@.opts_resz->Wnd_0
                    == opts.spec_define_ctrl_id(auto),
    {
        let opts: HeaderOpts = HeaderOpts::define_ctrl_id(opts, auto_ctrl_id);
        let ctrl_id: u16 = opts.ctrl_id;
        Header {
            base: BaseNativeControl::new(parent, ctrl_id),
            events: HeaderEvents::new(ctrl_id),
            opts_resz: OptsResz::Wnd(opts),
        }
    }

    /// A header control that a dialog resource holds under the identifier
    /// `ctrl_id`, and that will be taken from the dialog `parent`. The parent
    /// is not created yet.
    pub fn new_dlg(parent: &Base, ctrl_id: u16, resize_behavior: (Horz, Vert)) -> (header: Header)
        requires
            parent@.is_null(),
        ensures
            header.wf(),
            header@.hwnd.is_null(),
            header@.ctrl_id == ctrl_id,
            header@.opts_resz == OptsResz::<HeaderOpts>::Dlg(resize_behavior),
    {
        Header {
            base: BaseNativeControl::new(parent, ctrl_id),
            events: HeaderEvents::new(ctrl_id),
            opts_resz: OptsResz::Dlg(resize_behavior),
        }
    }

    /// What happens to the control when its parent is resized.
    pub open spec fn spec_resize_behavior(opts_resz: OptsResz<HeaderOpts>) -> (Horz, Vert) {
        match opts_resz {
            OptsResz::Wnd(opts) => opts.resize_behavior,
            OptsResz::Dlg(resize_behavior) => resize_behavior,
        }
    }

    /// The place and the size that the options ask for, before they are
    /// adjusted to the units of the screen.
    pub open spec fn spec_placement(opts: HeaderOpts) -> (POINT, SIZE) {
        (
            POINT { x: opts.position.0, y: opts.position.1 },
            SIZE { cx: opts.size.0 as i32, cy: opts.size.1 as i32 },
        )
    }

    /// The request that makes the window of the control in the parent
    /// `parent`, at the adjusted place `pos` and with the adjusted size `sz`.
    pub open spec fn spec_request(
        &self,
        parent: HWND,
        opts: HeaderOpts,
        pos: POINT,
        sz: SIZE,
    ) -> CreateWindowView {
        CreateWindowView {
            ex_styles: opts.window_ex_style,
            class_name: spec_class_name(),
            title: None,
            styles: co::WS(opts.window_style.0 | opts.header_style.0),
            pos,
            sz,
            parent,
            ctrl_id: self@.ctrl_id,
        }
    }

    /// Whether `after` and `res` are what becomes of this control, and what
    /// is returned, once its window is there or could not be had: `made` is
    /// the answer to the request for the window. On success the control holds
    /// the new handle and is handed to the layout of its parent, whose answer
    /// is the result. On failure the control is as it was and the failure is
    /// the result.
    pub open spec fn spec_arranged<L: FnOnce(HWND, HWND, (Horz, Vert)) -> SysResult<()>>(
        &self,
        parent: HWND,
        made: SysResult<HWND>,
        add_to_layout_arranger: L,
        after: HeaderView,
        res: SysResult<()>,
    ) -> bool {
        match made {
            Ok(hwnd) => after == (HeaderView { hwnd, ..self@ }) && add_to_layout_arranger.ensures(
                (parent, hwnd, Self::spec_resize_behavior(self@.opts_resz)),
                res,
            ),
            Err(err) => after == self@ && res == Err::<(), co::ERROR>(err),
        }
    }

    /// Whether `after` and `res` are what becomes of this control, and what
    /// is returned, when it is made as a new window with the options `opts`.
    /// The place and size of the options are adjusted first; a failure there
    /// is the result, and nothing else happens. Then the window is asked for.
    pub open spec fn spec_created_wnd<
        D: FnOnce(HWND, POINT, SIZE) -> SysResult<(POINT, SIZE)>,
        W: FnOnce(CreateWindow) -> SysResult<HWND>,
        L: FnOnce(HWND, HWND, (Horz, Vert)) -> SysResult<()>,
    >(
        &self,
        parent: HWND,
        opts: HeaderOpts,
        multiply_dpi_or_dtu: D,
        create_window: W,
        add_to_layout_arranger: L,
        after: HeaderView,
        res: SysResult<()>,
    ) -> bool {
        exists|adjusted: SysResult<(POINT, SIZE)>|
            #![trigger multiply_dpi_or_dtu.ensures(
                (parent, Self::spec_placement(opts).0, Self::spec_placement(opts).1),
                adjusted,
            )]
            multiply_dpi_or_dtu.ensures(
                (parent, Self::spec_placement(opts).0, Self::spec_placement(opts).1),
                adjusted,
            ) && match adjusted {
                Ok((pos, sz)) => exists|req: CreateWindow, made: SysResult<HWND>|
                    #![trigger create_window.ensures((req,), made)]
                    req@ == self.spec_request(parent, opts, pos, sz) && create_window.ensures(
                        (req,),
                        made,
                    ) && self.spec_arranged(parent, made, add_to_layout_arranger, after, res),
                Err(err) => after == self@ && res == Err::<(), co::ERROR>(err),
            }
    }

    /// Whether `after` and `res` are what becomes of this control, and what
    /// is returned, when it is taken from a dialog.
    pub open spec fn spec_created_dlg<
        G: FnOnce(HWND, u16) -> SysResult<HWND>,
        L: FnOnce(HWND, HWND, (Horz, Vert)) -> SysResult<()>,
    >(
        &self,
        parent: HWND,
        get_dlg_item: G,
        add_to_layout_arranger: L,
        after: HeaderView,
        res: SysResult<()>,
    ) -> bool {
        exists|made: SysResult<HWND>|
            #![trigger get_dlg_item.ensures((parent, self@.ctrl_id), made)]
            get_dlg_item.ensures((parent, self@.ctrl_id), made) && self.spec_arranged(
                parent,
                made,
                add_to_layout_arranger,
                after,
                res,
            )
    }

    /// Makes the control, now that its parent window `parent` is there.
    ///
    /// A control with options has their place and size adjusted to the units
    /// of the screen by `multiply_dpi_or_dtu`, and then asks `create_window`
    /// for a window of the header class, with the window styles and header
    /// styles of the options together. A control of a dialog asks
    /// `get_dlg_item` for its window. Either way the control keeps the handle
    /// and is handed to `add_to_layout_arranger` with its behaviour on
    /// resizing. The first failure ends the work and is the result.
    pub fn create<
        D: FnOnce(HWND, POINT, SIZE) -> SysResult<(POINT, SIZE)>,
        W: FnOnce(CreateWindow) -> SysResult<HWND>,
        G: FnOnce(HWND, u16) -> SysResult<HWND>,
        L: FnOnce(HWND, HWND, (Horz, Vert)) -> SysResult<()>,
    >(
        &mut self,
        parent: &Base,
        multiply_dpi_or_dtu: D,
        create_window: W,
        get_dlg_item: G,
        add_to_layout_arranger: L,
    ) -> (res: SysResult<()>)
        requires
            old(self).wf(),
            old(self)@.opts_resz matches OptsResz::Wnd(opts) ==> multiply_dpi_or_dtu.requires(
                (parent@, Self::spec_placement(opts).0, Self::spec_placement(opts).1),
            ),
            old(self)@.opts_resz is Wnd ==> forall|req: CreateWindow|
                create_window.requires((req,)),
            old(self)@.opts_resz is Dlg ==> get_dlg_item.requires((parent@, old(self)@.ctrl_id)),
            forall|hwnd: HWND|
                add_to_layout_arranger.requires(
                    (parent@, hwnd, Self::spec_resize_behavior(old(self)@.opts_resz)),
                ),
        ensures
            final(self).wf(),
            old(self)@.opts_resz matches OptsResz::Wnd(opts) ==> old(self).spec_created_wnd(
                parent@,
                opts,
                multiply_dpi_or_dtu,
                create_window,
                add_to_layout_arranger,
                final(self)@,
                res,
            ),
            old(self)@.opts_resz is Dlg ==> old(self).spec_created_dlg(
                parent@,
                get_dlg_item,
                add_to_layout_arranger,
                final(self)@,
                res,
            ),
    {
        let hparent: HWND = *parent.hwnd();
        let resize_behavior: (Horz, Vert) = match &self.opts_resz {
            OptsResz::Wnd(opts) => opts.resize_behavior,
            OptsResz::Dlg(resize_behavior) => *resize_behavior,
        };

        let made: SysResult<()> = match &self.opts_resz {
            OptsResz::Wnd(opts) => {
                let pos: POINT = POINT::new(opts.position.0, opts.position.1);
                let sz: SIZE = SIZE::new(
                    #[verifier::truncate] (opts.size.0 as i32),
                    #[verifier::truncate] (opts.size.1 as i32),
                );
                match multiply_dpi_or_dtu(hparent, pos, sz) {
                    Ok((pos, sz)) => {
                        let styles: co::WS = co::WS(opts.window_style.0 | opts.header_style.0);
                        proof {
                            reveal_strlit("SysHeader32");
                        }
                        self.base.create_window(
                            parent,
                            "SysHeader32",
                            None,
                            pos,
                            sz,
                            opts.window_ex_style,
                            styles,
                            create_window,
                        )
                    },
                    Err(err) => {
                        return Err(err);
                    },
                }
            },
            OptsResz::Dlg(_) => self.base.create_dlg(parent, get_dlg_item),
        };
        match made {
            Ok(()) => {
                let hwnd: HWND = *self.base.hwnd();
                assert(add_to_layout_arranger.requires(
                    (parent@, hwnd, Self::spec_resize_behavior(old(self)@.opts_resz)),
                ));
                add_to_layout_arranger(hparent, hwnd, resize_behavior)
            },
            Err(err) => Err(err),
        }
    }

    /// The items of the control.
    pub fn items(&self) -> (items: HeaderItems<'_>)
        ensures
            items.spec_owner() == self,
    {
        HeaderItems::new(self)
    }
}

} // verus!
