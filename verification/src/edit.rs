//! The session-edition request and the edit workflow's core: locate or
//! create the requested window, then apply each requested mutation in turn.

use vstd::prelude::*;

use crate::errors::{err_is, ErrKind, Errcode};
use crate::layout::layout_result;
use crate::pane::PaneV;
use crate::session::{SessionV, TmuxSession};
use crate::window::{default_window_v, set_layout_ok, spec_layout_cmds, WindowV};

verus! {

/// A request to edit one window of a stored session: any subset of a
/// command-list replacement, a directory change, a pane-focus move, a
/// layout change, a rename, and a session-level focus change.
#[derive(Debug)]
pub struct TmuxpSessionEdition {
    pub name: String,
    pub window_ind: usize,
    pub layout: Option<String>,
    pub window_name: Option<String>,
    pub commandlist: Vec<String>,
    pub focus: Option<usize>,
    pub window_focused: bool,
    pub start_directory: Option<String>,
    pub dump: bool,
}

/// The pane collection after a positional command replacement.
pub open spec fn spec_cmds_replaced(pv: PaneV, cmds: Seq<Seq<char>>) -> PaneV {
    PaneV {
        focused_cmd: cmds[pv.focused_index as int],
        focused_flag: pv.focused_flag,
        focused_index: pv.focused_index,
        others: cmds.remove(pv.focused_index as int),
    }
}

/// The pane collection after the focus role moves to position `f` of the
/// linear command list.
pub open spec fn spec_focus_moved(pv: PaneV, f: nat) -> PaneV {
    if f == pv.focused_index {
        pv
    } else {
        PaneV {
            focused_cmd: pv.linear()[f as int],
            focused_flag: true,
            focused_index: pv.focused_index,
            others: pv.linear().remove(f as int),
        }
    }
}

/// The window after a layout change (meaningful when the change succeeds).
pub open spec fn spec_layout_applied(
    wv: WindowV,
    layout: Seq<char>,
    drops: Seq<usize>,
    adds: Seq<Seq<char>>,
) -> WindowV {
    match layout_result(layout) {
        Some(target) => {
            let cmds = spec_layout_cmds(wv.panes.linear(), target, drops, adds);
            WindowV {
                layout: Some(layout),
                panes: PaneV {
                    focused_cmd: cmds[wv.panes.focused_index as int],
                    focused_flag: wv.panes.focused_flag,
                    focused_index: wv.panes.focused_index,
                    others: cmds.remove(wv.panes.focused_index as int),
                },
                ..wv
            }
        },
        None => wv,
    }
}

/// Does the edit address a window the session does not have (so that a
/// default window is created instead)?
pub open spec fn edition_created(sv: SessionV, args: TmuxpSessionEdition) -> bool {
    args.window_ind >= sv.windows.len()
}

/// The session's windows after the get-or-create step.
pub open spec fn edition_windows0(sv: SessionV, args: TmuxpSessionEdition) -> Seq<WindowV> {
    if edition_created(sv, args) {
        sv.windows.push(WindowV { start_directory: sv.start_directory, ..default_window_v() })
    } else {
        sv.windows
    }
}

/// The position of the window the edit works on.
pub open spec fn edition_idx(sv: SessionV, args: TmuxpSessionEdition) -> int {
    if edition_created(sv, args) {
        sv.windows.len() as int
    } else {
        args.window_ind as int
    }
}

/// The edited window after the command-list replacement step.
pub open spec fn edition_w1(w0: WindowV, args: TmuxpSessionEdition) -> WindowV {
    if args.commandlist.len() > 0 {
        WindowV { panes: spec_cmds_replaced(w0.panes, args.commandlist.deep_view()), ..w0 }
    } else {
        w0
    }
}

/// ... after the directory-change step.
pub open spec fn edition_w2(w1: WindowV, args: TmuxpSessionEdition) -> WindowV {
    match args.start_directory {
        Some(p) => WindowV { start_directory: p@, ..w1 },
        None => w1,
    }
}

/// ... after the pane-focus step.
pub open spec fn edition_w3(w2: WindowV, args: TmuxpSessionEdition) -> WindowV {
    match args.focus {
        Some(f) => WindowV { panes: spec_focus_moved(w2.panes, f as nat), ..w2 },
        None => w2,
    }
}

/// ... after the layout step.
pub open spec fn edition_w4(
    w3: WindowV,
    args: TmuxpSessionEdition,
    drops: Seq<usize>,
    adds: Seq<Seq<char>>,
) -> WindowV {
    match args.layout {
        Some(l) => spec_layout_applied(w3, l@, drops, adds),
        None => w3,
    }
}

/// ... after the rename step.
pub open spec fn edition_w5(w4: WindowV, args: TmuxpSessionEdition) -> WindowV {
    match args.window_name {
        Some(nm) => WindowV { window_name: nm@, ..w4 },
        None => w4,
    }
}

/// The edited window, after every requested step.
pub open spec fn edition_window(
    sv: SessionV,
    args: TmuxpSessionEdition,
    drops: Seq<usize>,
    adds: Seq<Seq<char>>,
) -> WindowV {
    let w0 = edition_windows0(sv, args)[edition_idx(sv, args)];
    edition_w5(edition_w4(edition_w3(edition_w2(edition_w1(w0, args), args), args), args, drops, adds), args)
}

/// Every requested step succeeds: the replacement commands cover the
/// focused index, the focus move addresses a command, the layout change is
/// sound, and the session-level focus addresses an existing window.
pub open spec fn spec_edition_ok(
    sv: SessionV,
    args: TmuxpSessionEdition,
    drops: Seq<usize>,
    adds: Seq<Seq<char>>,
) -> bool {
    let w0 = edition_windows0(sv, args)[edition_idx(sv, args)];
    let w1 = edition_w1(w0, args);
    let w2 = edition_w2(w1, args);
    let w3 = edition_w3(w2, args);
    &&& (args.commandlist.len() > 0 ==> w0.panes.focused_index < args.commandlist.len())
    &&& (args.focus matches Some(f) ==> (f as nat == w2.panes.focused_index || (f as nat)
        < w2.panes.linear().len()))
    &&& (args.layout matches Some(l) ==> set_layout_ok(w3.panes, l@, drops, adds))
    &&& (args.window_focused ==> args.window_ind < edition_windows0(sv, args).len())
}

/// The session an edit produces when every step succeeds.
pub open spec fn spec_edition_result(
    sv: SessionV,
    args: TmuxpSessionEdition,
    drops: Seq<usize>,
    adds: Seq<Seq<char>>,
) -> SessionV {
    let ws = edition_windows0(sv, args).update(
        edition_idx(sv, args),
        edition_window(sv, args, drops, adds),
    );
    let ws2 = if args.window_focused {
        Seq::new(
            ws.len(),
            |j: int| WindowV { focus: j == args.window_ind, ..ws[j] },
        )
    } else {
        ws
    };
    SessionV { windows: ws2, ..sv }
}

impl TmuxpSessionEdition {
    /// Applies the edit to a loaded session: the requested window is taken,
    /// or a default window is created when the session has none at that
    /// index, and each requested mutation is applied in turn.  On failure
    /// the error of the failing step is reported; the in-memory session may
    /// then be partially edited and is discarded by callers, which persist
    /// the document only after the whole edit succeeds.
    pub fn apply_edition(
        &self,
        ses: &mut TmuxSession,
        drop_indices: &Vec<usize>,
        new_cmds: &Vec<String>,
    ) -> (r: Result<(), Errcode>)
        requires
            old(ses)@.wf(),
            old(ses).windows.len() < usize::MAX,
        ensures
            r is Ok <==> spec_edition_ok(old(ses)@, *self, drop_indices@, new_cmds.deep_view()),
            r is Ok ==> final(ses)@ == spec_edition_result(
                old(ses)@,
                *self,
                drop_indices@,
                new_cmds.deep_view(),
            ),
    {
        let ghost sv = old(ses)@;
        let ghost drops = drop_indices@;
        let ghost adds = new_cmds.deep_view();
        let ghost ws0 = edition_windows0(sv, *self);
        let ghost idx0 = edition_idx(sv, *self);
        let ghost w0 = ws0[idx0];
        let winlen = ses.windows.len();
        let w: &mut crate::window::TmuxWindow;
        if self.window_ind < winlen {
            w = match ses.get_window_ref(self.window_ind) {
                Ok(win) => win,
                Err(e) => {
                    return Err(e);
                },
            };
        } else {
            w = match ses.init_new_window() {
                Ok(win) => win,
                Err(e) => {
                    return Err(e);
                },
            };
        }
        proof {
            assert(w@ == w0);
            assert(w@.wf());
        }
        if self.commandlist.len() > 0 {
            if w.panes.focused_index >= self.commandlist.len() {
                return Err(
                    Errcode::IndexOutOfRange(w.panes.focused_index, self.commandlist.len()),
                );
            }
            w.panes.set_panes_cmds(&self.commandlist);
        }
        proof {
            assert(w@ == edition_w1(w0, *self));
            assert(w@.wf());
        }
        match &self.start_directory {
            Some(p) => {
                w.start_directory = p.clone();
            },
            None => {},
        }
        proof {
            assert(w@ == edition_w2(edition_w1(w0, *self), *self));
        }
        match &self.focus {
            Some(f) => {
                match w.panes.set_focus(*f) {
                    Ok(()) => {},
                    Err(e) => {
                        return Err(e);
                    },
                }
            },
            None => {},
        }
        let ghost w3 = edition_w3(edition_w2(edition_w1(w0, *self), *self), *self);
        proof {
            assert(w@ == w3);
            assert(w@.wf());
        }
        match &self.layout {
            Some(l) => {
                match w.set_layout(l, drop_indices, new_cmds) {
                    Ok(()) => {},
                    Err(e) => {
                        return Err(e);
                    },
                }
            },
            None => {},
        }
        proof {
            assert(w@ == edition_w4(w3, *self, drops, adds));
        }
        match &self.window_name {
            Some(nm) => {
                w.window_name = nm.clone();
            },
            None => {},
        }
        proof {
            assert(w@ == edition_window(sv, *self, drops, adds));
        }
        let ghost ws_mid = ws0.update(idx0, edition_window(sv, *self, drops, adds));
        if self.window_focused {
            proof {
                assert(ses@.windows =~= ws_mid);
            }
            match ses.set_window_focus(self.window_ind) {
                Ok(()) => {},
                Err(e) => {
                    return Err(e);
                },
            }
            proof {
                assert(ses@.windows =~= spec_edition_result(sv, *self, drops, adds).windows);
            }
        } else {
            proof {
                assert(ses@.windows =~= ws_mid);
            }
        }
        Ok(())
    }
}

} // verus!
