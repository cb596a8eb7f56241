//! The window model: a named tiling arrangement of panes with an optional
//! layout string, a focus flag and per-window options, together with the
//! colon-delimited descriptor grammar that bootstraps windows from text.

use vstd::prelude::*;
use vstd::pervasive::VecAdditionalExecFns;
use vstd::string::*;

use crate::errors::{err_is, ErrKind, Errcode};
use crate::layout::{get_npane_from_layout, layout_result};
use crate::pane::{is_pane_json, spec_load_json_panes, FocusedPane, PaneSerializer, PaneV};
use crate::serialisation::JsonValue;
use crate::textparse::{digits_val, first_idx, lemma_first_idx, parse_usize, usize_parse_ok,
    find_char};

verus! {

/// A window: name, optional layout string, session-level focus flag, start
/// directory, the pane commands, and the automatic-rename option.
#[derive(Debug)]
pub struct TmuxWindow {
    pub window_name: String,
    pub layout: Option<String>,
    pub focus: bool,
    pub start_directory: String,
    pub panes: PaneSerializer,
    pub automatic_rename: bool,
}

/// The mathematical content of a window.
pub ghost struct WindowV {
    pub window_name: Seq<char>,
    pub layout: Option<Seq<char>>,
    pub focus: bool,
    pub start_directory: Seq<char>,
    pub panes: PaneV,
    pub automatic_rename: bool,
}

impl WindowV {
    /// A well-formed window holds a well-formed pane collection.
    pub open spec fn wf(self) -> bool {
        self.panes.wf()
    }
}

impl DeepView for TmuxWindow {
    type V = WindowV;

    open spec fn deep_view(&self) -> WindowV {
        self.view()
    }
}

impl View for TmuxWindow {
    type V = WindowV;

    open spec fn view(&self) -> WindowV {
        WindowV {
            window_name: self.window_name@,
            layout: self.layout.deep_view(),
            focus: self.focus,
            start_directory: self.start_directory@,
            panes: self.panes@,
            automatic_rename: self.automatic_rename,
        }
    }
}

/// The hard-coded default window: one pane running a fresh shell.
pub open spec fn default_window_v() -> WindowV {
    WindowV {
        window_name: "default"@,
        layout: None,
        focus: false,
        start_directory: "/tmp/"@,
        panes: PaneV {
            focused_cmd: "clear && bash"@,
            focused_flag: true,
            focused_index: 0,
            others: Seq::empty(),
        },
        automatic_rename: false,
    }
}

impl TmuxWindow {
    /// Builds the default window: a single pane running `clear && bash`.
    pub fn default() -> (r: TmuxWindow)
        ensures
            r@ == default_window_v(),
            r@.wf(),
    {
        let r = TmuxWindow {
            window_name: String::from_str("default"),
            layout: None,
            focus: false,
            start_directory: String::from_str("/tmp/"),
            panes: PaneSerializer::create(
                FocusedPane::from_cmd(String::from_str("clear && bash")),
                0,
                Vec::new(),
            ),
            automatic_rename: false,
        };
        proof {
            assert(r.panes.others.deep_view() =~= Seq::<Seq<char>>::empty());
        }
        r
    }
}

/// Drops one leading field separator, as each field read of the descriptor
/// grammar does.
pub open spec fn strip_lead(s: Seq<char>) -> Seq<char> {
    if s.len() >= 1 && s[0] == ':' {
        s.drop_first()
    } else {
        s
    }
}

/// The fields of a descriptor: the text split at every separator.
pub open spec fn split_colon(s: Seq<char>) -> Seq<Seq<char>>
    decreases s.len(),
{
    let j = first_idx(s, ':');
    if 0 <= j < s.len() {
        seq![s.subrange(0, j)] + split_colon(s.subrange(j + 1, s.len() as int))
    } else {
        seq![s]
    }
}

/// What remains after one field is read: either nothing, or the input from
/// the separator that ended the field.
pub open spec fn until_sep_rest(s: Seq<char>) -> Seq<char> {
    let t = strip_lead(s);
    let j = first_idx(t, ':');
    if 0 <= j < t.len() {
        t.subrange(j, t.len() as int)
    } else {
        Seq::empty()
    }
}

/// The field that one read of the descriptor grammar consumes.
pub open spec fn until_sep_field(s: Seq<char>) -> Seq<char> {
    let t = strip_lead(s);
    let j = first_idx(t, ':');
    if 0 <= j < t.len() {
        t.subrange(0, j)
    } else {
        t
    }
}

/// Reads one field of a descriptor: strips one leading separator, then
/// consumes text up to (but not including) the next separator.
fn until_sep<'a>(s: &'a str) -> (r: (&'a str, &'a str))
    requires
        s@.len() >= 1,
    ensures
        r.0@ == until_sep_rest(s@),
        r.1@ == until_sep_field(s@),
        r.0@.len() < s@.len(),
{
    let slen = s.unicode_len();
    let inp = if s.get_char(0) == ':' {
        let t = s.substring_char(1, slen);
        proof {
            assert(t@ =~= strip_lead(s@));
        }
        t
    } else {
        s
    };
    let ilen = inp.unicode_len();
    let j = find_char(inp, ':');
    proof {
        lemma_first_idx(inp@, ':');
    }
    if j >= ilen {
        let empty = inp.substring_char(ilen, ilen);
        proof {
            assert(empty@ =~= Seq::<char>::empty());
        }
        (empty, inp)
    } else {
        (inp.substring_char(j, ilen), inp.substring_char(0, j))
    }
}

/// Splits a whole descriptor into its fields.
fn split_descr(s: &str) -> (r: Vec<String>)
    requires
        s@.len() >= 1,
    ensures
        r.deep_view() == split_colon(strip_lead(s@)),
{
    let mut acc: Vec<String> = Vec::new();
    let mut input: &str = s;
    while input.unicode_len() > 0
        invariant
            input@.len() > 0 ==> acc.deep_view() + split_colon(strip_lead(input@)) =~= split_colon(
                strip_lead(s@),
            ),
            input@.len() == 0 ==> acc.deep_view() =~= split_colon(strip_lead(s@)),
        decreases input@.len(),
    {
        let (rest, field) = until_sep(input);
        let ghost prev = acc.deep_view();
        let ghost t = strip_lead(input@);
        acc.push(field.to_owned());
        proof {
            lemma_first_idx(t, ':');
            assert(acc.deep_view() =~= prev.push(field@));
            if rest@.len() > 0 {
                assert(t.subrange(first_idx(t, ':'), t.len() as int).drop_first() =~= t.subrange(
                    first_idx(t, ':') + 1,
                    t.len() as int,
                ));
                assert(acc.deep_view() + split_colon(strip_lead(rest@)) =~= prev + split_colon(t));
            } else {
                assert(acc.deep_view() =~= prev + split_colon(t));
            }
        }
        input = rest;
    }
    proof {
        assert(acc.deep_view() =~= split_colon(strip_lead(s@)));
    }
    acc
}

/// The fields of a descriptor string.
pub open spec fn descr_fields(s: Seq<char>) -> Seq<Seq<char>> {
    split_colon(strip_lead(s))
}

/// The descriptor's header is sound: the text is non-empty, the name, start
/// directory, rename flag and focus index fields are all present, and the
/// focus index field is a number that fits the machine.
pub open spec fn descr_header_ok(s: Seq<char>) -> bool {
    &&& s.len() >= 1
    &&& descr_fields(s).len() >= 4
    &&& usize_parse_ok(descr_fields(s)[3])
}

/// The focused-pane index a descriptor requests.
pub open spec fn descr_focused(s: Seq<char>) -> nat {
    digits_val(descr_fields(s)[3])
}

/// The command fields of a descriptor, before the layout rule is applied.
pub open spec fn descr_raw_cmds(s: Seq<char>) -> Seq<Seq<char>> {
    descr_fields(s).subrange(4, descr_fields(s).len() as int)
}

/// The pane commands of a descriptor: if the last command field carries a
/// layout tag, only the text after the first tag is the final command.
pub open spec fn descr_cmds(s: Seq<char>) -> Seq<Seq<char>> {
    let raw = descr_raw_cmds(s);
    if raw.len() == 0 {
        raw
    } else {
        let lastf = raw.last();
        let h = first_idx(lastf, '#');
        if 0 <= h < lastf.len() {
            raw.update(raw.len() - 1, lastf.subrange(h + 1, lastf.len() as int))
        } else {
            raw
        }
    }
}

/// The layout a descriptor requests: the text before the first tag of the
/// last command field, when that tag is present.
pub open spec fn descr_layout(s: Seq<char>) -> Option<Seq<char>> {
    let raw = descr_raw_cmds(s);
    if raw.len() == 0 {
        None
    } else {
        let lastf = raw.last();
        let h = first_idx(lastf, '#');
        if 0 <= h < lastf.len() {
            Some(lastf.subrange(0, h))
        } else {
            None
        }
    }
}

/// A descriptor parses completely: its header is sound and the requested
/// focus index addresses one of its commands.
pub open spec fn descr_ok(s: Seq<char>) -> bool {
    descr_header_ok(s) && descr_focused(s) < descr_cmds(s).len()
}

/// The window a sound descriptor describes.  The focus flag is left unset:
/// the session decides which of its windows is focused.
pub open spec fn descr_window_v(s: Seq<char>) -> WindowV {
    WindowV {
        window_name: descr_fields(s)[0],
        layout: descr_layout(s),
        focus: false,
        start_directory: descr_fields(s)[1],
        panes: PaneV {
            focused_cmd: descr_cmds(s)[descr_focused(s) as int],
            focused_flag: true,
            focused_index: descr_focused(s),
            others: descr_cmds(s).remove(descr_focused(s) as int),
        },
        automatic_rename: descr_fields(s)[2] == "on"@,
    }
}

impl TmuxWindow {
    /// Parses a window descriptor
    /// `NAME:STARTDIR:AUTORENAME:FOCUSED_INDEX:CMD0:...:CMDn` (the last
    /// command may carry `LAYOUT#CMD`).  A missing or non-numeric header
    /// field is a `ParsingError`; a focus index with no matching command is
    /// an `IndexOutOfRange`.
    pub fn from_descr(descr: &str) -> (r: Result<TmuxWindow, Errcode>)
        ensures
            match r {
                Ok(w) => descr_ok(descr@) && w@ == descr_window_v(descr@) && w@.wf(),
                Err(e) => !descr_ok(descr@) && (if descr_header_ok(descr@) {
                    err_is(
                        e,
                        ErrKind::IndexOutOfRange(descr_focused(descr@), descr_cmds(descr@).len()),
                    )
                } else {
                    err_is(e, ErrKind::Parsing)
                }),
            },
    {
        let ghost s = descr@;
        if descr.unicode_len() == 0 {
            return Err(Errcode::ParsingError(String::from_str("empty window descriptor")));
        }
        let fields = split_descr(descr);
        if fields.len() < 4 {
            return Err(
                Errcode::ParsingError(String::from_str("window descriptor header incomplete")),
            );
        }
        let fi = match parse_usize(fields[3].as_str()) {
            Ok(v) => v,
            Err(e) => {
                return Err(e);
            },
        };
        let mut cmds: Vec<String> = Vec::new();
        let mut k: usize = 4;
        while k < fields.len()
            invariant
                4 <= k <= fields.len(),
                cmds.deep_view() =~= fields.deep_view().subrange(4, k as int),
            decreases fields.len() - k,
        {
            let ghost prev = cmds.deep_view();
            cmds.push(fields[k].clone());
            proof {
                assert(cmds.deep_view() =~= prev.push(fields.deep_view()[k as int]));
            }
            k = k + 1;
        }
        proof {
            assert(cmds.deep_view() =~= descr_raw_cmds(s));
        }
        if cmds.len() == 0 {
            return Err(Errcode::IndexOutOfRange(fi, 0));
        }
        let lastidx = cmds.len() - 1;
        let llen = cmds[lastidx].as_str().unicode_len();
        let h = find_char(cmds[lastidx].as_str(), '#');
        proof {
            lemma_first_idx(cmds[lastidx as int]@, '#');
        }
        let mut layout: Option<String> = None;
        if h < llen {
            let lay = cmds[lastidx].as_str().substring_char(0, h).to_owned();
            let newlast = cmds[lastidx].as_str().substring_char(h + 1, llen).to_owned();
            layout = Some(lay);
            let ghost prev = cmds.deep_view();
            cmds.set(lastidx, newlast);
            proof {
                assert(cmds.deep_view() =~= prev.update(lastidx as int, newlast@));
            }
        }
        proof {
            assert(cmds.deep_view() =~= descr_cmds(s));
            assert(layout.deep_view() == descr_layout(s));
        }
        if fi >= cmds.len() {
            return Err(Errcode::IndexOutOfRange(fi, cmds.len()));
        }
        let focused_cmd = cmds[fi].clone();
        let mut others: Vec<String> = Vec::new();
        let mut n: usize = 0;
        while n < cmds.len()
            invariant
                fi < cmds.len(),
                n <= cmds.len(),
                n <= fi ==> others.deep_view() =~= cmds.deep_view().subrange(0, n as int),
                n > fi ==> others.deep_view() =~= cmds.deep_view().subrange(0, n as int).remove(
                    fi as int,
                ),
            decreases cmds.len() - n,
        {
            let ghost prev = others.deep_view();
            if n != fi {
                others.push(cmds[n].clone());
                proof {
                    assert(others.deep_view() =~= prev.push(cmds.deep_view()[n as int]));
                }
            }
            n = n + 1;
        }
        proof {
            assert(cmds.deep_view().subrange(0, cmds.len() as int) =~= cmds.deep_view());
            assert(others.deep_view() =~= descr_cmds(s).remove(fi as int));
        }
        let panes = PaneSerializer::create(FocusedPane::from_cmd(focused_cmd), fi, others);
        let on = String::from_str("on");
        let w = TmuxWindow {
            window_name: fields[0].clone(),
            layout,
            focus: false,
            start_directory: fields[1].clone(),
            panes,
            automatic_rename: fields[2] == on,
        };
        proof {
            assert(w@ == descr_window_v(s));
        }
        Ok(w)
    }
}

/// The linear command list after the first `k` requested drops, each drop
/// removing the command at the requested position of the then-current list.
pub open spec fn spec_dropped(lin: Seq<Seq<char>>, drops: Seq<usize>, k: int) -> Seq<Seq<char>>
    decreases k,
{
    if k <= 0 {
        lin
    } else {
        spec_dropped(lin, drops, k - 1).remove(drops[k - 1] as int)
    }
}

/// The first `k` requested drops are available and each addresses a slot of
/// the then-current list.
pub open spec fn drops_ok(lin: Seq<Seq<char>>, drops: Seq<usize>, k: int) -> bool
    decreases k,
{
    k <= 0 || {
        &&& k <= drops.len()
        &&& drops_ok(lin, drops, k - 1)
        &&& (drops[k - 1] as int) < spec_dropped(lin, drops, k - 1).len()
    }
}

/// Sound longer drop sequences are sound at every earlier step.
proof fn lemma_drops_ok_mono(lin: Seq<Seq<char>>, drops: Seq<usize>, j: int, k: int)
    requires
        0 <= j <= k,
        drops_ok(lin, drops, k),
    ensures
        drops_ok(lin, drops, j),
    decreases k,
{
    if j < k {
        lemma_drops_ok_mono(lin, drops, j, k - 1);
    }
}

/// The command list a layout change produces: commands are dropped one at a
/// time while the list is too long, or new commands are appended while it is
/// too short.
pub open spec fn spec_layout_cmds(
    lin: Seq<Seq<char>>,
    target: nat,
    drops: Seq<usize>,
    adds: Seq<Seq<char>>,
) -> Seq<Seq<char>> {
    if target < lin.len() {
        spec_dropped(lin, drops, lin.len() - target)
    } else {
        lin + adds.take(target - lin.len())
    }
}

/// A layout change succeeds exactly when the layout parses, the drop or add
/// policy supplies what the resize needs, and the focused index still
/// addresses a slot of the resulting list.
pub open spec fn set_layout_ok(
    pv: PaneV,
    layout: Seq<char>,
    drops: Seq<usize>,
    adds: Seq<Seq<char>>,
) -> bool {
    &&& layout_result(layout) is Some
    &&& (layout_result(layout) matches Some(target) ==> ({
        let lin = pv.linear();
        &&& (target < lin.len() ==> drops_ok(lin, drops, lin.len() - target))
        &&& (target > lin.len() ==> adds.len() >= target - lin.len())
        &&& pv.focused_index < spec_layout_cmds(lin, target, drops, adds).len()
    }))
}

impl TmuxWindow {
    /// Applies a new layout: computes the pane count the layout implies,
    /// drops commands at the requested positions (or appends the supplied
    /// new commands) until the count matches, rebuilds the pane list
    /// positionally, and records the layout.  Either the whole change
    /// succeeds, or the window is left untouched.
    pub fn set_layout(
        &mut self,
        new_layout: &String,
        drop_indices: &Vec<usize>,
        new_cmds: &Vec<String>,
    ) -> (r: Result<(), Errcode>)
        requires
            old(self)@.wf(),
        ensures
            r is Ok <==> set_layout_ok(
                old(self)@.panes,
                new_layout@,
                drop_indices@,
                new_cmds.deep_view(),
            ),
            r is Ok ==> (layout_result(new_layout@) matches Some(target) && ({
                let cmds = spec_layout_cmds(
                    old(self)@.panes.linear(),
                    target,
                    drop_indices@,
                    new_cmds.deep_view(),
                );
                &&& final(self)@.layout == Some(new_layout@)
                &&& final(self)@.window_name == old(self)@.window_name
                &&& final(self)@.focus == old(self)@.focus
                &&& final(self)@.start_directory == old(self)@.start_directory
                &&& final(self)@.automatic_rename == old(self)@.automatic_rename
                &&& final(self)@.panes.focused_index == old(self)@.panes.focused_index
                &&& final(self)@.panes.focused_flag == old(self)@.panes.focused_flag
                &&& final(self)@.panes.focused_cmd == cmds[old(
                    self,
                )@.panes.focused_index as int]
                &&& final(self)@.panes.others == cmds.remove(
                    old(self)@.panes.focused_index as int,
                )
                &&& 1 + final(self)@.panes.others.len() == target
                &&& final(self)@.wf()
            })),
            r matches Err(e) ==> *final(self) == *old(self) && (err_is(e, ErrKind::Parsing)
                <==> layout_result(new_layout@) is None),
    {
        let ghost lin = old(self)@.panes.linear();
        let target = match get_npane_from_layout(new_layout.as_str()) {
            Ok(t) => t,
            Err(e) => {
                return Err(e);
            },
        };
        let n = self.panes.nb_panes();
        let mut cmds = match self.panes.get_panes_cmds() {
            Ok(c) => c,
            Err(e) => {
                return Err(e);
            },
        };
        if target < n {
            let drops_needed = n - target;
            let mut k: usize = 0;
            while k < drops_needed
                invariant
                    k <= drops_needed,
                    drops_needed == n - target,
                    target < n,
                    n == lin.len(),
                    lin == old(self)@.panes.linear(),
                    layout_result(new_layout@) == Some(target as nat),
                    cmds.len() == n - k,
                    cmds.deep_view() == spec_dropped(lin, drop_indices@, k as int),
                    drops_ok(lin, drop_indices@, k as int),
                    *self == *old(self),
                decreases drops_needed - k,
            {
                if k >= drop_indices.len() {
                    proof {
                        assert(!drops_ok(lin, drop_indices@, drops_needed as int));
                    }
                    return Err(
                        Errcode::ArgValidationError("missing drop selections for layout change"),
                    );
                }
                let idx = drop_indices[k];
                if idx >= cmds.len() {
                    proof {
                        if drops_ok(lin, drop_indices@, drops_needed as int) {
                            lemma_drops_ok_mono(lin, drop_indices@, k + 1, drops_needed as int);
                        }
                    }
                    return Err(Errcode::IndexOutOfRange(idx, cmds.len()));
                }
                let ghost prev = cmds.deep_view();
                cmds.remove(idx);
                proof {
                    assert(cmds.deep_view() =~= prev.remove(idx as int));
                }
                k = k + 1;
            }
        } else if target > n {
            let adds_needed = target - n;
            if new_cmds.len() < adds_needed {
                return Err(
                    Errcode::ArgValidationError("missing new commands for layout change"),
                );
            }
            let mut k: usize = 0;
            while k < adds_needed
                invariant
                    k <= adds_needed,
                    adds_needed == target - n,
                    target > n,
                    n == lin.len(),
                    lin == old(self)@.panes.linear(),
                    layout_result(new_layout@) == Some(target as nat),
                    adds_needed <= new_cmds.len(),
                    cmds.deep_view() =~= lin + new_cmds.deep_view().take(k as int),
                    *self == *old(self),
                decreases adds_needed - k,
            {
                let ghost prev = cmds.deep_view();
                cmds.push(new_cmds[k].clone());
                proof {
                    assert(cmds.deep_view() =~= prev.push(new_cmds.deep_view()[k as int]));
                }
                k = k + 1;
            }
        } else {
            proof {
                assert(cmds.deep_view() =~= lin + new_cmds.deep_view().take(0));
            }
        }
        proof {
            assert(cmds.deep_view() =~= spec_layout_cmds(
                lin,
                target as nat,
                drop_indices@,
                new_cmds.deep_view(),
            ));
        }
        let fi = self.panes.focused_index;
        if fi >= cmds.len() {
            return Err(Errcode::IndexOutOfRange(fi, cmds.len()));
        }
        self.panes.set_panes_cmds(&cmds);
        self.layout = Some(new_layout.clone());
        Ok(())
    }
}

/// The encoded form of a window's options: an object holding only
/// `automatic-rename`, as the string `"on"` or `"off"`.
pub open spec fn is_options_json(ar: bool, v: JsonValue) -> bool {
    match v {
        JsonValue::Object(entries) => {
            &&& entries@.len() == 1
            &&& entries@[0].0@ == "automatic-rename"@
            &&& entries@[0].1 matches JsonValue::Str(s) && s@ == (if ar {
                "on"@
            } else {
                "off"@
            })
        },
        _ => false,
    }
}

/// One pass over a stored options object: only `automatic-rename` is known;
/// an unrecognized option key is a hard error, unlike window-level keys.
pub open spec fn spec_options_scan(entries: Seq<(String, JsonValue)>, ar: bool) -> Result<
    bool,
    ErrKind,
>
    decreases entries.len(),
{
    if entries.len() == 0 {
        Ok(ar)
    } else if entries[0].0@ == "automatic-rename"@ {
        match entries[0].1 {
            JsonValue::Str(s) => spec_options_scan(entries.drop_first(), s@ == "on"@),
            _ => Err(ErrKind::Json),
        }
    } else {
        Err(ErrKind::OptionNotFound)
    }
}

/// What decoding a stored options value yields.
pub open spec fn spec_load_json_options(v: JsonValue, ar0: bool) -> Result<bool, ErrKind> {
    match v {
        JsonValue::Object(entries) => spec_options_scan(entries@, ar0),
        _ => Err(ErrKind::Json),
    }
}

/// What loading one stored window entry does to the window under
/// construction.  Recognized string fields must be string primitives;
/// unrecognized keys are tolerated and skipped.
pub open spec fn spec_load_entry(w: WindowV, key: Seq<char>, v: JsonValue) -> Result<
    WindowV,
    ErrKind,
> {
    if key == "options"@ {
        match spec_load_json_options(v, w.automatic_rename) {
            Ok(ar) => Ok(WindowV { automatic_rename: ar, ..w }),
            Err(k) => Err(k),
        }
    } else if key == "window_name"@ {
        match v {
            JsonValue::Str(s) => Ok(WindowV { window_name: s@, ..w }),
            _ => Err(ErrKind::Json),
        }
    } else if key == "layout"@ {
        match v {
            JsonValue::Str(s) => Ok(WindowV { layout: Some(s@), ..w }),
            _ => Err(ErrKind::Json),
        }
    } else if key == "panes"@ {
        match spec_load_json_panes(v) {
            Ok(pv) => Ok(WindowV { panes: pv, ..w }),
            Err(k) => Err(k),
        }
    } else if key == "focus"@ {
        match v {
            JsonValue::Bool(b) => Ok(WindowV { focus: b, ..w }),
            _ => Ok(WindowV { focus: false, ..w }),
        }
    } else if key == "start_directory"@ {
        match v {
            JsonValue::Str(s) => Ok(WindowV { start_directory: s@, ..w }),
            _ => Err(ErrKind::Json),
        }
    } else {
        Ok(w)
    }
}

/// Folds `spec_load_entry` over the entries of a stored window object.
pub open spec fn spec_window_scan(entries: Seq<(String, JsonValue)>, w: WindowV) -> Result<
    WindowV,
    ErrKind,
>
    decreases entries.len(),
{
    if entries.len() == 0 {
        Ok(w)
    } else {
        match spec_load_entry(w, entries[0].0@, entries[0].1) {
            Ok(w2) => spec_window_scan(entries.drop_first(), w2),
            Err(k) => Err(k),
        }
    }
}

/// What decoding a stored window yields: the entries folded over the
/// default window.
pub open spec fn spec_window_from_json(v: JsonValue) -> Result<WindowV, ErrKind> {
    match v {
        JsonValue::Object(entries) => spec_window_scan(entries@, default_window_v()),
        _ => Err(ErrKind::Json),
    }
}

/// The encoded form of a window: its fields in order, `layout` only when
/// present, `focus` only when true.
pub open spec fn is_window_json(wv: WindowV, v: JsonValue) -> bool {
    match v {
        JsonValue::Object(entries) => {
            let es = entries@;
            let nl: int = if wv.layout is Some {
                1
            } else {
                0
            };
            let nf: int = if wv.focus {
                1
            } else {
                0
            };
            &&& es.len() == 4 + nl + nf
            &&& es[0].0@ == "window_name"@
            &&& es[0].1 matches JsonValue::Str(s) && s@ == wv.window_name
            &&& (wv.layout matches Some(l) ==> es[1].0@ == "layout"@ && (es[1].1 matches
                JsonValue::Str(t) && t@ == l))
            &&& es[1 + nl].0@ == "start_directory"@
            &&& es[1 + nl].1 matches JsonValue::Str(d) && d@ == wv.start_directory
            &&& (wv.focus ==> es[2 + nl].0@ == "focus"@ && es[2 + nl].1 == JsonValue::Bool(true))
            &&& es[2 + nl + nf].0@ == "panes"@
            &&& is_pane_json(wv.panes, es[2 + nl + nf].1)
            &&& es[3 + nl + nf].0@ == "options"@
            &&& is_options_json(wv.automatic_rename, es[3 + nl + nf].1)
        },
        _ => false,
    }
}

impl TmuxWindow {
    /// Encodes the window in the external tool's stored form.
    pub fn to_json(&self) -> (r: JsonValue)
        requires
            self@.wf(),
        ensures
            is_window_json(self@, r),
    {
        let mut entries: Vec<(String, JsonValue)> = Vec::new();
        entries.push((String::from_str("window_name"), JsonValue::Str(self.window_name.clone())));
        match &self.layout {
            Some(l) => {
                entries.push((String::from_str("layout"), JsonValue::Str(l.clone())));
            },
            None => {},
        }
        entries.push(
            (String::from_str("start_directory"), JsonValue::Str(self.start_directory.clone())),
        );
        if self.focus {
            entries.push((String::from_str("focus"), JsonValue::Bool(true)));
        }
        entries.push((String::from_str("panes"), self.panes.to_json()));
        let mut opts: Vec<(String, JsonValue)> = Vec::new();
        let ar = if self.automatic_rename {
            String::from_str("on")
        } else {
            String::from_str("off")
        };
        opts.push((String::from_str("automatic-rename"), JsonValue::Str(ar)));
        entries.push((String::from_str("options"), JsonValue::Object(opts)));
        JsonValue::Object(entries)
    }

    /// Loads the stored options object into the window; an unrecognized
    /// option key fails with `OptionNotFound`.
    fn load_json_options(&mut self, value: &JsonValue) -> (r: Result<(), Errcode>)
        ensures
            match r {
                Ok(()) => spec_load_json_options(*value, old(self).automatic_rename) matches Ok(ar)
                    && final(self)@ == (WindowV { automatic_rename: ar, ..old(self)@ }),
                Err(e) => spec_load_json_options(*value, old(self).automatic_rename) matches Err(k)
                    && err_is(e, k) && *final(self) == *old(self),
            },
    {
        match value {
            JsonValue::Object(opt) => {
                let rename_key = String::from_str("automatic-rename");
                let on_str = String::from_str("on");
                let mut ar: bool = self.automatic_rename;
                proof {
                    assert(opt@.skip(0) =~= opt@);
                }
                let mut i: usize = 0;
                while i < opt.len()
                    invariant
                        i <= opt.len(),
                        rename_key@ == "automatic-rename"@,
                        on_str@ == "on"@,
                        spec_options_scan(opt@.skip(i as int), ar) == spec_load_json_options(
                            *value,
                            old(self).automatic_rename,
                        ),
                        *self == *old(self),
                    decreases opt.len() - i,
                {
                    let ghost rem = opt@.skip(i as int);
                    proof {
                        assert(rem.drop_first() =~= opt@.skip(i + 1));
                        assert(rem[0] == opt@[i as int]);
                    }
                    if opt[i].0 == rename_key {
                        match &opt[i].1 {
                            JsonValue::Str(s) => {
                                ar = *s == on_str;
                            },
                            _ => {
                                return Err(
                                    Errcode::JsonError(String::from_str("Json loading options")),
                                );
                            },
                        }
                    } else {
                        return Err(
                            Errcode::OptionNotFound(
                                String::from_str("unrecognized window option"),
                            ),
                        );
                    }
                    i = i + 1;
                }
                proof {
                    assert(opt@.skip(opt@.len() as int) =~= Seq::<(String, JsonValue)>::empty());
                }
                self.automatic_rename = ar;
                Ok(())
            },
            _ => Err(Errcode::JsonError(String::from_str("Json loading options"))),
        }
    }

    /// Loads the stored panes array into the window: bare strings are the
    /// other commands, the single object is the focused pane.
    fn load_json_panes(&mut self, value: &JsonValue) -> (r: Result<(), Errcode>)
        ensures
            match r {
                Ok(()) => spec_load_json_panes(*value) matches Ok(pv) && final(self)@ == (WindowV {
                    panes: pv,
                    ..old(self)@
                }),
                Err(e) => spec_load_json_panes(*value) matches Err(k) && err_is(e, k)
                    && *final(self) == *old(self),
            },
    {
        match value {
            JsonValue::Array(panes) => {
                let mut panes_cmd: Vec<String> = Vec::new();
                let mut foc: Option<FocusedPane> = None;
                let mut nfoc: usize = 0;
                proof {
                    assert(panes_cmd.deep_view() =~= Seq::<Seq<char>>::empty());
                }
                let mut i: usize = 0;
                while i < panes.len()
                    invariant
                        i <= panes.len(),
                        foc is Some ==> nfoc < i,
                        spec_panes_scan_state(panes@, i as int, panes_cmd.deep_view(), foc, nfoc)
                            == spec_load_json_panes(*value),
                        *self == *old(self),
                    decreases panes.len() - i,
                {
                    match &panes[i] {
                        JsonValue::Str(cmd) => {
                            let ghost prev = panes_cmd.deep_view();
                            panes_cmd.push(cmd.clone());
                            proof {
                                assert(panes_cmd.deep_view() =~= prev.push(cmd@));
                            }
                        },
                        JsonValue::Object(val) => {
                            if foc.is_some() {
                                return Err(
                                    Errcode::JsonError(
                                        String::from_str("Json loading panes inner values"),
                                    ),
                                );
                            }
                            nfoc = i;
                            match FocusedPane::from_json(val) {
                                Ok(f) => {
                                    foc = Some(f);
                                },
                                Err(e) => {
                                    return Err(e);
                                },
                            }
                        },
                        _ => {
                            return Err(
                                Errcode::JsonError(
                                    String::from_str("Json loading panes inner values"),
                                ),
                            );
                        },
                    }
                    i = i + 1;
                }
                match foc {
                    Some(f) => {
                        self.panes = PaneSerializer::create(f, nfoc, panes_cmd);
                        Ok(())
                    },
                    None => Err(
                        Errcode::JsonError(
                            String::from_str("Missing data for pane loading from Json"),
                        ),
                    ),
                }
            },
            _ => Err(Errcode::JsonError(String::from_str("Json loading panes"))),
        }
    }

    /// Loads one stored window entry; unrecognized keys are skipped.
    pub fn load_entry(&mut self, key: &String, value: &JsonValue) -> (r: Result<(), Errcode>)
        ensures
            match r {
                Ok(()) => spec_load_entry(old(self)@, key@, *value) matches Ok(wv) && final(self)@
                    == wv,
                Err(e) => spec_load_entry(old(self)@, key@, *value) matches Err(k) && err_is(e, k)
                    && *final(self) == *old(self),
            },
    {
        if *key == String::from_str("options") {
            self.load_json_options(value)
        } else if *key == String::from_str("window_name") {
            match value {
                JsonValue::Str(s) => {
                    self.window_name = s.clone();
                    Ok(())
                },
                _ => Err(Errcode::JsonError(String::from_str("Window name"))),
            }
        } else if *key == String::from_str("layout") {
            match value {
                JsonValue::Str(s) => {
                    self.layout = Some(s.clone());
                    Ok(())
                },
                _ => Err(Errcode::JsonError(String::from_str("Window layout"))),
            }
        } else if *key == String::from_str("panes") {
            self.load_json_panes(value)
        } else if *key == String::from_str("focus") {
            match value {
                JsonValue::Bool(b) => {
                    self.focus = *b;
                },
                _ => {
                    self.focus = false;
                },
            }
            Ok(())
        } else if *key == String::from_str("start_directory") {
            match value {
                JsonValue::Str(s) => {
                    self.start_directory = s.clone();
                    Ok(())
                },
                _ => Err(Errcode::JsonError(String::from_str("Window start directory"))),
            }
        } else {
            Ok(())
        }
    }
}

/// The state-carrying form of the panes-array scan, phrased over the
/// executable accumulator values, for use as a loop invariant.
pub open spec fn spec_panes_scan_state(
    elems: Seq<JsonValue>,
    i: int,
    cmds: Seq<Seq<char>>,
    foc: Option<FocusedPane>,
    nfoc: usize,
) -> Result<PaneV, ErrKind> {
    crate::pane::spec_panes_scan(
        elems,
        i,
        cmds,
        match foc {
            Some(f) => Some((nfoc as nat, f.shell_command@, f.focus)),
            None => None,
        },
    )
}

/// Walks the entries of a stored window object, loading each in turn; the
/// name records the decode discipline: a tolerant top-level visit.
pub struct TmuxWindowVisitor {
    pub window: TmuxWindow,
}

impl TmuxWindowVisitor {
    /// Starts a visit from the default window.
    pub fn new() -> (r: TmuxWindowVisitor)
        ensures
            r.window@ == default_window_v(),
    {
        TmuxWindowVisitor { window: TmuxWindow::default() }
    }

    /// Feeds every stored entry to the window under construction.
    pub fn visit_map(&mut self, entries: &Vec<(String, JsonValue)>) -> (r: Result<(), Errcode>)
        ensures
            match r {
                Ok(()) => spec_window_scan(entries@, old(self).window@) matches Ok(wv)
                    && final(self).window@ == wv,
                Err(e) => spec_window_scan(entries@, old(self).window@) matches Err(k)
                    && err_is(e, k),
            },
    {
        proof {
            assert(entries@.skip(0) =~= entries@);
        }
        let mut i: usize = 0;
        while i < entries.len()
            invariant
                i <= entries.len(),
                spec_window_scan(entries@.skip(i as int), self.window@) == spec_window_scan(
                    entries@,
                    old(self).window@,
                ),
            decreases entries.len() - i,
        {
            let ghost rem = entries@.skip(i as int);
            proof {
                assert(rem.drop_first() =~= entries@.skip(i + 1));
                assert(rem[0] == entries@[i as int]);
            }
            match self.window.load_entry(&entries[i].0, &entries[i].1) {
                Ok(()) => {},
                Err(e) => {
                    return Err(e);
                },
            }
            i = i + 1;
        }
        proof {
            assert(entries@.skip(entries@.len() as int) =~= Seq::<(String, JsonValue)>::empty());
        }
        Ok(())
    }
}

impl TmuxWindow {
    /// Decodes a stored window value.
    pub fn from_json(v: &JsonValue) -> (r: Result<TmuxWindow, Errcode>)
        ensures
            match r {
                Ok(w) => spec_window_from_json(*v) matches Ok(wv) && w@ == wv,
                Err(e) => spec_window_from_json(*v) matches Err(k) && err_is(e, k),
            },
    {
        match v {
            JsonValue::Object(entries) => {
                let mut visitor = TmuxWindowVisitor::new();
                match visitor.visit_map(entries) {
                    Ok(()) => Ok(visitor.window),
                    Err(e) => Err(e),
                }
            },
            _ => Err(Errcode::JsonError(String::from_str("Window from Json"))),
        }
    }
}

} // verus!
