//! The session model: an ordered collection of windows with a name and a
//! start directory, the single-focused-window rule, and the session-level
//! encode and decode of the stored document.

use vstd::prelude::*;
use vstd::string::*;

use crate::create::TmuxpSessionCreation;
use crate::errors::{err_is, ErrKind, Errcode};
use crate::serialisation::JsonValue;
use crate::window::{default_window_v, descr_cmds, descr_focused, descr_header_ok, descr_ok,
    descr_window_v, is_window_json, spec_window_from_json, TmuxWindow, WindowV};

verus! {

/// A session: the top-level document.
#[derive(Debug)]
pub struct TmuxSession {
    pub session_name: String,
    pub start_directory: String,
    pub windows: Vec<TmuxWindow>,
}

/// The mathematical content of a session.
pub ghost struct SessionV {
    pub session_name: Seq<char>,
    pub start_directory: Seq<char>,
    pub windows: Seq<WindowV>,
}

impl SessionV {
    /// Every window of a well-formed session is well-formed.
    pub open spec fn wf(self) -> bool {
        forall|i: int| 0 <= i < self.windows.len() ==> (#[trigger] self.windows[i]).wf()
    }
}

impl View for TmuxSession {
    type V = SessionV;

    open spec fn view(&self) -> SessionV {
        SessionV {
            session_name: self.session_name@,
            start_directory: self.start_directory@,
            windows: self.windows.deep_view(),
        }
    }
}

/// Returns a mutable reference into a vector slot.
fn vec_index_mut<T>(vec: &mut Vec<T>, i: usize) -> (element: &mut T)
    requires
        i < old(vec).len(),
    ensures
        *element == old(vec)@[i as int],
        final(vec)@ == old(vec)@.update(i as int, *final(element)),
{
    &mut vec[i]
}

/// The session name with every space replaced by an underscore.
pub open spec fn spec_underscored(s: Seq<char>) -> Seq<char> {
    Seq::new(
        s.len(),
        |i: int|
            if s[i] == ' ' {
                '_'
            } else {
                s[i]
            },
    )
}

/// Relies on `String::push`: appends exactly the given character.
#[verifier::external_body]
fn push_char(s: &mut String, c: char)
    ensures
        final(s)@ == old(s)@.push(c),
{
    s.push(c);
}

impl TmuxSession {
    /// The file name a session is stored under: the name with spaces
    /// replaced by underscores, with the document extension.
    pub fn session_file_name(name: &String) -> (r: String)
        ensures
            r@ == spec_underscored(name@) + ".json"@,
    {
        let mut out = String::new();
        let n = name.as_str().unicode_len();
        let mut i: usize = 0;
        while i < n
            invariant
                n == name@.len(),
                i <= n,
                out@ =~= spec_underscored(name@).take(i as int),
            decreases n - i,
        {
            let c = name.as_str().get_char(i);
            if c == ' ' {
                push_char(&mut out, '_');
            } else {
                push_char(&mut out, c);
            }
            i = i + 1;
        }
        proof {
            assert(out@ =~= spec_underscored(name@));
        }
        out.append(".json");
        out
    }

    /// Is every window of the session well-formed?  Callers outside the
    /// verified core use this to test the precondition of the mutating
    /// operations.
    pub fn is_wf(&self) -> (r: bool)
        ensures
            r == self@.wf(),
    {
        let mut i: usize = 0;
        while i < self.windows.len()
            invariant
                i <= self.windows.len(),
                forall|j: int| 0 <= j < i ==> (#[trigger] self@.windows[j]).wf(),
            decreases self.windows.len() - i,
        {
            let w = &self.windows[i];
            if !(w.panes.focused_index <= w.panes.others.len() && w.panes.others.len()
                < usize::MAX) {
                proof {
                    assert(!self@.windows[i as int].wf());
                }
                return false;
            }
            i = i + 1;
        }
        true
    }

    /// Hands out the window at `window_index`, or reports `WindowNotFound`
    /// with the index and the window count; callers use that failure as the
    /// signal to create a window instead.
    pub fn get_window_ref(&mut self, window_index: usize) -> (r: Result<&mut TmuxWindow, Errcode>)
        ensures
            match r {
                Ok(w) => {
                    &&& window_index < old(self).windows.len()
                    &&& *w == old(self).windows@[window_index as int]
                    &&& final(self).session_name == old(self).session_name
                    &&& final(self).start_directory == old(self).start_directory
                    &&& final(self).windows@ == old(self).windows@.update(
                        window_index as int,
                        *final(w),
                    )
                },
                Err(e) => {
                    &&& window_index >= old(self).windows.len()
                    &&& err_is(
                        e,
                        ErrKind::WindowNotFound(
                            window_index as nat,
                            old(self).windows.len() as nat,
                        ),
                    )
                    &&& *final(self) == *old(self)
                },
            },
    {
        let winlen = self.windows.len();
        if window_index < winlen {
            Ok(vec_index_mut(&mut self.windows, window_index))
        } else {
            Err(Errcode::WindowNotFound(window_index, winlen))
        }
    }

    /// Appends a fresh default window, anchored at the session's start
    /// directory, and hands it out.
    pub fn init_new_window(&mut self) -> (r: Result<&mut TmuxWindow, Errcode>)
        requires
            old(self).windows.len() < usize::MAX,
        ensures
            r matches Ok(w) && ({
                &&& (*w)@ == (WindowV {
                    start_directory: old(self).start_directory@,
                    ..crate::window::default_window_v()
                })
                &&& final(self).session_name == old(self).session_name
                &&& final(self).start_directory == old(self).start_directory
                &&& final(self).windows@ == old(self).windows@.push(*final(w))
            }),
    {
        let mut w = TmuxWindow::default();
        w.start_directory = self.start_directory.clone();
        self.windows.push(w);
        let n = self.windows.len();
        Ok(vec_index_mut(&mut self.windows, n - 1))
    }

    /// Focuses window `index` and unfocuses every other window, so that
    /// exactly one window is focused afterwards.
    pub fn set_window_focus(&mut self, index: usize) -> (r: Result<(), Errcode>)
        ensures
            match r {
                Ok(()) => {
                    &&& index < old(self).windows.len()
                    &&& final(self)@.windows.len() == old(self)@.windows.len()
                    &&& forall|j: int|
                        0 <= j < old(self)@.windows.len() ==> final(self)@.windows[j] == (WindowV {
                            focus: j == index,
                            ..old(self)@.windows[j]
                        })
                    &&& final(self).session_name == old(self).session_name
                    &&& final(self).start_directory == old(self).start_directory
                },
                Err(e) => {
                    &&& index >= old(self).windows.len()
                    &&& err_is(
                        e,
                        ErrKind::IndexOutOfRange(index as nat, old(self).windows.len() as nat),
                    )
                    &&& *final(self) == *old(self)
                },
            },
    {
        let winlen = self.windows.len();
        if index >= winlen {
            return Err(Errcode::IndexOutOfRange(index, winlen));
        }
        let mut n: usize = 0;
        while n < winlen
            invariant
                winlen == self.windows.len(),
                n <= winlen,
                self.windows@.len() == old(self).windows@.len(),
                forall|j: int|
                    0 <= j < n ==> self@.windows[j] == (WindowV {
                        focus: j == index,
                        ..old(self)@.windows[j]
                    }),
                forall|j: int| n <= j < winlen ==> self.windows@[j] == old(self).windows@[j],
                self.session_name == old(self).session_name,
                self.start_directory == old(self).start_directory,
            decreases winlen - n,
        {
            let ghost pre = self.windows@;
            let ghost pred = self@.windows;
            proof {
                assert forall|j: int| 0 <= j < pre.len() implies pred[j] == pre[j]@ by {}
            }
            let w = vec_index_mut(&mut self.windows, n);
            w.focus = n == index;
            proof {
                assert(self.windows@.len() == pre.len());
                assert(self.windows@ =~= pre.update(n as int, self.windows@[n as int]));
                assert(self.windows@[n as int].focus == (n == index));
                assert(self.windows@[n as int].window_name == pre[n as int].window_name);
                assert(pre[n as int] == old(self).windows@[n as int]);
                assert(self.windows@[n as int]@ == (WindowV {
                    focus: n == index,
                    ..old(self)@.windows[n as int]
                }));
                assert forall|j: int| 0 <= j < n + 1 implies self@.windows[j] == (WindowV {
                    focus: j == index,
                    ..old(self)@.windows[j]
                }) by {
                    assert(self@.windows[j] == self.windows@[j]@);
                    assert(old(self)@.windows[j] == old(self).windows@[j]@);
                    if j < n {
                        assert(self.windows@[j] == pre[j]);
                        assert(pred[j] == (WindowV { focus: j == index, ..old(self)@.windows[j] }));
                        assert(pre[j]@ == pred[j]);
                    }
                }
            }
            n = n + 1;
        }
        Ok(())
    }
}

/// The window one creation descriptor yields: an empty descriptor stands
/// for a default window anchored at the session's start directory.
pub open spec fn spec_creation_window(d: Seq<char>, dir: Seq<char>) -> Result<WindowV, ErrKind> {
    if d.len() == 0 {
        Ok(WindowV { start_directory: dir, ..default_window_v() })
    } else if descr_ok(d) {
        Ok(descr_window_v(d))
    } else if descr_header_ok(d) {
        Err(ErrKind::IndexOutOfRange(descr_focused(d), descr_cmds(d).len()))
    } else {
        Err(ErrKind::Parsing)
    }
}

/// The windows the first `i` creation descriptors yield, in order.
pub open spec fn spec_creation_windows(descrs: Seq<Seq<char>>, dir: Seq<char>, i: int) -> Result<
    Seq<WindowV>,
    ErrKind,
>
    decreases i,
{
    if i <= 0 {
        Ok(Seq::<WindowV>::empty())
    } else {
        match spec_creation_windows(descrs, dir, i - 1) {
            Ok(ws) => match spec_creation_window(descrs[i - 1], dir) {
                Ok(w) => Ok(ws.push(w)),
                Err(k) => Err(k),
            },
            Err(k) => Err(k),
        }
    }
}

/// A creation-window decode that has failed on a prefix stays failed.
proof fn lemma_creation_windows_err(descrs: Seq<Seq<char>>, dir: Seq<char>, i: int, j: int)
    requires
        0 <= i <= j,
        spec_creation_windows(descrs, dir, i) is Err,
    ensures
        spec_creation_windows(descrs, dir, j) == spec_creation_windows(descrs, dir, i),
    decreases j,
{
    if i < j {
        lemma_creation_windows_err(descrs, dir, i, j - 1);
    }
}

/// The session a creation request describes: one default window when the
/// request demands it, else one window per descriptor, with the window at
/// the requested focus index focused and every other window unfocused.
pub open spec fn spec_session_from_creation(c: TmuxpSessionCreation) -> Result<SessionV, ErrKind> {
    let ws0 = if c.default {
        Ok(seq![WindowV { start_directory: c.start_directory@, ..default_window_v() }])
    } else {
        spec_creation_windows(
            c.windows_description.deep_view(),
            c.start_directory@,
            c.windows_description.len() as int,
        )
    };
    match ws0 {
        Ok(ws) => Ok(
            SessionV {
                session_name: c.session_name@,
                start_directory: c.start_directory@,
                windows: Seq::new(
                    ws.len(),
                    |i: int| WindowV { focus: i == c.focus, ..ws[i] },
                ),
            },
        ),
        Err(k) => Err(k),
    }
}

impl TmuxSession {
    /// Builds a session from a creation request: parses each descriptor (an
    /// empty one stands for a default window), or produces one default
    /// window when the request demands it, and focuses the window at the
    /// requested index.
    pub fn try_from_creation(c: &TmuxpSessionCreation) -> (r: Result<TmuxSession, Errcode>)
        ensures
            match r {
                Ok(ses) => spec_session_from_creation(*c) matches Ok(sv) && ses@ == sv
                    && ses@.wf(),
                Err(e) => spec_session_from_creation(*c) matches Err(k) && err_is(e, k),
            },
    {
        let mut windows: Vec<TmuxWindow> = Vec::new();
        if c.default {
            let mut w = TmuxWindow::default();
            w.start_directory = c.start_directory.clone();
            w.focus = 0 == c.focus;
            windows.push(w);
            proof {
                let ws = seq![
                    WindowV { start_directory: c.start_directory@, ..default_window_v() },
                ];
                assert(windows.deep_view() =~= Seq::new(
                    ws.len(),
                    |i: int| WindowV { focus: i == c.focus, ..ws[i] },
                ));
            }
        } else {
            let ghost descrs = c.windows_description.deep_view();
            let ghost dir = c.start_directory@;
            let mut i: usize = 0;
            while i < c.windows_description.len()
                invariant
                    !c.default,
                    i <= c.windows_description.len(),
                    descrs == c.windows_description.deep_view(),
                    dir == c.start_directory@,
                    spec_creation_windows(descrs, dir, i as int) matches Ok(ws) && ({
                        &&& ws.len() == i
                        &&& windows.deep_view() =~= Seq::new(
                            ws.len(),
                            |j: int| WindowV { focus: j == c.focus, ..ws[j] },
                        )
                        &&& forall|j: int| 0 <= j < ws.len() ==> (#[trigger] ws[j]).wf()
                    }),
                decreases c.windows_description.len() - i,
            {
                let ghost prev_ws = spec_creation_windows(descrs, dir, i as int)->Ok_0;
                let d = &c.windows_description[i];
                proof {
                    assert(descrs[i as int] == d@);
                }
                let mut w: TmuxWindow;
                if d.as_str().unicode_len() == 0 {
                    w = TmuxWindow::default();
                    w.start_directory = c.start_directory.clone();
                } else {
                    match TmuxWindow::from_descr(d.as_str()) {
                        Ok(parsed) => {
                            w = parsed;
                        },
                        Err(e) => {
                            proof {
                                lemma_creation_windows_err(
                                    descrs,
                                    dir,
                                    i + 1,
                                    c.windows_description@.len() as int,
                                );
                            }
                            return Err(e);
                        },
                    }
                }
                w.focus = i == c.focus;
                let ghost prev = windows.deep_view();
                windows.push(w);
                proof {
                    let ws = spec_creation_windows(descrs, dir, i + 1)->Ok_0;
                    assert(ws == prev_ws.push(spec_creation_window(descrs[i as int], dir)->Ok_0));
                    assert(windows.deep_view() =~= prev.push(w@));
                    assert(windows.deep_view() =~= Seq::new(
                        ws.len(),
                        |j: int| WindowV { focus: j == c.focus, ..ws[j] },
                    ));
                }
                i = i + 1;
            }
        }
        let ses = TmuxSession {
            session_name: c.session_name.clone(),
            start_directory: c.start_directory.clone(),
            windows,
        };
        proof {
            assert(spec_session_from_creation(*c) matches Ok(sv) && ses@ == sv);
        }
        Ok(ses)
    }
}

/// The encoded form of a session: its name, start directory and window
/// array, in that key order.
pub open spec fn is_session_json(sv: SessionV, v: JsonValue) -> bool {
    match v {
        JsonValue::Object(entries) => {
            let es = entries@;
            &&& es.len() == 3
            &&& es[0].0@ == "session_name"@
            &&& es[0].1 matches JsonValue::Str(n) && n@ == sv.session_name
            &&& es[1].0@ == "start_directory"@
            &&& es[1].1 matches JsonValue::Str(d) && d@ == sv.start_directory
            &&& es[2].0@ == "windows"@
            &&& (es[2].1 matches JsonValue::Array(arr) && arr@.len() == sv.windows.len()
                && (forall|i: int|
                0 <= i < sv.windows.len() ==> is_window_json(sv.windows[i], #[trigger] arr@[i])))
        },
        _ => false,
    }
}

/// Decodes the first `i` elements of a stored window array, in order.
pub open spec fn spec_windows_prefix(arr: Seq<JsonValue>, i: int) -> Result<Seq<WindowV>, ErrKind>
    decreases i,
{
    if i <= 0 {
        Ok(Seq::<WindowV>::empty())
    } else {
        match spec_windows_prefix(arr, i - 1) {
            Ok(ws) => match spec_window_from_json(arr[i - 1]) {
                Ok(w) => Ok(ws.push(w)),
                Err(k) => Err(k),
            },
            Err(k) => Err(k),
        }
    }
}

/// A window-array decode that has failed on a prefix stays failed.
proof fn lemma_windows_prefix_err(arr: Seq<JsonValue>, i: int, j: int)
    requires
        0 <= i <= j,
        spec_windows_prefix(arr, i) is Err,
    ensures
        spec_windows_prefix(arr, j) == spec_windows_prefix(arr, i),
    decreases j,
{
    if i < j {
        lemma_windows_prefix_err(arr, i, j - 1);
    }
}

/// One pass over the entries of a stored session object: the name, start
/// directory and window array are all required, other keys are ignored.
pub open spec fn spec_session_scan(
    entries: Seq<(String, JsonValue)>,
    name: Option<Seq<char>>,
    dir: Option<Seq<char>>,
    wins: Option<Seq<WindowV>>,
) -> Result<SessionV, ErrKind>
    decreases entries.len(),
{
    if entries.len() == 0 {
        if name is Some && dir is Some && wins is Some {
            Ok(
                SessionV {
                    session_name: name.unwrap(),
                    start_directory: dir.unwrap(),
                    windows: wins.unwrap(),
                },
            )
        } else {
            Err(ErrKind::Json)
        }
    } else {
        let key = entries[0].0@;
        if key == "session_name"@ {
            match entries[0].1 {
                JsonValue::Str(s) => spec_session_scan(entries.drop_first(), Some(s@), dir, wins),
                _ => Err(ErrKind::Json),
            }
        } else if key == "start_directory"@ {
            match entries[0].1 {
                JsonValue::Str(s) => spec_session_scan(entries.drop_first(), name, Some(s@), wins),
                _ => Err(ErrKind::Json),
            }
        } else if key == "windows"@ {
            match entries[0].1 {
                JsonValue::Array(arr) => match spec_windows_prefix(arr@, arr@.len() as int) {
                    Ok(ws) => spec_session_scan(entries.drop_first(), name, dir, Some(ws)),
                    Err(k) => Err(k),
                },
                _ => Err(ErrKind::Json),
            }
        } else {
            spec_session_scan(entries.drop_first(), name, dir, wins)
        }
    }
}

/// What decoding a stored session yields.
pub open spec fn spec_session_from_json(v: JsonValue) -> Result<SessionV, ErrKind> {
    match v {
        JsonValue::Object(entries) => spec_session_scan(
            entries@,
            None::<Seq<char>>,
            None::<Seq<char>>,
            None::<Seq<WindowV>>,
        ),
        _ => Err(ErrKind::Json),
    }
}

/// Decodes every element of a stored window array, in order.
fn windows_from_json(arr: &Vec<JsonValue>) -> (r: Result<Vec<TmuxWindow>, Errcode>)
    ensures
        match r {
            Ok(ws) => spec_windows_prefix(arr@, arr@.len() as int) == Ok::<_, ErrKind>(
                ws.deep_view(),
            ),
            Err(e) => spec_windows_prefix(arr@, arr@.len() as int) matches Err(k) && err_is(e, k),
        },
{
    let mut ws: Vec<TmuxWindow> = Vec::new();
    proof {
        assert(ws.deep_view() =~= Seq::<WindowV>::empty());
    }
    let mut i: usize = 0;
    while i < arr.len()
        invariant
            i <= arr.len(),
            spec_windows_prefix(arr@, i as int) == Ok::<_, ErrKind>(ws.deep_view()),
        decreases arr.len() - i,
    {
        match TmuxWindow::from_json(&arr[i]) {
            Ok(w) => {
                let ghost prev = ws.deep_view();
                ws.push(w);
                proof {
                    assert(ws.deep_view() =~= prev.push(ws@[ws@.len() - 1]@));
                }
            },
            Err(e) => {
                proof {
                    lemma_windows_prefix_err(arr@, i + 1, arr@.len() as int);
                }
                return Err(e);
            },
        }
        i = i + 1;
    }
    Ok(ws)
}

impl TmuxSession {
    /// Encodes the session in the external tool's stored form.
    pub fn to_json(&self) -> (r: JsonValue)
        requires
            self@.wf(),
        ensures
            is_session_json(self@, r),
    {
        let mut arr: Vec<JsonValue> = Vec::new();
        let mut i: usize = 0;
        while i < self.windows.len()
            invariant
                i <= self.windows.len(),
                arr@.len() == i,
                self@.wf(),
                forall|j: int|
                    0 <= j < i ==> is_window_json(self@.windows[j], #[trigger] arr@[j]),
            decreases self.windows.len() - i,
        {
            proof {
                assert(self@.windows[i as int].wf());
            }
            arr.push(self.windows[i].to_json());
            i = i + 1;
        }
        let mut entries: Vec<(String, JsonValue)> = Vec::new();
        entries.push(
            (String::from_str("session_name"), JsonValue::Str(self.session_name.clone())),
        );
        entries.push(
            (String::from_str("start_directory"), JsonValue::Str(self.start_directory.clone())),
        );
        entries.push((String::from_str("windows"), JsonValue::Array(arr)));
        JsonValue::Object(entries)
    }

    /// Decodes a stored session value.
    pub fn from_json(v: &JsonValue) -> (r: Result<TmuxSession, Errcode>)
        ensures
            match r {
                Ok(ses) => spec_session_from_json(*v) matches Ok(sv) && ses@ == sv,
                Err(e) => spec_session_from_json(*v) matches Err(k) && err_is(e, k),
            },
    {
        match v {
            JsonValue::Object(entries) => {
                let name_key = String::from_str("session_name");
                let dir_key = String::from_str("start_directory");
                let windows_key = String::from_str("windows");
                let mut name: Option<String> = None;
                let mut dir: Option<String> = None;
                let mut wins: Option<Vec<TmuxWindow>> = None;
                proof {
                    assert(entries@.skip(0) =~= entries@);
                }
                let mut i: usize = 0;
                while i < entries.len()
                    invariant
                        i <= entries.len(),
                        name_key@ == "session_name"@,
                        dir_key@ == "start_directory"@,
                        windows_key@ == "windows"@,
                        spec_session_scan(
                            entries@.skip(i as int),
                            name.deep_view(),
                            dir.deep_view(),
                            wins.deep_view(),
                        ) == spec_session_from_json(*v),
                    decreases entries.len() - i,
                {
                    let ghost rem = entries@.skip(i as int);
                    proof {
                        assert(rem.drop_first() =~= entries@.skip(i + 1));
                        assert(rem[0] == entries@[i as int]);
                    }
                    if entries[i].0 == name_key {
                        match &entries[i].1 {
                            JsonValue::Str(s) => {
                                name = Some(s.clone());
                            },
                            _ => {
                                return Err(
                                    Errcode::JsonError(String::from_str("Session name")),
                                );
                            },
                        }
                    } else if entries[i].0 == dir_key {
                        match &entries[i].1 {
                            JsonValue::Str(s) => {
                                dir = Some(s.clone());
                            },
                            _ => {
                                return Err(
                                    Errcode::JsonError(
                                        String::from_str("Session start directory"),
                                    ),
                                );
                            },
                        }
                    } else if entries[i].0 == windows_key {
                        match &entries[i].1 {
                            JsonValue::Array(arr) => {
                                match windows_from_json(arr) {
                                    Ok(ws) => {
                                        wins = Some(ws);
                                    },
                                    Err(e) => {
                                        return Err(e);
                                    },
                                }
                            },
                            _ => {
                                return Err(
                                    Errcode::JsonError(String::from_str("Session windows")),
                                );
                            },
                        }
                    }
                    i = i + 1;
                }
                proof {
                    assert(entries@.skip(entries@.len() as int) =~= Seq::<(
                        String,
                        JsonValue,
                    )>::empty());
                }
                match (name, dir, wins) {
                    (Some(n), Some(d), Some(w)) => Ok(
                        TmuxSession { session_name: n, start_directory: d, windows: w },
                    ),
                    _ => Err(Errcode::JsonError(String::from_str("Session from Json"))),
                }
            },
            _ => Err(Errcode::JsonError(String::from_str("Session from Json"))),
        }
    }
}

} // verus!

