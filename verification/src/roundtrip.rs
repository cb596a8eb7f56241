//! The round-trip laws of the codec: decoding an encoded session
//! reproduces it exactly.

use vstd::prelude::*;

use crate::errors::ErrKind;
use crate::layout::layout_result;
use crate::pane::{is_focused_pane_json, is_pane_json, spec_focused_from_json, spec_focused_scan,
    spec_load_json_panes, spec_panes_scan, PaneV};
use crate::serialisation::JsonValue;
use crate::session::{is_session_json, spec_session_from_json, spec_session_scan,
    spec_windows_prefix, SessionV};
use crate::window::{default_window_v, is_options_json, is_window_json, spec_load_json_options,
    spec_options_scan, spec_window_from_json, spec_window_scan, WindowV};

verus! {

/// Decoding an encoded focused-pane object restores the command and the
/// focus marker.
proof fn lemma_focused_round_trip(cmd: Seq<char>, flag: bool, v: JsonValue)
    requires
        is_focused_pane_json(cmd, flag, v),
    ensures
        v matches JsonValue::Object(entries) && spec_focused_from_json(entries@) == Ok::<
            _,
            ErrKind,
        >((cmd, flag)),
{
    reveal_strlit("shell_command");
    reveal_strlit("focus");
    reveal_strlit("true");
    reveal_strlit("false");
    let entries = v->Object_0;
    let es = entries@;
    let s1 = es.drop_first();
    let s2 = s1.drop_first();
    assert(s1[0] == es[1]);
    assert(s2.len() == 0);
    assert("shell_command"@.len() != "focus"@.len());
    assert(spec_focused_scan(es, Seq::<char>::empty(), true) == spec_focused_scan(s1, cmd, true));
    assert(spec_focused_scan(s1, cmd, true) == spec_focused_scan(s2, cmd, flag)) by {
        if !flag {
            assert("true"@.len() != "false"@.len());
        }
    }
    assert(spec_focused_scan(s2, cmd, flag) == Ok::<_, ErrKind>((cmd, flag)));
}

/// Scanning the tail of an encoded panes array from a consistent state
/// completes the decoded pane collection.
proof fn lemma_panes_scan_from(
    pv: PaneV,
    elems: Seq<JsonValue>,
    i: int,
    cmds: Seq<Seq<char>>,
    foc: Option<(nat, Seq<char>, bool)>,
)
    requires
        elems.len() == 1 + pv.others.len(),
        pv.focused_index < elems.len(),
        is_focused_pane_json(pv.focused_cmd, pv.focused_flag, elems[pv.focused_index as int]),
        forall|j: int|
            0 <= j < elems.len() && j != pv.focused_index ==> ((#[trigger] elems[j]) matches
            JsonValue::Str(s) && s@ == pv.others[if j < pv.focused_index {
                j
            } else {
                j - 1
            }]),
        0 <= i <= elems.len(),
        i <= pv.focused_index ==> cmds == pv.others.take(i) && foc is None,
        i > pv.focused_index ==> cmds == pv.others.take(i - 1) && foc == Some(
            (pv.focused_index, pv.focused_cmd, pv.focused_flag),
        ),
    ensures
        spec_panes_scan(elems, i, cmds, foc) == Ok::<_, ErrKind>(pv),
    decreases elems.len() - i,
{
    let fi = pv.focused_index as int;
    if i >= elems.len() {
        assert(pv.others.take(i - 1) =~= pv.others);
        assert(spec_panes_scan(elems, i, cmds, foc) == Ok::<_, ErrKind>(
            PaneV {
                focused_cmd: pv.focused_cmd,
                focused_flag: pv.focused_flag,
                focused_index: pv.focused_index,
                others: cmds,
            },
        ));
    } else if i < fi {
        assert(pv.others.take(i).push(pv.others[i]) =~= pv.others.take(i + 1));
        lemma_panes_scan_from(pv, elems, i + 1, cmds.push(pv.others[i]), foc);
    } else if i == fi {
        lemma_focused_round_trip(pv.focused_cmd, pv.focused_flag, elems[i]);
        lemma_panes_scan_from(
            pv,
            elems,
            i + 1,
            cmds,
            Some((pv.focused_index, pv.focused_cmd, pv.focused_flag)),
        );
    } else {
        assert(pv.others.take(i - 1).push(pv.others[i - 1]) =~= pv.others.take(i));
        lemma_panes_scan_from(pv, elems, i + 1, cmds.push(pv.others[i - 1]), foc);
    }
}

/// Decoding an encoded panes array restores the pane collection.
proof fn lemma_pane_round_trip(pv: PaneV, v: JsonValue)
    requires
        is_pane_json(pv, v),
    ensures
        spec_load_json_panes(v) == Ok::<_, ErrKind>(pv),
{
    let elems = v->Array_0;
    assert(pv.others.take(0) =~= Seq::<Seq<char>>::empty());
    lemma_panes_scan_from(
        pv,
        elems@,
        0,
        Seq::<Seq<char>>::empty(),
        None::<(nat, Seq<char>, bool)>,
    );
}

/// Decoding an encoded options object restores the rename flag, whatever
/// flag the scan started from.
proof fn lemma_options_round_trip(ar: bool, v: JsonValue, ar0: bool)
    requires
        is_options_json(ar, v),
    ensures
        spec_load_json_options(v, ar0) == Ok::<_, ErrKind>(ar),
{
    reveal_strlit("automatic-rename");
    reveal_strlit("on");
    reveal_strlit("off");
    let entries = v->Object_0;
    let es = entries@;
    let s1 = es.drop_first();
    assert(s1.len() == 0);
    assert(spec_options_scan(es, ar0) == spec_options_scan(s1, ar)) by {
        if !ar {
            assert("on"@.len() != "off"@.len());
        }
    }
    assert(spec_options_scan(s1, ar) == Ok::<_, ErrKind>(ar));
}

/// Decoding an encoded window restores it exactly.
proof fn lemma_window_round_trip(wv: WindowV, v: JsonValue)
    requires
        is_window_json(wv, v),
    ensures
        spec_window_from_json(v) == Ok::<_, ErrKind>(wv),
{
    reveal_strlit("options");
    reveal_strlit("window_name");
    reveal_strlit("layout");
    reveal_strlit("panes");
    reveal_strlit("focus");
    reveal_strlit("start_directory");
    let entries = v->Object_0;
    let es = entries@;
    let nl: int = if wv.layout is Some {
        1
    } else {
        0
    };
    let nf: int = if wv.focus {
        1
    } else {
        0
    };
    assert(es.len() == 4 + nl + nf);
    assert("panes"@ != "focus"@) by {
        assert("panes"@[0] != "focus"@[0]);
    }
    lemma_pane_round_trip(wv.panes, es[2 + nl + nf].1);
    lemma_options_round_trip(wv.automatic_rename, es[3 + nl + nf].1, false);
    let s1 = es.drop_first();
    let s2 = s1.drop_first();
    let s3 = s2.drop_first();
    let s4 = s3.drop_first();
    let w0 = default_window_v();
    let w1 = WindowV { window_name: wv.window_name, ..w0 };
    assert(s1.len() == es.len() - 1 && forall|m: int| 0 <= m < s1.len() ==> s1[m] == es[m + 1]);
    assert(s2.len() == es.len() - 2 && forall|m: int| 0 <= m < s2.len() ==> s2[m] == es[m + 2]);
    assert(s3.len() == es.len() - 3 && forall|m: int| 0 <= m < s3.len() ==> s3[m] == es[m + 3]);
    assert(s4.len() == es.len() - 4 && forall|m: int| 0 <= m < s4.len() ==> s4[m] == es[m + 4]);
    assert("options"@.len() == 7);
    assert("window_name"@.len() == 11);
    assert("layout"@.len() == 6);
    assert("panes"@.len() == 5);
    assert("focus"@.len() == 5);
    assert("start_directory"@.len() == 15);
    assert(es[0].0@ == "window_name"@);
    assert(es[0].0@ != "options"@);
    assert(crate::window::spec_load_entry(w0, es[0].0@, es[0].1) == Ok::<_, ErrKind>(w1));
    assert(spec_window_scan(es, w0) == spec_window_scan(s1, w1));
    if nl == 1 && nf == 1 {
        let s5 = s4.drop_first();
        let s6 = s5.drop_first();
        assert(s5.len() == es.len() - 5 && forall|m: int| 0 <= m < s5.len() ==> s5[m] == es[m
            + 5]);
        assert(s6.len() == 0);
        let w2 = WindowV { layout: wv.layout, ..w1 };
        let w3 = WindowV { start_directory: wv.start_directory, ..w2 };
        let w4 = WindowV { focus: true, ..w3 };
        let w5 = WindowV { panes: wv.panes, ..w4 };
        let w6 = WindowV { automatic_rename: wv.automatic_rename, ..w5 };
        assert(spec_window_scan(s1, w1) == spec_window_scan(s2, w2));
        assert(spec_window_scan(s2, w2) == spec_window_scan(s3, w3));
        assert(spec_window_scan(s3, w3) == spec_window_scan(s4, w4));
        assert(spec_window_scan(s4, w4) == spec_window_scan(s5, w5));
        assert(spec_window_scan(s5, w5) == spec_window_scan(s6, w6));
        assert(spec_window_scan(s6, w6) == Ok::<_, ErrKind>(w6));
        assert(w6 == wv);
    } else if nl == 1 {
        let s5 = s4.drop_first();
        assert(s5.len() == 0);
        let w2 = WindowV { layout: wv.layout, ..w1 };
        let w3 = WindowV { start_directory: wv.start_directory, ..w2 };
        let w4 = WindowV { panes: wv.panes, ..w3 };
        let w5 = WindowV { automatic_rename: wv.automatic_rename, ..w4 };
        assert(spec_window_scan(s1, w1) == spec_window_scan(s2, w2));
        assert(spec_window_scan(s2, w2) == spec_window_scan(s3, w3));
        assert(spec_window_scan(s3, w3) == spec_window_scan(s4, w4));
        assert(spec_window_scan(s4, w4) == spec_window_scan(s5, w5));
        assert(spec_window_scan(s5, w5) == Ok::<_, ErrKind>(w5));
        assert(w5 == wv);
    } else if nf == 1 {
        let s5 = s4.drop_first();
        assert(s5.len() == 0);
        let w2 = WindowV { start_directory: wv.start_directory, ..w1 };
        let w3 = WindowV { focus: true, ..w2 };
        let w4 = WindowV { panes: wv.panes, ..w3 };
        let w5 = WindowV { automatic_rename: wv.automatic_rename, ..w4 };
        assert(spec_window_scan(s1, w1) == spec_window_scan(s2, w2));
        assert(spec_window_scan(s2, w2) == spec_window_scan(s3, w3));
        assert(spec_window_scan(s3, w3) == spec_window_scan(s4, w4));
        assert(spec_window_scan(s4, w4) == spec_window_scan(s5, w5));
        assert(spec_window_scan(s5, w5) == Ok::<_, ErrKind>(w5));
        assert(w5 == wv);
    } else {
        let w2 = WindowV { start_directory: wv.start_directory, ..w1 };
        let w3 = WindowV { panes: wv.panes, ..w2 };
        let w4 = WindowV { automatic_rename: wv.automatic_rename, ..w3 };
        assert(s4.len() == 0);
        assert(spec_window_scan(s1, w1) == spec_window_scan(s2, w2));
        assert(spec_window_scan(s2, w2) == spec_window_scan(s3, w3));
        assert(spec_window_scan(s3, w3) == spec_window_scan(s4, w4));
        assert(spec_window_scan(s4, w4) == Ok::<_, ErrKind>(w4));
        assert(w4 == wv);
    }
}

/// Decoding a prefix of an encoded window array restores that prefix.
proof fn lemma_windows_prefix_round_trip(ws: Seq<WindowV>, arr: Seq<JsonValue>, i: int)
    requires
        arr.len() == ws.len(),
        forall|j: int| 0 <= j < ws.len() ==> is_window_json(ws[j], #[trigger] arr[j]),
        0 <= i <= arr.len(),
    ensures
        spec_windows_prefix(arr, i) == Ok::<_, ErrKind>(ws.take(i)),
    decreases i,
{
    if i > 0 {
        lemma_windows_prefix_round_trip(ws, arr, i - 1);
        lemma_window_round_trip(ws[i - 1], arr[i - 1]);
        assert(ws.take(i - 1).push(ws[i - 1]) =~= ws.take(i));
    } else {
        assert(ws.take(0) =~= Seq::<WindowV>::empty());
    }
}

/// Round-trip law: decoding an encoded session reproduces it exactly — the
/// session name, start directory, window order, every window's name, layout,
/// focus flag, start directory and rename option, and every window's focused
/// command, focused index and other commands.
pub proof fn lemma_session_round_trip(sv: SessionV, v: JsonValue)
    requires
        is_session_json(sv, v),
    ensures
        spec_session_from_json(v) == Ok::<_, ErrKind>(sv),
{
    reveal_strlit("session_name");
    reveal_strlit("start_directory");
    reveal_strlit("windows");
    assert("session_name"@.len() == 12);
    assert("start_directory"@.len() == 15);
    assert("windows"@.len() == 7);
    let entries = v->Object_0;
    let es = entries@;
    let s1 = es.drop_first();
    let s2 = s1.drop_first();
    let s3 = s2.drop_first();
    assert(s1[0] == es[1]);
    assert(s2[0] == es[2]);
    assert(s3.len() == 0);
    let arr = es[2].1->Array_0;
    lemma_windows_prefix_round_trip(sv.windows, arr@, arr@.len() as int);
    assert(sv.windows.take(sv.windows.len() as int) =~= sv.windows);
    let nm = Some(sv.session_name);
    let dr = Some(sv.start_directory);
    let ws = Some(sv.windows);
    assert(spec_session_scan(es, None, None, None) == spec_session_scan(s1, nm, None, None));
    assert(spec_session_scan(s1, nm, None, None) == spec_session_scan(s2, nm, dr, None));
    assert(spec_session_scan(s2, nm, dr, None) == spec_session_scan(s3, nm, dr, ws));
    assert(spec_session_scan(s3, nm, dr, ws) == Ok::<_, ErrKind>(sv));
}

/// Pane-count law, across persistence: a window whose layout implies its
/// pane count keeps both the layout and the count through an encode and a
/// decode of the session.
pub proof fn lemma_round_trip_preserves_pane_count(sv: SessionV, v: JsonValue, i: int)
    requires
        is_session_json(sv, v),
        0 <= i < sv.windows.len(),
        sv.windows[i].layout matches Some(l) && layout_result(l) == Some(
            (1 + sv.windows[i].panes.others.len()) as nat,
        ),
    ensures
        spec_session_from_json(v) matches Ok(dv) && ({
            &&& dv.windows[i].layout == sv.windows[i].layout
            &&& dv.windows[i].layout matches Some(l) && layout_result(l) == Some(
                (1 + dv.windows[i].panes.others.len()) as nat,
            )
        }),
{
    lemma_session_round_trip(sv, v);
}

} // verus!
