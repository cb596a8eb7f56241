//! The pane model: the ordered shell commands of one window, with one
//! position holding the "focused" role.

use vstd::prelude::*;
use vstd::string::*;

use crate::errors::{err_is, ErrKind, Errcode};
use crate::serialisation::JsonValue;

verus! {

/// The command of the focused pane, wrapped with its explicit focus marker.
#[derive(Debug)]
pub struct FocusedPane {
    pub shell_command: String,
    pub focus: bool,
}

/// The encoded form of the focused pane: an object holding the command and
/// the focus marker, the marker serialized as the *string* `"true"` or
/// `"false"` (an external-format quirk), in that key order.
pub open spec fn is_focused_pane_json(cmd: Seq<char>, flag: bool, v: JsonValue) -> bool {
    match v {
        JsonValue::Object(entries) => {
            &&& entries@.len() == 2
            &&& entries@[0].0@ == "shell_command"@
            &&& entries@[0].1 matches JsonValue::Str(c) && c@ == cmd
            &&& entries@[1].0@ == "focus"@
            &&& entries@[1].1 matches JsonValue::Str(f) && f@ == (if flag {
                "true"@
            } else {
                "false"@
            })
        },
        _ => false,
    }
}

/// One step of reading a focused-pane object: only the `focus` and
/// `shell_command` keys are accepted, each with a string value; any other
/// key inside this object is a hard decode error.
pub open spec fn spec_focused_scan(
    entries: Seq<(String, JsonValue)>,
    acc_cmd: Seq<char>,
    acc_flag: bool,
) -> Result<(Seq<char>, bool), ErrKind>
    decreases entries.len(),
{
    if entries.len() == 0 {
        Ok((acc_cmd, acc_flag))
    } else {
        let key = entries[0].0@;
        if key == "focus"@ {
            match entries[0].1 {
                JsonValue::Str(s) => spec_focused_scan(entries.drop_first(), acc_cmd, s@ == "true"@),
                _ => Err(ErrKind::Json),
            }
        } else if key == "shell_command"@ {
            match entries[0].1 {
                JsonValue::Str(s) => spec_focused_scan(entries.drop_first(), s@, acc_flag),
                _ => Err(ErrKind::Json),
            }
        } else {
            Err(ErrKind::Json)
        }
    }
}

/// What decoding a focused-pane object yields: the scan above, started from
/// an empty command wrapped as focused.
pub open spec fn spec_focused_from_json(entries: Seq<(String, JsonValue)>) -> Result<
    (Seq<char>, bool),
    ErrKind,
> {
    spec_focused_scan(entries, Seq::<char>::empty(), true)
}

impl FocusedPane {
    /// Wraps a command as the focused pane.
    pub fn from_cmd(cmd: String) -> (r: FocusedPane)
        ensures
            r.shell_command == cmd,
            r.focus,
    {
        FocusedPane { shell_command: cmd, focus: true }
    }

    /// Decodes a focused pane from the entries of its stored object.
    pub fn from_json(entries: &Vec<(String, JsonValue)>) -> (r: Result<FocusedPane, Errcode>)
        ensures
            match r {
                Ok(p) => spec_focused_from_json(entries@) == Ok::<_, ErrKind>(
                    (p.shell_command@, p.focus),
                ),
                Err(e) => spec_focused_from_json(entries@) matches Err(k) && err_is(e, k),
            },
    {
        let mut pane = FocusedPane::from_cmd(String::new());
        let focus_key = String::from_str("focus");
        let cmd_key = String::from_str("shell_command");
        let true_str = String::from_str("true");
        proof {
            assert(entries@.skip(0) =~= entries@);
        }
        let mut i: usize = 0;
        while i < entries.len()
            invariant
                i <= entries.len(),
                focus_key@ == "focus"@,
                cmd_key@ == "shell_command"@,
                true_str@ == "true"@,
                spec_focused_scan(entries@.skip(i as int), pane.shell_command@, pane.focus)
                    == spec_focused_from_json(entries@),
            decreases entries.len() - i,
        {
            let ghost rem = entries@.skip(i as int);
            proof {
                assert(rem.drop_first() =~= entries@.skip(i + 1));
                assert(rem[0] == entries@[i as int]);
                assert(rem.len() > 0);
            }
            if entries[i].0 == focus_key {
                match &entries[i].1 {
                    JsonValue::Str(s) => {
                        pane.focus = *s == true_str;
                    },
                    _ => {
                        return Err(
                            Errcode::JsonError(String::from_str("FocusedPane from Json")),
                        );
                    },
                }
            } else if entries[i].0 == cmd_key {
                match &entries[i].1 {
                    JsonValue::Str(s) => {
                        pane.shell_command = s.clone();
                    },
                    _ => {
                        return Err(
                            Errcode::JsonError(String::from_str("FocusedPane from Json")),
                        );
                    },
                }
            } else {
                return Err(Errcode::JsonError(String::from_str("FocusedPane from Json")));
            }
            i = i + 1;
        }
        proof {
            assert(entries@.skip(entries@.len() as int) =~= Seq::<(String, JsonValue)>::empty());
        }
        Ok(pane)
    }

    /// Encodes the focused pane as its stored object.
    pub fn to_json(&self) -> (r: JsonValue)
        ensures
            is_focused_pane_json(self.shell_command@, self.focus, r),
    {
        let mut entries: Vec<(String, JsonValue)> = Vec::new();
        entries.push(
            (String::from_str("shell_command"), JsonValue::Str(self.shell_command.clone())),
        );
        let flag = if self.focus {
            String::from_str("true")
        } else {
            String::from_str("false")
        };
        entries.push((String::from_str("focus"), JsonValue::Str(flag)));
        JsonValue::Object(entries)
    }
}

/// The mathematical content of a pane collection: the focused command, its
/// marker, its position in the encoded array, and the remaining commands.
pub ghost struct PaneV {
    pub focused_cmd: Seq<char>,
    pub focused_flag: bool,
    pub focused_index: nat,
    pub others: Seq<Seq<char>>,
}

impl PaneV {
    /// The focused position always addresses a slot of the encoded array,
    /// and one more command always fits the machine.
    pub open spec fn wf(self) -> bool {
        self.focused_index <= self.others.len() && self.others.len() < usize::MAX
    }

    /// The full command list in linear order: the focused command first,
    /// then the others.
    pub open spec fn linear(self) -> Seq<Seq<char>> {
        seq![self.focused_cmd] + self.others
    }
}

/// The encoded form of a pane collection: a flat array whose element at the
/// focused index is the focused-pane object and whose other elements are
/// bare command strings, in order.
pub open spec fn is_pane_json(pv: PaneV, v: JsonValue) -> bool {
    match v {
        JsonValue::Array(elems) => {
            &&& elems@.len() == 1 + pv.others.len()
            &&& pv.focused_index < elems@.len()
            &&& is_focused_pane_json(
                pv.focused_cmd,
                pv.focused_flag,
                elems@[pv.focused_index as int],
            )
            &&& forall|j: int|
                0 <= j < elems@.len() && j != pv.focused_index ==> ((#[trigger] elems@[j]) matches
                JsonValue::Str(s) && s@ == pv.others[if j < pv.focused_index {
                    j
                } else {
                    j - 1
                }])
        },
        _ => false,
    }
}

/// One pass over the elements of a stored panes array: a bare string is an
/// "other" command, the (single) object is the focused pane and its position
/// the focused index, anything else is a decode error.
pub open spec fn spec_panes_scan(
    elems: Seq<JsonValue>,
    i: int,
    cmds: Seq<Seq<char>>,
    foc: Option<(nat, Seq<char>, bool)>,
) -> Result<PaneV, ErrKind>
    decreases elems.len() - i,
{
    if i < 0 || i >= elems.len() {
        match foc {
            Some((fi, cmd, flag)) => Ok(
                PaneV { focused_cmd: cmd, focused_flag: flag, focused_index: fi, others: cmds },
            ),
            None => Err(ErrKind::Json),
        }
    } else {
        match elems[i] {
            JsonValue::Str(s) => spec_panes_scan(elems, i + 1, cmds.push(s@), foc),
            JsonValue::Object(entries) => {
                if foc is Some {
                    Err(ErrKind::Json)
                } else {
                    match spec_focused_from_json(entries@) {
                        Ok((cmd, flag)) => spec_panes_scan(
                            elems,
                            i + 1,
                            cmds,
                            Some((i as nat, cmd, flag)),
                        ),
                        Err(k) => Err(k),
                    }
                }
            },
            _ => Err(ErrKind::Json),
        }
    }
}

/// What decoding a stored panes value yields: the value must be an array,
/// and the array must hold exactly one focused-pane object.
pub open spec fn spec_load_json_panes(v: JsonValue) -> Result<PaneV, ErrKind> {
    match v {
        JsonValue::Array(elems) => spec_panes_scan(
            elems@,
            0,
            Seq::<Seq<char>>::empty(),
            None::<(nat, Seq<char>, bool)>,
        ),
        _ => Err(ErrKind::Json),
    }
}

/// The ordered pane commands of one window: one focused command at a
/// distinguished index, and the other commands in order.
#[derive(Debug)]
pub struct PaneSerializer {
    pub focused: FocusedPane,
    pub others: Vec<String>,
    pub focused_index: usize,
}

impl View for PaneSerializer {
    type V = PaneV;

    open spec fn view(&self) -> PaneV {
        PaneV {
            focused_cmd: self.focused.shell_command@,
            focused_flag: self.focused.focus,
            focused_index: self.focused_index as nat,
            others: self.others.deep_view(),
        }
    }
}

impl PaneSerializer {
    /// Assembles a pane collection from its parts.
    pub fn create(focused: FocusedPane, focused_index: usize, others: Vec<String>) -> (r:
        PaneSerializer)
        ensures
            r.focused == focused,
            r.focused_index == focused_index,
            r.others == others,
    {
        PaneSerializer { focused, focused_index, others }
    }

    /// The total number of panes: the focused one plus the others.
    pub fn nb_panes(&self) -> (r: usize)
        requires
            self@.wf(),
        ensures
            r == 1 + self@.others.len(),
    {
        1 + self.others.len()
    }

    /// Replaces every pane command positionally: the command now standing at
    /// the focused index becomes the focused command, and the rest fill the
    /// other slots in order.
    pub fn set_panes_cmds(&mut self, cmds: &Vec<String>)
        requires
            cmds.len() >= 1,
            old(self).focused_index < cmds.len(),
        ensures
            final(self).focused_index == old(self).focused_index,
            final(self).focused.focus == old(self).focused.focus,
            final(self).focused.shell_command@ == cmds.deep_view()[old(
                self,
            ).focused_index as int],
            final(self).others.deep_view() == cmds.deep_view().remove(
                old(self).focused_index as int,
            ),
    {
        let fi = self.focused_index;
        let ghost target = cmds.deep_view().remove(fi as int);
        let mut rebuilt: Vec<String> = Vec::new();
        let mut n: usize = 0;
        while n < cmds.len()
            invariant
                fi < cmds.len(),
                n <= cmds.len(),
                target == cmds.deep_view().remove(fi as int),
                n <= fi ==> rebuilt.deep_view() =~= cmds.deep_view().subrange(0, n as int),
                n > fi ==> rebuilt.deep_view() =~= cmds.deep_view().subrange(0, n as int).remove(
                    fi as int,
                ),
                n > fi ==> self.focused.shell_command@ == cmds.deep_view()[fi as int],
                self.focused.focus == old(self).focused.focus,
                self.focused_index == old(self).focused_index,
                fi == old(self).focused_index,
            decreases cmds.len() - n,
        {
            let ghost prev = rebuilt.deep_view();
            if n == fi {
                self.focused.shell_command = cmds[n].clone();
            } else {
                rebuilt.push(cmds[n].clone());
                proof {
                    assert(rebuilt.deep_view() =~= prev.push(cmds.deep_view()[n as int]));
                }
            }
            n += 1;
        }
        proof {
            assert(cmds.deep_view().subrange(0, cmds.len() as int) =~= cmds.deep_view());
            assert(rebuilt.deep_view() =~= cmds.deep_view().remove(fi as int));
        }
        self.others = rebuilt;
    }

    /// Moves the focus role to the command at position `focus` of the linear
    /// command list; the previous focused command is demoted into the others.
    /// The focused index inside the encoded array is left unchanged.
    pub fn set_focus(&mut self, focus: usize) -> (r: Result<(), Errcode>)
        requires
            old(self)@.wf(),
        ensures
            final(self)@.wf(),
            match r {
                Ok(()) => {
                    if focus == old(self).focused_index {
                        *final(self) == *old(self)
                    } else {
                        &&& focus < old(self)@.linear().len()
                        &&& final(self).focused_index == old(self).focused_index
                        &&& final(self).focused.focus
                        &&& final(self).focused.shell_command@ == old(self)@.linear()[
                            focus as int]
                        &&& final(self).others.deep_view() == old(self)@.linear().remove(
                            focus as int,
                        )
                    }
                },
                Err(e) => {
                    &&& focus != old(self).focused_index
                    &&& focus >= old(self)@.linear().len()
                    &&& err_is(e, ErrKind::IndexOutOfRange(focus as nat, old(self)@.linear().len()))
                    &&& *final(self) == *old(self)
                },
            },
    {
        if focus == self.focused_index {
            return Ok(());
        }
        let total = 1 + self.others.len();
        if focus >= total {
            return Err(Errcode::IndexOutOfRange(focus, total));
        }
        let mut cmds = self.get_panes_cmds_vec();
        let focused = cmds.remove(focus);
        proof {
            assert(cmds.deep_view() =~= old(self)@.linear().remove(focus as int));
        }
        self.others = cmds;
        self.focused = FocusedPane::from_cmd(focused);
        Ok(())
    }

    /// The full linear command list: the focused command first, then the
    /// other commands in order.
    fn get_panes_cmds_vec(&self) -> (r: Vec<String>)
        ensures
            r.deep_view() == self@.linear(),
    {
        let mut all: Vec<String> = Vec::new();
        all.push(self.focused.shell_command.clone());
        let mut n: usize = 0;
        while n < self.others.len()
            invariant
                n <= self.others.len(),
                all.deep_view() =~= seq![self.focused.shell_command@] + self.others.deep_view()
                    .subrange(0, n as int),
            decreases self.others.len() - n,
        {
            let ghost prev = all.deep_view();
            all.push(self.others[n].clone());
            proof {
                assert(all.deep_view() =~= prev.push(self.others.deep_view()[n as int]));
            }
            n += 1;
        }
        proof {
            assert(self.others.deep_view().subrange(0, self.others.len() as int)
                =~= self.others.deep_view());
            assert(all.deep_view() =~= self@.linear());
        }
        all
    }

    /// The full linear command list, as the fallible operation callers use.
    pub fn get_panes_cmds(&mut self) -> (r: Result<Vec<String>, Errcode>)
        ensures
            *final(self) == *old(self),
            r matches Ok(cmds) && cmds.deep_view() == old(self)@.linear(),
    {
        Ok(self.get_panes_cmds_vec())
    }

    /// Encodes the panes as the flat array the external tool expects: the
    /// element at the focused index is the focused-pane object, every other
    /// element is the bare command string.
    pub fn to_json(&self) -> (r: JsonValue)
        requires
            self@.wf(),
        ensures
            is_pane_json(self@, r),
    {
        let total = 1 + self.others.len();
        let fi = self.focused_index;
        let mut elems: Vec<JsonValue> = Vec::new();
        let mut ind_back: usize = 0;
        let mut i: usize = 0;
        while i < total
            invariant
                total == 1 + self.others.len(),
                fi == self.focused_index,
                fi < total,
                i <= total,
                elems@.len() == i,
                ind_back == (if i > fi {
                    1int
                } else {
                    0int
                }),
                i > fi ==> is_focused_pane_json(
                    self.focused.shell_command@,
                    self.focused.focus,
                    elems@[fi as int],
                ),
                forall|j: int|
                    0 <= j < i && j != fi ==> ((#[trigger] elems@[j]) matches JsonValue::Str(s)
                    && s@ == self.others.deep_view()[if j < fi {
                        j
                    } else {
                        j - 1
                    }]),
            decreases total - i,
        {
            if i == fi {
                elems.push(self.focused.to_json());
                ind_back = 1;
            } else {
                elems.push(JsonValue::Str(self.others[i - ind_back].clone()));
            }
            i = i + 1;
        }
        JsonValue::Array(elems)
    }

    /// Grows the other commands by one.
    pub fn append(&mut self, cmd: String)
        ensures
            final(self).focused == old(self).focused,
            final(self).focused_index == old(self).focused_index,
            final(self).others.deep_view() == old(self).others.deep_view().push(cmd@),
    {
        self.others.push(cmd);
    }
}

} // verus!
