//! The layout grammar analyzer: reads the multiplexer's checksum-prefixed
//! tiling-layout string and computes how many leaf panes it implies.
//!
//! The grammar is scanned as comma-separated fields; a field containing an
//! opening bracket or brace closes a container header, one containing a
//! closing bracket or brace closes a leaf, and a per-node field counter is
//! checked against the shape the grammar demands (the top-level node carries
//! one extra checksum field).  The specification below is the same scan,
//! written as a character-by-character state machine.

use vstd::prelude::*;
use vstd::string::*;

use crate::errors::{err_is, ErrKind, Errcode};

verus! {

/// The scanner state: `nel` counts the fields already closed in the current
/// node, `alone` records that no container has been entered yet (top level),
/// `npane` counts completed leaves, and the two flags record whether the
/// field currently being read contains an opening or closing delimiter.
pub ghost struct LayoutSt {
    pub nel: nat,
    pub alone: bool,
    pub npane: nat,
    pub has_open: bool,
    pub has_close: bool,
    pub failed: bool,
}

/// The state at the start of the scan.
pub open spec fn layout_init() -> LayoutSt {
    LayoutSt { nel: 0, alone: true, npane: 0, has_open: false, has_close: false, failed: false }
}

/// Closes the field currently being read (a comma or the end of the input
/// was reached) and applies the grammar rules to it.
pub open spec fn layout_close_field(st: LayoutSt) -> LayoutSt {
    let nel = st.nel + 1;
    if st.failed {
        st
    } else if st.has_open {
        if (st.alone && nel == 4) || (!st.alone && nel == 3) {
            LayoutSt {
                nel: 1,
                alone: false,
                npane: st.npane,
                has_open: false,
                has_close: false,
                failed: false,
            }
        } else {
            LayoutSt { failed: true, ..st }
        }
    } else if nel == 5 && !st.alone {
        LayoutSt {
            nel: 1,
            alone: st.alone,
            npane: st.npane + 1,
            has_open: false,
            has_close: false,
            failed: false,
        }
    } else if st.has_close {
        if nel == 4 {
            LayoutSt {
                nel: 0,
                alone: st.alone,
                npane: st.npane + 1,
                has_open: false,
                has_close: false,
                failed: false,
            }
        } else {
            LayoutSt { failed: true, ..st }
        }
    } else {
        LayoutSt {
            nel: nel,
            alone: st.alone,
            npane: st.npane,
            has_open: false,
            has_close: false,
            failed: false,
        }
    }
}

/// Advances the scanner over one character.
pub open spec fn layout_step(st: LayoutSt, c: char) -> LayoutSt {
    if st.failed {
        st
    } else if c == ',' {
        layout_close_field(st)
    } else {
        LayoutSt {
            nel: st.nel,
            alone: st.alone,
            npane: st.npane,
            has_open: st.has_open || c == '{' || c == '[',
            has_close: st.has_close || c == '}' || c == ']',
            failed: false,
        }
    }
}

/// The scanner state after reading the first `n` characters of `s`.
pub open spec fn layout_scan(s: Seq<char>, n: int) -> LayoutSt
    decreases n,
{
    if n <= 0 {
        layout_init()
    } else {
        layout_step(layout_scan(s, n - 1), s[n - 1])
    }
}

/// The pane count a layout string implies: the final field is closed, and at
/// the top level the whole string must have been one five-field leaf.
/// `None` means the string does not follow the grammar.
pub open spec fn layout_result(s: Seq<char>) -> Option<nat> {
    let st = layout_close_field(layout_scan(s, s.len() as int));
    if st.failed {
        None
    } else if st.alone {
        if st.nel == 5 {
            Some((st.npane + 1) as nat)
        } else {
            None
        }
    } else {
        Some(st.npane)
    }
}

/// Once the scanner has failed, it stays failed.
proof fn lemma_layout_failed_sticks(s: Seq<char>, i: int, j: int)
    requires
        0 <= i <= j <= s.len(),
        layout_scan(s, i).failed,
    ensures
        layout_scan(s, j).failed,
    decreases j - i,
{
    if i < j {
        lemma_layout_failed_sticks(s, i, j - 1);
    }
}

/// Computes the number of panes the layout string `orig_layout` implies, or
/// reports a grammar mismatch as `ParsingError`.
pub fn get_npane_from_layout(orig_layout: &str) -> (r: Result<usize, Errcode>)
    ensures
        match r {
            Ok(n) => layout_result(orig_layout@) == Some(n as nat),
            Err(e) => layout_result(orig_layout@) is None && err_is(e, ErrKind::Parsing),
        },
{
    let ghost s = orig_layout@;
    let n = orig_layout.unicode_len();
    let mut i: usize = 0;
    let mut nel: usize = 0;
    let mut alone: bool = true;
    let mut npane: usize = 0;
    let mut has_open: bool = false;
    let mut has_close: bool = false;
    while i < n
        invariant
            n == s.len(),
            s == orig_layout@,
            i <= n,
            layout_scan(s, i as int) == (LayoutSt {
                nel: nel as nat,
                alone: alone,
                npane: npane as nat,
                has_open: has_open,
                has_close: has_close,
                failed: false,
            }),
            nel <= i,
            3 * npane + nel <= i + 1,
        decreases n - i,
    {
        let c = orig_layout.get_char(i);
        proof {
            assert(layout_scan(s, i + 1) == layout_step(layout_scan(s, i as int), s[i as int]));
        }
        if c == ',' {
            if has_open {
                if (alone && nel == 3) || (!alone && nel == 2) {
                    nel = 1;
                    alone = false;
                } else {
                    proof {
                        lemma_layout_failed_sticks(s, i + 1, n as int);
                    }
                    return Err(
                        Errcode::ParsingError(String::from_str("layout grammar mismatch")),
                    );
                }
            } else if nel == 4 && !alone {
                nel = 1;
                npane = npane + 1;
            } else if has_close {
                if nel == 3 {
                    nel = 0;
                    npane = npane + 1;
                } else {
                    proof {
                        lemma_layout_failed_sticks(s, i + 1, n as int);
                    }
                    return Err(
                        Errcode::ParsingError(String::from_str("layout grammar mismatch")),
                    );
                }
            } else {
                nel = nel + 1;
            }
            has_open = false;
            has_close = false;
        } else {
            if c == '{' || c == '[' {
                has_open = true;
            }
            if c == '}' || c == ']' {
                has_close = true;
            }
        }
        i = i + 1;
    }
    if has_open {
        if (alone && nel == 3) || (!alone && nel == 2) {
            Ok(npane)
        } else {
            Err(Errcode::ParsingError(String::from_str("layout grammar mismatch")))
        }
    } else if nel == 4 && !alone {
        Ok(npane + 1)
    } else if has_close {
        if nel == 3 && !alone {
            Ok(npane + 1)
        } else {
            Err(Errcode::ParsingError(String::from_str("layout grammar mismatch")))
        }
    } else {
        if alone {
            if nel == 4 {
                Ok(npane + 1)
            } else {
                Err(Errcode::ParsingError(String::from_str("layout grammar mismatch")))
            }
        } else {
            Ok(npane)
        }
    }
}

} // verus!

