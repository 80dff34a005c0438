//! The planned input events and the event sequence each activity operation
//! emits. An operation's execution is modelled as building the exact list of
//! emulator calls to perform; the caller hands that list to the host's input
//! facility.

use vstd::prelude::*;
use vstd::string::StrSliceExecFns;

verus! {

/// A key the engine presses or releases.
#[derive(Clone, Copy, PartialEq, Eq, Structural, Debug)]
pub enum KeyCode {
    Alt,
    Tab,
    Control,
    Return,
}

/// One call into the host's input-injection facility.
#[derive(Clone, Copy, PartialEq, Eq, Structural, Debug)]
pub enum EmuEvent {
    /// Move the pointer to absolute coordinates.
    PointerMove { x: i32, y: i32 },
    /// A single atomic left-button click.
    ButtonClickLeft,
    /// Press a key and hold it.
    KeyPress { key: KeyCode },
    /// Release a previously pressed key.
    KeyRelease { key: KeyCode },
    /// One vertical scroll event of the given signed magnitude.
    ScrollVertical { delta: i32 },
    /// Insert one literal character, as a single text-insertion call.
    InsertChar { ch: char },
}

/// Move to `(x, y)`, then click: the event plan of a jittered click.
pub open spec fn click_seq(x: i32, y: i32) -> Seq<EmuEvent> {
    seq![EmuEvent::PointerMove { x, y }, EmuEvent::ButtonClickLeft]
}

/// Alt press, Tab press, Alt release, Tab release, in that exact order:
/// the sequence that triggers window cycling.
pub open spec fn switch_window_seq() -> Seq<EmuEvent> {
    seq![
        EmuEvent::KeyPress { key: KeyCode::Alt },
        EmuEvent::KeyPress { key: KeyCode::Tab },
        EmuEvent::KeyRelease { key: KeyCode::Alt },
        EmuEvent::KeyRelease { key: KeyCode::Tab },
    ]
}

/// One Control press, two full Tab press+release pairs with Control held
/// throughout, then one Control release: advances two tabs.
pub open spec fn switch_tab_seq() -> Seq<EmuEvent> {
    seq![
        EmuEvent::KeyPress { key: KeyCode::Control },
        EmuEvent::KeyPress { key: KeyCode::Tab },
        EmuEvent::KeyRelease { key: KeyCode::Tab },
        EmuEvent::KeyPress { key: KeyCode::Tab },
        EmuEvent::KeyRelease { key: KeyCode::Tab },
        EmuEvent::KeyRelease { key: KeyCode::Control },
    ]
}

/// The number of unit scroll events a drawn length produces.
pub open spec fn scroll_count(len: int) -> nat {
    if len >= 0 {
        len as nat
    } else {
        (-len) as nat
    }
}

/// The unit magnitude of each scroll event: the sign of the drawn length.
pub open spec fn scroll_unit(len: int) -> i32 {
    if len >= 0 {
        1i32
    } else {
        -1i32
    }
}

/// `|len|` unit scroll events whose sign matches `len`; none when `len == 0`.
pub open spec fn scroll_unit_seq(len: int) -> Seq<EmuEvent> {
    Seq::new(scroll_count(len), |i: int| EmuEvent::ScrollVertical { delta: scroll_unit(len) })
}

/// The text-insertion event for one character.
pub open spec fn insert_char_event(c: char) -> EmuEvent {
    EmuEvent::InsertChar { ch: c }
}

/// One text-insertion event per character of `s`, in order.
pub open spec fn insert_chars_seq(s: Seq<char>) -> Seq<EmuEvent> {
    Seq::new(s.len(), |i: int| insert_char_event(s[i]))
}

/// The fixed script snippet the typing operation enters.
pub open spec fn code_snippet() -> Seq<char> {
    "const result = 5;"@
}

/// The fixed log statement the typing operation enters after the snippet.
pub open spec fn log_snippet() -> Seq<char> {
    "console.log('Debug => result is => ', result);"@
}

/// Two full Return press+release pairs.
pub open spec fn press_return_twice_seq() -> Seq<EmuEvent> {
    seq![
        EmuEvent::KeyPress { key: KeyCode::Return },
        EmuEvent::KeyRelease { key: KeyCode::Return },
        EmuEvent::KeyPress { key: KeyCode::Return },
        EmuEvent::KeyRelease { key: KeyCode::Return },
    ]
}

/// The whole typing plan: the snippet character by character, Return twice,
/// then the log statement character by character.
pub open spec fn type_code_seq() -> Seq<EmuEvent> {
    insert_chars_seq(code_snippet()) + press_return_twice_seq() + insert_chars_seq(log_snippet())
}

/// For a drawn length, the scroll plan holds exactly `|len|` events, each a
/// unit vertical scroll whose sign matches the sign of `len`; a zero draw
/// emits nothing.
pub proof fn lemma_scroll_count_sign(len: int)
    ensures
        scroll_unit_seq(len).len() == scroll_count(len),
        len >= 0 ==> scroll_unit_seq(len).len() == len,
        len < 0 ==> scroll_unit_seq(len).len() == -len,
        len == 0 ==> scroll_unit_seq(len) == Seq::<EmuEvent>::empty(),
        forall|i: int|
            0 <= i < scroll_unit_seq(len).len() ==> scroll_unit_seq(len)[i] == (EmuEvent::ScrollVertical {
                delta: scroll_unit(len),
            }),
{
    if len == 0 {
        assert(scroll_unit_seq(0) =~= Seq::<EmuEvent>::empty());
    }
}

/// Build the event plan of a click at the jittered position `(x, y)`.
pub fn click_events(x: i32, y: i32) -> (r: Vec<EmuEvent>)
    ensures
        r@ == click_seq(x, y),
{
    let mut r: Vec<EmuEvent> = Vec::new();
    r.push(EmuEvent::PointerMove { x, y });
    r.push(EmuEvent::ButtonClickLeft);
    proof {
        assert(r@ =~= click_seq(x, y));
    }
    r
}

/// Build the window-switch event plan.
pub fn switch_window_events() -> (r: Vec<EmuEvent>)
    ensures
        r@ == switch_window_seq(),
{
    let mut r: Vec<EmuEvent> = Vec::new();
    r.push(EmuEvent::KeyPress { key: KeyCode::Alt });
    r.push(EmuEvent::KeyPress { key: KeyCode::Tab });
    r.push(EmuEvent::KeyRelease { key: KeyCode::Alt });
    r.push(EmuEvent::KeyRelease { key: KeyCode::Tab });
    proof {
        assert(r@ =~= switch_window_seq());
    }
    r
}

/// Build the tab-switch event plan.
pub fn switch_tab_events() -> (r: Vec<EmuEvent>)
    ensures
        r@ == switch_tab_seq(),
{
    let mut r: Vec<EmuEvent> = Vec::new();
    r.push(EmuEvent::KeyPress { key: KeyCode::Control });
    r.push(EmuEvent::KeyPress { key: KeyCode::Tab });
    r.push(EmuEvent::KeyRelease { key: KeyCode::Tab });
    r.push(EmuEvent::KeyPress { key: KeyCode::Tab });
    r.push(EmuEvent::KeyRelease { key: KeyCode::Tab });
    r.push(EmuEvent::KeyRelease { key: KeyCode::Control });
    proof {
        assert(r@ =~= switch_tab_seq());
    }
    r
}

/// Build the unit-step scroll plan for a drawn length: scrolling is emitted
/// as `|len|` single steps so it resembles a human wheel gesture rather than
/// one large delta.
pub fn scroll_step_events(len: i32) -> (r: Vec<EmuEvent>)
    ensures
        r@ == scroll_unit_seq(len as int),
{
    let mut r: Vec<EmuEvent> = Vec::new();
    if len > 0 {
        let mut i: i32 = 0;
        while i < len
            invariant
                0 <= i <= len,
                r@ =~= scroll_unit_seq(len as int).take(i as int),
            decreases len - i,
        {
            r.push(EmuEvent::ScrollVertical { delta: 1 });
            i = i + 1;
        }
        proof {
            assert(scroll_unit_seq(len as int).take(len as int) =~= scroll_unit_seq(len as int));
        }
    } else if len < 0 {
        let count: i64 = -(len as i64);
        let mut i: i64 = 0;
        while i < count
            invariant
                0 <= i <= count,
                count == -(len as int),
                len < 0,
                r@ =~= scroll_unit_seq(len as int).take(i as int),
            decreases count - i,
        {
            r.push(EmuEvent::ScrollVertical { delta: -1 });
            i = i + 1;
        }
        proof {
            assert(scroll_unit_seq(len as int).take(count as int) =~= scroll_unit_seq(len as int));
        }
    }
    proof {
        assert(r@ =~= scroll_unit_seq(len as int));
    }
    r
}

/// Build one text-insertion event per character of `s`, in order.
pub fn insert_text_events(s: &str) -> (r: Vec<EmuEvent>)
    ensures
        r@ == insert_chars_seq(s@),
{
    let n = s.unicode_len();
    let mut r: Vec<EmuEvent> = Vec::new();
    let mut i: usize = 0;
    while i < n
        invariant
            n == s@.len(),
            0 <= i <= n,
            r@ =~= insert_chars_seq(s@).take(i as int),
        decreases n - i,
    {
        let c = s.get_char(i);
        r.push(EmuEvent::InsertChar { ch: c });
        i = i + 1;
    }
    proof {
        assert(insert_chars_seq(s@).take(n as int) =~= insert_chars_seq(s@));
    }
    r
}

/// Build the typing plan: the fixed snippet, Return twice, the fixed log
/// statement, each text character as its own insertion call.
pub fn type_code_events() -> (r: Vec<EmuEvent>)
    ensures
        r@ == type_code_seq(),
{
    let mut r = insert_text_events("const result = 5;");
    r.push(EmuEvent::KeyPress { key: KeyCode::Return });
    r.push(EmuEvent::KeyRelease { key: KeyCode::Return });
    r.push(EmuEvent::KeyPress { key: KeyCode::Return });
    r.push(EmuEvent::KeyRelease { key: KeyCode::Return });
    let mut tail = insert_text_events("console.log('Debug => result is => ', result);");
    r.append(&mut tail);
    proof {
        assert(r@ =~= type_code_seq());
    }
    r
}

} // verus!

