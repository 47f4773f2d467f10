use vstd::prelude::*;
use vstd::string::*;

use crate::event::Event;
use crate::text::{decimal, decimal_string, is_digit, lemma_decimal_injective, lemma_decimal_value};

verus! {

/// What a control does when pressed, or shows.
#[derive(Debug, Clone, Copy, PartialEq, Eq, Structural)]
pub enum ControlKind {
    FastRewind,
    Rewind,
    /// The read-only `page / length` readout.
    Counter,
    Forward,
    FastForward,
    JumpTo,
    Cancel,
}

/// One rendered control.
pub struct Control {
    /// The session-scoped identifier that presses of this control carry.
    pub id: String,
    pub kind: ControlKind,
    /// Text shown on the control; controls without one show an icon.
    pub label: Option<String>,
    pub disabled: bool,
}

/// The meaning of a press on one of a session's controls.
#[derive(Debug, Clone, Copy, PartialEq, Eq, Structural)]
pub enum Press {
    ToStart,
    Previous,
    Next,
    ToEnd,
    /// Ask the user for a page number; the jump comes once it is given.
    OpenJump,
    Cancel,
}

impl Press {
    /// The navigation event that a press stands for; `OpenJump` has none
    /// until a page number is given.
    pub fn into_event<I, E>(self, interaction: I) -> (r: Option<Event<I, E>>)
        ensures
            r == match self {
                Press::ToStart => Some(Event::<I, E>::ToStart(interaction)),
                Press::Previous => Some(Event::<I, E>::Previous(interaction)),
                Press::Next => Some(Event::<I, E>::Next(interaction)),
                Press::ToEnd => Some(Event::<I, E>::ToEnd(interaction)),
                Press::OpenJump => None,
                Press::Cancel => Some(Event::<I, E>::CancelledByUser(interaction)),
            },
    {
        match self {
            Press::ToStart => Some(Event::ToStart(interaction)),
            Press::Previous => Some(Event::Previous(interaction)),
            Press::Next => Some(Event::Next(interaction)),
            Press::ToEnd => Some(Event::ToEnd(interaction)),
            Press::OpenJump => None,
            Press::Cancel => Some(Event::CancelledByUser(interaction)),
        }
    }
}

/// The identifier of the control `name` in session `session`.
pub open spec fn control_id(session: nat, name: Seq<char>) -> Seq<char> {
    decimal(session) + "_"@ + name
}

/// The counter readout: the one-based page, then the number of pages.
pub open spec fn counter_label(index: nat, length: nat) -> Seq<char> {
    decimal(index + 1) + " / "@ + decimal(length)
}

/// `c` is the control with this identifier, kind, label and disabled flag.
pub open spec fn control_is(
    c: Control,
    id: Seq<char>,
    kind: ControlKind,
    label: Option<Seq<char>>,
    disabled: bool,
) -> bool {
    &&& c.id@ == id
    &&& c.kind == kind
    &&& c.disabled == disabled
    &&& match label {
        None => c.label is None,
        Some(l) => c.label matches Some(t) && t@ == l,
    }
}

/// Rewind-class controls are off on the first page, and all are off once
/// the session is over.
pub open spec fn back_disabled(index: nat, disable_all: bool) -> bool {
    disable_all || index == 0
}

/// Forward-class controls are off on the last page, and all are off once
/// the session is over.
pub open spec fn forward_disabled(index: nat, length: nat, disable_all: bool) -> bool {
    disable_all || index + 1 == length
}

fn make_id(session: u64, name: &str) -> (r: String)
    ensures
        r@ == control_id(session as nat, name@),
{
    let mut s = decimal_string(session as u128);
    s.append("_");
    s.append(name);
    s
}

fn counter_text(index: usize, length: usize) -> (r: String)
    ensures
        r@ == counter_label(index as nat, length as nat),
{
    let mut s = decimal_string(index as u128 + 1);
    s.append(" / ");
    s.append(decimal_string(length as u128).as_str());
    s
}

fn control(id: &String, kind: ControlKind, label: Option<String>, disabled: bool) -> (r: Control)
    ensures
        r == (Control { id: *id, kind, label, disabled }),
{
    Control { id: id.clone(), kind, label, disabled }
}

/// Two control identifiers are equal only when they belong to the same
/// session and name the same control.
pub proof fn lemma_control_ids_unique(s1: nat, s2: nat, a: Seq<char>, b: Seq<char>)
    ensures
        control_id(s1, a) == control_id(s2, b) ==> s1 == s2 && a == b,
{
    reveal_strlit("_");
    let d1 = decimal(s1);
    let d2 = decimal(s2);
    let x = control_id(s1, a);
    let y = control_id(s2, b);
    lemma_decimal_value(s1);
    lemma_decimal_value(s2);
    if x == y {
        if d1.len() < d2.len() {
            assert(x[d1.len() as int] == '_');
            assert(y[d1.len() as int] == d2[d1.len() as int]);
            assert(is_digit(d2[d1.len() as int]));
        } else if d2.len() < d1.len() {
            assert(y[d2.len() as int] == '_');
            assert(x[d2.len() as int] == d1[d2.len() as int]);
            assert(is_digit(d1[d2.len() as int]));
        } else {
            assert(d1 =~= x.subrange(0, d1.len() as int));
            assert(d2 =~= y.subrange(0, d2.len() as int));
            assert(a =~= x.subrange(d1.len() as int + 1, x.len() as int));
            assert(b =~= y.subrange(d2.len() as int + 1, y.len() as int));
            lemma_decimal_injective(s1, s2);
        }
    }
}

/// The full set of controls: a navigation row with a page counter, and a row
/// with jump-to-page and cancel.
pub struct DefaultView;

impl DefaultView {
    /// The names of the controls, in the order of their identifiers.
    pub open spec fn names() -> Seq<Seq<char>> {
        seq![
            "fast_rewind"@,
            "rewind"@,
            "counter"@,
            "forward"@,
            "fast_forward"@,
            "jump_to"@,
            "cancel"@,
        ]
    }

    /// What a press carrying `id` means, given the session's identifiers.
    pub open spec fn classify(ids: Seq<String>, id: Seq<char>) -> Option<Press> {
        if id == ids[0]@ {
            Some(Press::ToStart)
        } else if id == ids[1]@ {
            Some(Press::Previous)
        } else if id == ids[3]@ {
            Some(Press::Next)
        } else if id == ids[4]@ {
            Some(Press::ToEnd)
        } else if id == ids[5]@ {
            Some(Press::OpenJump)
        } else if id == ids[6]@ {
            Some(Press::Cancel)
        } else {
            None
        }
    }

    /// Identifiers made by `create_ids` never collide: not between two
    /// sessions, and not between two controls of one session.
    pub proof fn lemma_ids_unique(s1: u64, s2: u64, j: int, k: int)
        requires
            0 <= j < Self::names().len(),
            0 <= k < Self::names().len(),
        ensures
            control_id(s1 as nat, Self::names()[j]) == control_id(s2 as nat, Self::names()[k])
                ==> s1 == s2 && j == k,
    {
        reveal_strlit("fast_rewind");
        reveal_strlit("rewind");
        reveal_strlit("counter");
        reveal_strlit("forward");
        reveal_strlit("fast_forward");
        reveal_strlit("jump_to");
        reveal_strlit("cancel");
        lemma_control_ids_unique(s1 as nat, s2 as nat, Self::names()[j], Self::names()[k]);
        if Self::names()[j] == Self::names()[k] && j != k {
            assert(Self::names()[j][0] == Self::names()[k][0]);
            assert(Self::names()[j].len() == Self::names()[k].len());
            assert(Self::names()[j][5] == Self::names()[k][5]);
        }
    }

    /// The identifiers of the session's controls, each the session number
    /// followed by the control's name.
    pub fn create_ids(session: u64) -> (r: Vec<String>)
        ensures
            r@.len() == Self::names().len(),
            forall|k: int| 0 <= k < r@.len() ==> #[trigger] r@[k]@ == control_id(session as nat, Self::names()[k]),
    {
        let mut r: Vec<String> = Vec::new();
        r.push(make_id(session, "fast_rewind"));
        r.push(make_id(session, "rewind"));
        r.push(make_id(session, "counter"));
        r.push(make_id(session, "forward"));
        r.push(make_id(session, "fast_forward"));
        r.push(make_id(session, "jump_to"));
        r.push(make_id(session, "cancel"));
        r
    }

    /// The controls for page `current_idx` of `length`.
    pub fn rerender_components(
        ids: &Vec<String>,
        current_idx: usize,
        length: usize,
        disable_all: bool,
    ) -> (r: Vec<Vec<Control>>)
        requires
            ids@.len() == Self::names().len(),
            current_idx < length,
        ensures
            r@.len() == 2,
            r@[0]@.len() == 5,
            r@[1]@.len() == 2,
            control_is(r@[0]@[0], ids@[0]@, ControlKind::FastRewind, None,
                back_disabled(current_idx as nat, disable_all)),
            control_is(r@[0]@[1], ids@[1]@, ControlKind::Rewind, None,
                back_disabled(current_idx as nat, disable_all)),
            control_is(r@[0]@[2], ids@[2]@, ControlKind::Counter,
                Some(counter_label(current_idx as nat, length as nat)), true),
            control_is(r@[0]@[3], ids@[3]@, ControlKind::Forward, None,
                forward_disabled(current_idx as nat, length as nat, disable_all)),
            control_is(r@[0]@[4], ids@[4]@, ControlKind::FastForward, None,
                forward_disabled(current_idx as nat, length as nat, disable_all)),
            control_is(r@[1]@[0], ids@[5]@, ControlKind::JumpTo, Some("Jump to page"@), disable_all),
            control_is(r@[1]@[1], ids@[6]@, ControlKind::Cancel, Some("Cancel"@), disable_all),
    {
        let back = disable_all || current_idx == 0;
        let forward = disable_all || current_idx == length - 1;
        let mut nav: Vec<Control> = Vec::new();
        nav.push(control(&ids[0], ControlKind::FastRewind, None, back));
        nav.push(control(&ids[1], ControlKind::Rewind, None, back));
        nav.push(control(&ids[2], ControlKind::Counter, Some(counter_text(current_idx, length)), true));
        nav.push(control(&ids[3], ControlKind::Forward, None, forward));
        nav.push(control(&ids[4], ControlKind::FastForward, None, forward));
        let mut actions: Vec<Control> = Vec::new();
        actions.push(control(&ids[5], ControlKind::JumpTo, Some(String::from_str("Jump to page")), disable_all));
        actions.push(control(&ids[6], ControlKind::Cancel, Some(String::from_str("Cancel")), disable_all));
        let mut r: Vec<Vec<Control>> = Vec::new();
        r.push(nav);
        r.push(actions);
        r
    }

    /// What a press carrying `custom_id` means; `None` for an identifier that
    /// names no pressable control of the session.
    pub fn on_button_press(ids: &Vec<String>, custom_id: &String) -> (r: Option<Press>)
        requires
            ids@.len() == Self::names().len(),
        ensures
            r == Self::classify(ids@, custom_id@),
    {
        if *custom_id == ids[0] {
            Some(Press::ToStart)
        } else if *custom_id == ids[1] {
            Some(Press::Previous)
        } else if *custom_id == ids[3] {
            Some(Press::Next)
        } else if *custom_id == ids[4] {
            Some(Press::ToEnd)
        } else if *custom_id == ids[5] {
            Some(Press::OpenJump)
        } else if *custom_id == ids[6] {
            Some(Press::Cancel)
        } else {
            None
        }
    }
}

/// A single row: rewind, page counter, forward.
pub struct MinimalView;

impl MinimalView {
    /// The names of the controls, in the order of their identifiers.
    pub open spec fn names() -> Seq<Seq<char>> {
        seq!["rewind"@, "counter"@, "forward"@]
    }

    /// What a press carrying `id` means, given the session's identifiers.
    pub open spec fn classify(ids: Seq<String>, id: Seq<char>) -> Option<Press> {
        if id == ids[0]@ {
            Some(Press::Previous)
        } else if id == ids[2]@ {
            Some(Press::Next)
        } else {
            None
        }
    }

    /// The identifiers of the session's controls, each the session number
    /// followed by the control's name.
    pub fn create_ids(session: u64) -> (r: Vec<String>)
        ensures
            r@.len() == Self::names().len(),
            forall|k: int| 0 <= k < r@.len() ==> #[trigger] r@[k]@ == control_id(session as nat, Self::names()[k]),
    {
        let mut r: Vec<String> = Vec::new();
        r.push(make_id(session, "rewind"));
        r.push(make_id(session, "counter"));
        r.push(make_id(session, "forward"));
        r
    }

    /// The controls for page `current_idx` of `length`.
    pub fn rerender_components(
        ids: &Vec<String>,
        current_idx: usize,
        length: usize,
        disable_all: bool,
    ) -> (r: Vec<Vec<Control>>)
        requires
            ids@.len() == Self::names().len(),
            current_idx < length,
        ensures
            r@.len() == 1,
            r@[0]@.len() == 3,
            control_is(r@[0]@[0], ids@[0]@, ControlKind::Rewind, None,
                back_disabled(current_idx as nat, disable_all)),
            control_is(r@[0]@[1], ids@[1]@, ControlKind::Counter,
                Some(counter_label(current_idx as nat, length as nat)), true),
            control_is(r@[0]@[2], ids@[2]@, ControlKind::Forward, None,
                forward_disabled(current_idx as nat, length as nat, disable_all)),
    {
        let back = disable_all || current_idx == 0;
        let forward = disable_all || current_idx == length - 1;
        let mut nav: Vec<Control> = Vec::new();
        nav.push(control(&ids[0], ControlKind::Rewind, None, back));
        nav.push(control(&ids[1], ControlKind::Counter, Some(counter_text(current_idx, length)), true));
        nav.push(control(&ids[2], ControlKind::Forward, None, forward));
        let mut r: Vec<Vec<Control>> = Vec::new();
        r.push(nav);
        r
    }

    /// What a press carrying `custom_id` means; `None` for an identifier that
    /// names no pressable control of the session.
    pub fn on_button_press(ids: &Vec<String>, custom_id: &String) -> (r: Option<Press>)
        requires
            ids@.len() == Self::names().len(),
        ensures
            r == Self::classify(ids@, custom_id@),
    {
        if *custom_id == ids[0] {
            Some(Press::Previous)
        } else if *custom_id == ids[2] {
            Some(Press::Next)
        } else {
            None
        }
    }
}

} // verus!
