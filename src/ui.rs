//! The state behind the demonstration window of the UI variant: a name and an
//! age, changed by a text field and a slider bounded to 0..=120.

use vstd::prelude::*;

use crate::text::{decimal, push_decimal};

verus! {

/// The largest age the slider allows.
pub const MAX_AGE: u32 = 120;

/// What the user did in one frame.
#[derive(Debug)]
pub enum UiInput {
    /// The name field now holds this text.
    EditName(String),
    /// The slider was dragged towards this value, possibly out of range.
    DragAge(i64),
    /// The button was pressed.
    Click,
}

/// The application state edited through the window.
#[derive(Debug)]
pub struct AppState {
    pub name: String,
    pub age: u32,
}

/// `v` held to the slider's range.
pub open spec fn clamp_age(v: int) -> u32 {
    if v < 0 {
        0
    } else if v > MAX_AGE {
        MAX_AGE
    } else {
        v as u32
    }
}

/// The label shown under the widgets.
pub open spec fn greeting_text(name: Seq<char>, age: u32) -> Seq<char> {
    "Hello '"@ + name + "', age "@ + decimal(age as nat)
}

/// The line printed when the button is pressed.
pub open spec fn click_text() -> Seq<char> {
    "Button clicked!"@
}

impl AppState {
    /// The age lies within the slider's range.
    pub open spec fn wf(&self) -> bool {
        self.age <= MAX_AGE
    }

    /// A state with `name` and `age` held to the slider's range.
    pub fn new(name: String, age: i64) -> (s: AppState)
        ensures
            s.wf(),
            s.name@ == name@,
            s.age == clamp_age(age as int),
    {
        AppState { name, age: clamp(age) }
    }

    /// Sets the age as the slider does: a value outside 0..=120 is held to
    /// the nearest end.
    pub fn set_age(&mut self, v: i64)
        ensures
            final(self).wf(),
            final(self).age == clamp_age(v as int),
            final(self).name@ == old(self).name@,
    {
        self.age = clamp(v);
    }

    /// Applies one user action. The button prints a line and changes nothing.
    pub fn update(&mut self, input: UiInput) -> (printed: Option<String>)
        requires
            old(self).wf(),
        ensures
            final(self).wf(),
            match input {
                UiInput::EditName(n) => {
                    &&& final(self).name@ == n@
                    &&& final(self).age == old(self).age
                    &&& printed is None
                },
                UiInput::DragAge(v) => {
                    &&& final(self).name@ == old(self).name@
                    &&& final(self).age == clamp_age(v as int)
                    &&& printed is None
                },
                UiInput::Click => {
                    &&& final(self).name@ == old(self).name@
                    &&& final(self).age == old(self).age
                    &&& printed matches Some(line) && line@ == click_text()
                },
            },
    {
        match input {
            UiInput::EditName(n) => {
                self.name = n;
                None
            },
            UiInput::DragAge(v) => {
                self.set_age(v);
                None
            },
            UiInput::Click => Some(String::from_str("Button clicked!")),
        }
    }

    /// The label `Hello '<name>', age <age>`.
    pub fn greeting(&self) -> (r: String)
        ensures
            r@ == greeting_text(self.name@, self.age),
    {
        let mut r = String::from_str("Hello '");
        r.append(self.name.as_str());
        r.append("', age ");
        push_decimal(&mut r, self.age as u64);
        r
    }
}

/// Whatever value the slider is pushed towards, the age it holds lies in
/// 0..=120, and a value already in that range is kept as it is.
pub proof fn lemma_age_stays_in_range(v: int)
    ensures
        clamp_age(v) <= MAX_AGE,
        0 <= v <= MAX_AGE ==> clamp_age(v) == v,
{
}

fn clamp(v: i64) -> (r: u32)
    ensures
        r == clamp_age(v as int),
{
    if v < 0 {
        0
    } else if v > MAX_AGE as i64 {
        MAX_AGE
    } else {
        v as u32
    }
}

} // verus!
