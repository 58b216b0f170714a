//! ACPI event actions and the handler scripts that register this tool
//! with the event daemon.

use vstd::prelude::*;
use vstd::string::*;

verus! {

/// The names of the two hotkey events, as the configuration file gives
/// them.
#[derive(Debug, Clone)]
pub struct AcpiEventsConfig {
    pub brightness_up: String,
    pub brightness_down: String,
}

/// A request carried by an ACPI event: one brightness step in either
/// direction.
#[derive(Debug, Clone, Copy, PartialEq, Eq, Structural)]
pub enum AcpiEventAction {
    BrightnessUp,
    BrightnessDown,
}

/// Why an action identifier was refused: it named neither direction.
#[derive(Debug, Clone, Copy, PartialEq, Eq, Structural)]
pub enum ActionError {
    InvalidAction,
}

/// Why a handler-script operation failed.
#[derive(Debug, Clone, Copy, PartialEq, Eq, Structural)]
pub enum ScriptError {
    WriteFailed,
    ReloadFailed,
}

/// `c` spells the lower-case letter `lower`, in either case.
pub open spec fn spells_letter(c: char, lower: char) -> bool {
    c == lower || c as u32 + 32 == lower as u32
}

/// The action named by an identifier: "up" and "down", in any mix of
/// letter cases, and nothing else.
pub open spec fn action_of(s: Seq<char>) -> Option<AcpiEventAction> {
    if s.len() == 2 && spells_letter(s[0], 'u') && spells_letter(s[1], 'p') {
        Some(AcpiEventAction::BrightnessUp)
    } else if s.len() == 4 && spells_letter(s[0], 'd') && spells_letter(s[1], 'o')
        && spells_letter(s[2], 'w') && spells_letter(s[3], 'n') {
        Some(AcpiEventAction::BrightnessDown)
    } else {
        None
    }
}

/// `a` and `b` are the same character up to ASCII letter case.
pub open spec fn chars_equal_ci(a: char, b: char) -> bool {
    a == b || (65 <= a as u32 <= 90 && a as u32 + 32 == b as u32) || (65 <= b as u32 <= 90
        && b as u32 + 32 == a as u32)
}

proof fn lemma_spells_equal_ci(a: char, b: char, lower: char)
    requires
        chars_equal_ci(a, b),
        97 <= lower as u32 <= 122,
    ensures
        spells_letter(a, lower) == spells_letter(b, lower),
{
    vstd::utf8::char_u32_cast(a, a as u32);
    vstd::utf8::char_u32_cast(b, b as u32);
    vstd::utf8::char_u32_cast(lower, lower as u32);
}

/// Action parsing is case-insensitive: two identifiers whose characters
/// differ only in ASCII letter case name the same action.
pub proof fn lemma_action_parse_case_insensitive(s: Seq<char>, t: Seq<char>)
    requires
        s.len() == t.len(),
        forall|i: int| 0 <= i < s.len() ==> chars_equal_ci(s[i], #[trigger] t[i]),
    ensures
        action_of(s) == action_of(t),
{
    assert forall|i: int, lower: char|
        0 <= i < s.len() && 97 <= (lower as u32) <= 122 implies (spells_letter(s[i], lower)
        <==> #[trigger] spells_letter(t[i], lower)) by {
        lemma_spells_equal_ci(s[i], t[i], lower);
    }
}

fn spells(c: char, lower: char) -> (r: bool)
    ensures
        r == spells_letter(c, lower),
{
    c == lower || (c as u32) + 32 == lower as u32
}

impl AcpiEventAction {
    /// Parses an action identifier: "up" and "down" in any letter case
    /// name a step; anything else is refused.
    pub fn from_str(s: &str) -> (r: Result<AcpiEventAction, ActionError>)
        ensures
            match r {
                Ok(action) => action_of(s@) == Some(action),
                Err(e) => e == ActionError::InvalidAction && action_of(s@) is None,
            },
    {
        let len = s.unicode_len();
        if len == 2 {
            if spells(s.get_char(0), 'u') && spells(s.get_char(1), 'p') {
                return Ok(AcpiEventAction::BrightnessUp);
            }
        } else if len == 4 {
            if spells(s.get_char(0), 'd') && spells(s.get_char(1), 'o') && spells(
                s.get_char(2),
                'w',
            ) && spells(s.get_char(3), 'n') {
                return Ok(AcpiEventAction::BrightnessDown);
            }
        }
        Err(ActionError::InvalidAction)
    }
}

/// One handler script for the event daemon: written under `event_name`
/// in the daemon's events directory, it runs the action command when the
/// event with `event_code` fires.
#[derive(Debug, Clone)]
pub struct EventScript {
    pub event_name: String,
    pub event_code: String,
    pub action_command: String,
    pub action_args: String,
}

/// The fixed two-line handler-script text: the event line, the action
/// line, a trailing newline and nothing else.
pub open spec fn event_script_text(
    event_code: Seq<char>,
    action_command: Seq<char>,
    action_args: Seq<char>,
) -> Seq<char> {
    "event="@ + event_code + "\naction="@ + action_command + " "@ + action_args + "\n"@
}

impl EventScript {
    /// Renders the script text that is written into the events
    /// directory.
    pub fn render(&self) -> (r: String)
        ensures
            r@ == event_script_text(
                self.event_code@,
                self.action_command@,
                self.action_args@,
            ),
    {
        let r = "event=".to_owned().concat(self.event_code.as_str()).concat(
            "\naction=",
        ).concat(self.action_command.as_str()).concat(" ").concat(
            self.action_args.as_str(),
        ).concat("\n");
        proof {
            assert(r@ =~= event_script_text(
                self.event_code@,
                self.action_command@,
                self.action_args@,
            ));
        }
        r
    }
}

} // verus!
