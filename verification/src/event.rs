//! Input events and their canonical textual form.

use vstd::prelude::*;
use vstd::std_specs::convert::TryFromSpecImpl;
use vstd::string::StringExecFns;

verus! {

/// A logical input event: one of the three push buttons or one of the five
/// joystick contacts.
#[derive(Debug, Clone, Copy, PartialEq, Eq, Hash, Structural)]
pub enum WrappedEvent {
    Button1Press,
    Button2Press,
    Button3Press,
    JoystickUp,
    JoystickDown,
    JoystickLeft,
    JoystickRight,
    JoystickPressed,
}

/// The error of parsing a text that is not the canonical form of any event.
#[derive(Debug, Clone, Copy, PartialEq, Eq, Structural)]
pub struct InvalidEvent;

/// The event whose canonical text is `text`, if there is one.
pub open spec fn parse_event(text: Seq<char>) -> Option<WrappedEvent> {
    if text == "button1"@ {
        Some(WrappedEvent::Button1Press)
    } else if text == "button2"@ {
        Some(WrappedEvent::Button2Press)
    } else if text == "button3"@ {
        Some(WrappedEvent::Button3Press)
    } else if text == "joystick_up"@ {
        Some(WrappedEvent::JoystickUp)
    } else if text == "joystick_down"@ {
        Some(WrappedEvent::JoystickDown)
    } else if text == "joystick_left"@ {
        Some(WrappedEvent::JoystickLeft)
    } else if text == "joystick_right"@ {
        Some(WrappedEvent::JoystickRight)
    } else if text == "joystick_pressed"@ {
        Some(WrappedEvent::JoystickPressed)
    } else {
        None
    }
}

impl WrappedEvent {
    /// The canonical text of the event: lower case, words joined by `_`.
    pub open spec fn text(self) -> Seq<char> {
        match self {
            WrappedEvent::Button1Press => "button1"@,
            WrappedEvent::Button2Press => "button2"@,
            WrappedEvent::Button3Press => "button3"@,
            WrappedEvent::JoystickUp => "joystick_up"@,
            WrappedEvent::JoystickDown => "joystick_down"@,
            WrappedEvent::JoystickLeft => "joystick_left"@,
            WrappedEvent::JoystickRight => "joystick_right"@,
            WrappedEvent::JoystickPressed => "joystick_pressed"@,
        }
    }

    /// The canonical text as a string slice.
    pub fn as_str(&self) -> (s: &'static str)
        ensures
            s@ == self.text(),
    {
        match self {
            WrappedEvent::Button1Press => "button1",
            WrappedEvent::Button2Press => "button2",
            WrappedEvent::Button3Press => "button3",
            WrappedEvent::JoystickUp => "joystick_up",
            WrappedEvent::JoystickDown => "joystick_down",
            WrappedEvent::JoystickLeft => "joystick_left",
            WrappedEvent::JoystickRight => "joystick_right",
            WrappedEvent::JoystickPressed => "joystick_pressed",
        }
    }

    /// The canonical text as an owned string.
    pub fn to_string(&self) -> (s: String)
        ensures
            s@ == self.text(),
    {
        String::from_str(self.as_str())
    }

    /// All eight events, in declaration order.
    pub fn all() -> (events: Vec<WrappedEvent>)
        ensures
            events@ == all_events(),
    {
        let events = vec![
            WrappedEvent::Button1Press,
            WrappedEvent::Button2Press,
            WrappedEvent::Button3Press,
            WrappedEvent::JoystickUp,
            WrappedEvent::JoystickDown,
            WrappedEvent::JoystickLeft,
            WrappedEvent::JoystickRight,
            WrappedEvent::JoystickPressed,
        ];
        assert(events@ =~= all_events());
        events
    }
}

/// The eight events in declaration order.
pub open spec fn all_events() -> Seq<WrappedEvent> {
    seq![
        WrappedEvent::Button1Press,
        WrappedEvent::Button2Press,
        WrappedEvent::Button3Press,
        WrappedEvent::JoystickUp,
        WrappedEvent::JoystickDown,
        WrappedEvent::JoystickLeft,
        WrappedEvent::JoystickRight,
        WrappedEvent::JoystickPressed,
    ]
}

/// Whether two string slices hold the same characters.
fn same_text(a: &str, b: &str) -> (same: bool)
    ensures
        same == (a@ == b@),
{
    String::from_str(a) == String::from_str(b)
}

impl TryFrom<&str> for WrappedEvent {
    type Error = InvalidEvent;

    /// Parses the canonical text of an event. Any other text, including one
    /// that differs only in case or surrounding blanks, is refused.
    fn try_from(value: &str) -> (parsed: Result<WrappedEvent, InvalidEvent>)
        ensures
            parsed == match parse_event(value@) {
                Some(event) => Ok::<WrappedEvent, InvalidEvent>(event),
                None => Err::<WrappedEvent, InvalidEvent>(InvalidEvent),
            },
    {
        if same_text(value, "button1") {
            Ok(WrappedEvent::Button1Press)
        } else if same_text(value, "button2") {
            Ok(WrappedEvent::Button2Press)
        } else if same_text(value, "button3") {
            Ok(WrappedEvent::Button3Press)
        } else if same_text(value, "joystick_up") {
            Ok(WrappedEvent::JoystickUp)
        } else if same_text(value, "joystick_down") {
            Ok(WrappedEvent::JoystickDown)
        } else if same_text(value, "joystick_left") {
            Ok(WrappedEvent::JoystickLeft)
        } else if same_text(value, "joystick_right") {
            Ok(WrappedEvent::JoystickRight)
        } else if same_text(value, "joystick_pressed") {
            Ok(WrappedEvent::JoystickPressed)
        } else {
            Err(InvalidEvent)
        }
    }
}

impl TryFromSpecImpl<&str> for WrappedEvent {
    open spec fn obeys_try_from_spec() -> bool {
        true
    }

    open spec fn try_from_spec(value: &str) -> Result<WrappedEvent, InvalidEvent> {
        match parse_event(value@) {
            Some(event) => Ok(event),
            None => Err(InvalidEvent),
        }
    }
}

/// Reveals the characters of the eight canonical texts.
proof fn reveal_texts()
    ensures
        "button1"@ =~= seq!['b', 'u', 't', 't', 'o', 'n', '1'],
        "button2"@ =~= seq!['b', 'u', 't', 't', 'o', 'n', '2'],
        "button3"@ =~= seq!['b', 'u', 't', 't', 'o', 'n', '3'],
        "joystick_up"@.len() == 11,
        "joystick_down"@.len() == 13,
        "joystick_down"@[9] == 'd',
        "joystick_left"@.len() == 13,
        "joystick_left"@[9] == 'l',
        "joystick_right"@.len() == 14,
        "joystick_pressed"@.len() == 16,
{
    reveal_strlit("button1");
    reveal_strlit("button2");
    reveal_strlit("button3");
    reveal_strlit("joystick_up");
    reveal_strlit("joystick_down");
    reveal_strlit("joystick_left");
    reveal_strlit("joystick_right");
    reveal_strlit("joystick_pressed");
}

/// Parsing the canonical text of an event gives that event back.
pub proof fn lemma_parse_of_text(event: WrappedEvent)
    ensures
        parse_event(event.text()) == Some(event),
{
    reveal_texts();
}

/// A text that parses is the canonical text of the event it parses to, so
/// formatting the parsed event gives the text back.
pub proof fn lemma_text_of_parse(text: Seq<char>)
    requires
        parse_event(text) is Some,
    ensures
        parse_event(text)->Some_0.text() == text,
{
}

/// A text parses exactly when it is the canonical text of some event, and
/// then to that event alone.
pub proof fn lemma_parse_iff_text(text: Seq<char>, event: WrappedEvent)
    ensures
        parse_event(text) == Some(event) <==> text == event.text(),
{
    reveal_texts();
}

} // verus!
