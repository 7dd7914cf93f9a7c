use crate::bot::error::AppError;
use vstd::prelude::*;
use vstd::std_specs::convert::FromSpecImpl;
use vstd::string::StringExecFns;

verus! {

/// The lower-case form of `text`, as `str::to_lowercase` gives it.
pub uninterp spec fn lowercase(text: Seq<char>) -> Seq<char>;

/// Calls `str::to_lowercase`, which maps every character to its lower-case form.
#[verifier::external_body]
pub(crate) fn to_lowercase(text: &str) -> (lower: String)
    ensures
        lower@ == lowercase(text@),
{
    text.to_lowercase()
}

/// Whether two texts are the same.
pub fn same(left: &str, right: &str) -> (equal: bool)
    ensures
        equal == (left@ == right@),
{
    String::from_str(left) == String::from_str(right)
}

/// A button of the bot's menu, with what it shows when pressed.
#[derive(Debug, PartialEq, Eq)]
pub enum KeyboardButton {
    Student { message: &'static str },
    Contacts { message: &'static str },
    Technologies { message: &'static str },
    Back,
    UNKNOWN,
}

/// The greeting that goes with the menu when the way back is taken.
pub const MENU_GREETING: &'static str = "\u{f0}\u{178}\u{a4} Welcome \n\u{f0}\u{178}\u{178}\u{a2} Choose one of the following options \n\u{f0}\u{178}\u{201d}\u{b5} Write a message to Groq LLM\u{f0}\u{178}\u{a4}\u{2013}(It should not started with '/')";

/// The greeting that goes with the menu when the bot is started.
pub const START_GREETING: &'static str = "\u{1f91d} Welcome \n\u{1f7e2} Choose one of the following options \n\u{1f535} Write a message to Groq LLM\u{1f916}(It should not started with '/')";

/// The greeting that goes with the menu after an unknown button.
pub const PLAIN_GREETING: &'static str = "Welcome ^^ \nChoose one of the following commands";

/// The words that stand before an answer of the language model.
pub const REPLY_HEADING: &'static str = "<b>Groq reply\u{1f916}</b> \n\n";

/// One button as it is shown: its caption, and what it sends back when pressed.
#[derive(Debug, PartialEq, Eq)]
pub struct Button {
    pub text: String,
    pub data: String,
}

/// Which keyboard goes under a message.
#[derive(Debug, Clone, Copy, PartialEq, Eq, Structural)]
pub enum Keyboard {
    Menu,
    Back,
}

/// What the bot does when a button is pressed.
#[derive(Debug, PartialEq, Eq)]
pub enum Press {
    /// The message that carried the button is rewritten to `text`, with `keyboard` under
    /// it; where `remember` holds, it is noted as the user's menu.
    Edit { text: &'static str, keyboard: Keyboard, remember: bool },
    /// A new message `text` is sent, with `keyboard` under it.
    Send { text: &'static str, keyboard: Keyboard },
}

impl KeyboardButton {
    /// The button that the lower-case name `name` stands for.
    pub open spec fn named(name: Seq<char>) -> KeyboardButton {
        if name == "student"@ {
            KeyboardButton::Student { message: "Vorobei Anton IA-11" }
        } else if name == "it-technologies"@ {
            KeyboardButton::Technologies { message: "Embedded/System/Blockchain software developer" }
        } else if name == "contacts"@ {
            KeyboardButton::Contacts { message: "Email: example@example.com\nPhone: +380505050505" }
        } else if name == "back"@ {
            KeyboardButton::Back
        } else {
            KeyboardButton::UNKNOWN
        }
    }

    /// The caption of this button.
    pub open spec fn caption(self) -> Seq<char> {
        match self {
            KeyboardButton::Student { .. } => "Student"@,
            KeyboardButton::Technologies { .. } => "IT-Technologies"@,
            KeyboardButton::Contacts { .. } => "Contacts"@,
            KeyboardButton::Back => "Back"@,
            KeyboardButton::UNKNOWN => "unknown"@,
        }
    }

    /// What pressing this button leads to.
    pub open spec fn pressed(self) -> Press {
        match self {
            KeyboardButton::Student { message } => Press::Edit { text: message, keyboard: Keyboard::Back, remember: false },
            KeyboardButton::Contacts { message } => Press::Edit { text: message, keyboard: Keyboard::Back, remember: false },
            KeyboardButton::Technologies { message } => Press::Edit {
                text: message,
                keyboard: Keyboard::Back,
                remember: false,
            },
            KeyboardButton::Back => Press::Edit { text: MENU_GREETING, keyboard: Keyboard::Menu, remember: true },
            KeyboardButton::UNKNOWN => Press::Send { text: PLAIN_GREETING, keyboard: Keyboard::Menu },
        }
    }

    /// The button that the lower-case name `name` stands for.
    pub fn of_lowercase(name: &str) -> (button: KeyboardButton)
        ensures
            button == KeyboardButton::named(name@),
    {
        if same(name, "student") {
            KeyboardButton::Student { message: "Vorobei Anton IA-11" }
        } else if same(name, "it-technologies") {
            KeyboardButton::Technologies { message: "Embedded/System/Blockchain software developer" }
        } else if same(name, "contacts") {
            KeyboardButton::Contacts { message: "Email: example@example.com\nPhone: +380505050505" }
        } else if same(name, "back") {
            KeyboardButton::Back
        } else {
            KeyboardButton::UNKNOWN
        }
    }

    /// The caption of this button.
    pub fn label(&self) -> (caption: &'static str)
        ensures
            caption@ == self.caption(),
    {
        match self {
            KeyboardButton::Student { .. } => "Student",
            KeyboardButton::Technologies { .. } => "IT-Technologies",
            KeyboardButton::Contacts { .. } => "Contacts",
            KeyboardButton::Back => "Back",
            KeyboardButton::UNKNOWN => "unknown",
        }
    }

    /// What the bot does when this button is pressed in a callback that carries its
    /// message, as `has_message` says; without the message nothing can be done.
    pub fn press(&self, has_message: bool) -> (action: Result<Press, AppError>)
        ensures
            match action {
                Ok(press) => has_message && press == self.pressed(),
                Err(error) => !has_message && (error matches AppError::Bot(detail) && detail@
                    == "There isn't message in CallbackQuery"@),
            },
    {
        if !has_message {
            return Err(AppError::Bot(String::from_str("There isn't message in CallbackQuery")));
        }
        Ok(
            match self {
                KeyboardButton::Student { message } => Press::Edit {
                    text: *message,
                    keyboard: Keyboard::Back,
                    remember: false,
                },
                KeyboardButton::Contacts { message } => Press::Edit {
                    text: *message,
                    keyboard: Keyboard::Back,
                    remember: false,
                },
                KeyboardButton::Technologies { message } => Press::Edit {
                    text: *message,
                    keyboard: Keyboard::Back,
                    remember: false,
                },
                KeyboardButton::Back => Press::Edit { text: MENU_GREETING, keyboard: Keyboard::Menu, remember: true },
                KeyboardButton::UNKNOWN => Press::Send { text: PLAIN_GREETING, keyboard: Keyboard::Menu },
            },
        )
    }
}

impl<'a> FromSpecImpl<&'a str> for KeyboardButton {
    open spec fn obeys_from_spec() -> bool {
        true
    }

    open spec fn from_spec(value: &'a str) -> KeyboardButton {
        KeyboardButton::named(lowercase(value@))
    }
}

impl<'a> From<&'a str> for KeyboardButton {
    /// The button that `value` names, whatever the case of its letters.
    fn from(value: &'a str) -> (button: KeyboardButton) {
        let name = to_lowercase(value);
        KeyboardButton::of_lowercase(name.as_str())
    }
}

impl FromSpecImpl<KeyboardButton> for &'static str {
    open spec fn obeys_from_spec() -> bool {
        false
    }

    open spec fn from_spec(button: KeyboardButton) -> &'static str {
        arbitrary()
    }
}

impl From<KeyboardButton> for &'static str {
    /// The caption of `button`.
    fn from(button: KeyboardButton) -> (caption: &'static str)
        ensures
            caption@ == button.caption(),
    {
        button.label()
    }
}

/// One row with one button whose caption is also what it sends back.
pub fn row_of(caption: &str) -> (row: Vec<Button>)
    ensures
        row@.len() == 1,
        row@[0].text@ == caption@,
        row@[0].data@ == caption@,
{
    let mut row: Vec<Button> = Vec::new();
    row.push(Button { text: String::from_str(caption), data: String::from_str(caption) });
    row
}

/// The menu: three rows of one button each, for the student, the technologies and the
/// contacts.
pub fn menu_keyboard() -> (keyboard: Vec<Vec<Button>>)
    ensures
        keyboard@.len() == 3,
        forall|row: int| 0 <= row < 3 ==> (#[trigger] keyboard@[row])@.len() == 1,
        keyboard@[0]@[0].text@ == "Student"@ && keyboard@[0]@[0].data@ == "Student"@,
        keyboard@[1]@[0].text@ == "IT-Technologies"@ && keyboard@[1]@[0].data@ == "IT-Technologies"@,
        keyboard@[2]@[0].text@ == "Contacts"@ && keyboard@[2]@[0].data@ == "Contacts"@,
{
    let mut keyboard: Vec<Vec<Button>> = Vec::new();
    let choices = [
        KeyboardButton::of_lowercase("student"),
        KeyboardButton::of_lowercase("it-technologies"),
        KeyboardButton::of_lowercase("contacts"),
    ];
    proof {
        reveal_strlit("student");
        reveal_strlit("it-technologies");
        reveal_strlit("contacts");
        assert("student"@.len() == 7);
        assert("it-technologies"@.len() == 15);
        assert("contacts"@.len() == 8);
    }
    let mut at: usize = 0;
    while at < 3
        invariant
            at <= 3,
            choices@.len() == 3,
            choices@[0] is Student,
            choices@[1] is Technologies,
            choices@[2] is Contacts,
            keyboard@.len() == at,
            forall|row: int|
                0 <= row < at ==> (#[trigger] keyboard@[row])@.len() == 1 && keyboard@[row]@[0].text@
                    == choices@[row].caption() && keyboard@[row]@[0].data@ == choices@[row].caption(),
        decreases 3 - at,
    {
        keyboard.push(row_of(choices[at].label()));
        at = at + 1;
    }
    keyboard
}

/// The keyboard with the way back: one row with the one button.
pub fn back_keyboard() -> (keyboard: Vec<Vec<Button>>)
    ensures
        keyboard@.len() == 1,
        keyboard@[0]@.len() == 1,
        keyboard@[0]@[0].text@ == "Back"@,
        keyboard@[0]@[0].data@ == "Back"@,
{
    let mut keyboard: Vec<Vec<Button>> = Vec::new();
    keyboard.push(row_of(KeyboardButton::Back.label()));
    keyboard
}

/// What the bot does with an incoming message.
#[derive(Debug, Clone, Copy, PartialEq, Eq, Structural)]
pub enum Route {
    /// A message without text is passed over.
    Ignore,
    /// The text is taken for a command; where `drop_menu` holds, the user's menu is taken
    /// away first.
    Command { drop_menu: bool },
    /// The user's menu is taken away and the text goes to the language model.
    Prompt,
}

/// What is done with a message whose text begins with `first`, where it has text at all,
/// from a user who has a menu open or not.
pub open spec fn routed(text: Option<Seq<char>>, is_menu_sent: bool) -> Route {
    match text {
        None => Route::Ignore,
        Some(text) => if !is_menu_sent {
            Route::Command { drop_menu: false }
        } else if text.len() > 0 && text[0] == '/' {
            Route::Command { drop_menu: true }
        } else {
            Route::Prompt
        },
    }
}

/// Decides what is done with an incoming message.
pub fn route(text: Option<&str>, is_menu_sent: bool) -> (way: Route)
    ensures
        way == routed(
            match text {
                Some(text) => Some(text@),
                None => None,
            },
            is_menu_sent,
        ),
{
    match text {
        None => Route::Ignore,
        Some(text) => {
            if !is_menu_sent {
                Route::Command { drop_menu: false }
            } else if text.unicode_len() > 0 && text.get_char(0) == '/' {
                Route::Command { drop_menu: true }
            } else {
                Route::Prompt
            }
        },
    }
}

} // verus!
