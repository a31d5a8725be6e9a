//! Commands, menu URLs, and the dispatch decision.

use vstd::prelude::*;
use vstd::string::*;
use crate::date::{CalendarDate, spec_iso_date, spec_is_formal_day, is_formal_day, iso_date};
use crate::error::MenuError;
use crate::resolve::{spec_resolve, parse_date};

verus! {

/// The command vocabulary, built once per invocation from the argument
/// list. `Formal` optionally carries the raw date token typed after it.
#[derive(Debug)]
pub enum Command {
    Lunch,
    Dinner,
    Formal(Option<String>),
    Help,
    Default,
}

/// The one user-visible step the program takes: open a URL in the
/// browser, print the usage text, or print the no-formal-hall notice.
#[derive(Debug)]
pub enum Action {
    OpenUrl(String),
    PrintHelp,
    NoFormalNotice,
}

pub open spec fn spec_lunch_url() -> Seq<char> {
    "https://apps.jesus.cam.ac.uk/foodmenuview/digiboard.php?event_id=1"@
}

pub open spec fn spec_dinner_url() -> Seq<char> {
    "https://apps.jesus.cam.ac.uk/foodmenuview/digiboard.php?event_id=2"@
}

pub open spec fn spec_formal_url() -> Seq<char> {
    "https://apps.jesus.cam.ac.uk/foodmenuview/digiboard.php?event_id=5"@
}

/// The formal-hall URL qualified with a `date=` parameter.
pub open spec fn spec_formal_date_url(d: CalendarDate) -> Seq<char> {
    spec_formal_url() + "&date="@ + spec_iso_date(d)
}

pub fn lunch_url() -> (r: &'static str)
    ensures
        r@ == spec_lunch_url(),
{
    "https://apps.jesus.cam.ac.uk/foodmenuview/digiboard.php?event_id=1"
}

pub fn dinner_url() -> (r: &'static str)
    ensures
        r@ == spec_dinner_url(),
{
    "https://apps.jesus.cam.ac.uk/foodmenuview/digiboard.php?event_id=2"
}

pub fn formal_url() -> (r: &'static str)
    ensures
        r@ == spec_formal_url(),
{
    "https://apps.jesus.cam.ac.uk/foodmenuview/digiboard.php?event_id=5"
}

pub fn formal_date_url(d: &CalendarDate) -> (r: String)
    requires
        d.wf(),
    ensures
        r@ == spec_formal_date_url(*d),
{
    let mut s = String::from_str(formal_url());
    s.append("&date=");
    let ds = iso_date(d);
    s.append(ds.as_str());
    proof {
        assert(s@ =~= spec_formal_date_url(*d));
    }
    s
}

pub open spec fn spec_help_text() -> Seq<char> {
    "Jesus College Menu Viewer\n\nUSAGE:\n    jesus_menu [COMMAND]\n\nCOMMANDS:\n    l           Open lunch menu\n    d           Open dinner menu\n    f           Open formal menu\n    f DD        Open formal menu for specific day\n    f MM-DD     Open formal menu for specific month and day\n    f YYYY-MM-DD Open formal menu for specific date\n    h, help     Print this help message\n\nIf no command is provided, opens lunch menu before 1pm and dinner menu after."@
}

/// The usage text behind the help command.
pub fn help_text() -> (r: &'static str)
    ensures
        r@ == spec_help_text(),
{
    "Jesus College Menu Viewer\n\nUSAGE:\n    jesus_menu [COMMAND]\n\nCOMMANDS:\n    l           Open lunch menu\n    d           Open dinner menu\n    f           Open formal menu\n    f DD        Open formal menu for specific day\n    f MM-DD     Open formal menu for specific month and day\n    f YYYY-MM-DD Open formal menu for specific date\n    h, help     Print this help message\n\nIf no command is provided, opens lunch menu before 1pm and dinner menu after."
}

pub open spec fn spec_no_formal_notice() -> Seq<char> {
    "There is no formal hall on this day.\nFormal halls are only on Tuesdays, Wednesdays, Fridays, and Sundays."@
}

/// The notice printed when a resolved date is no formal-hall day.
pub fn no_formal_notice() -> (r: &'static str)
    ensures
        r@ == spec_no_formal_notice(),
{
    "There is no formal hall on this day.\nFormal halls are only on Tuesdays, Wednesdays, Fridays, and Sundays."
}

fn token_eq(arg: &String, lit: &str) -> (r: bool)
    ensures
        r == (arg@ == lit@),
{
    let s = String::from_str(lit);
    *arg == s
}

/// Reads the first two process arguments as a command. An unknown first
/// token is an error naming that token, never a silent fallback.
pub fn parse_command(arg1: Option<&String>, arg2: Option<&String>) -> (r: Result<
    Command,
    MenuError,
>)
    ensures
        arg1 is None ==> (r matches Ok(c) && c is Default),
        arg1 matches Some(a) ==> ({
            if a@ == "l"@ {
                r matches Ok(c) && c is Lunch
            } else if a@ == "d"@ {
                r matches Ok(c) && c is Dinner
            } else if a@ == "f"@ {
                r matches Ok(c) && c matches Command::Formal(t) && (match (arg2, t) {
                    (Option::None, Option::None) => true,
                    (Option::Some(s), Option::Some(tok)) => tok@ == s@,
                    _ => false,
                })
            } else if a@ == "h"@ || a@ == "help"@ {
                r matches Ok(c) && c is Help
            } else {
                r matches Err(e) && e matches MenuError::UnrecognizedCommand(m) && m@ == a@
            }
        }),
{
    match arg1 {
        None => Ok(Command::Default),
        Some(a) => {
            if token_eq(a, "l") {
                Ok(Command::Lunch)
            } else if token_eq(a, "d") {
                Ok(Command::Dinner)
            } else if token_eq(a, "f") {
                match arg2 {
                    None => Ok(Command::Formal(None)),
                    Some(s) => Ok(Command::Formal(Some(s.clone()))),
                }
            } else if token_eq(a, "h") || token_eq(a, "help") {
                Ok(Command::Help)
            } else {
                Err(MenuError::UnrecognizedCommand(a.clone()))
            }
        },
    }
}

/// `r` opens exactly the given URL.
pub open spec fn opens_url(r: Result<Action, MenuError>, url: Seq<char>) -> bool {
    r matches Ok(a) && a matches Action::OpenUrl(u) && u@ == url
}

/// Decides the action for a command, given the reference date and the
/// current local hour. Lunch is the default up to and including 13:00;
/// strictly later hours default to dinner. A dated formal request goes
/// through date resolution and the weekday rule: on a non-formal day
/// the successful outcome is the notice, with no URL opened.
pub fn dispatch(cmd: &Command, today: &CalendarDate, hour: u32) -> (r: Result<Action, MenuError>)
    requires
        today.wf(),
    ensures
        cmd is Lunch ==> opens_url(r, spec_lunch_url()),
        cmd is Dinner ==> opens_url(r, spec_dinner_url()),
        cmd is Help ==> (r matches Ok(a) && a is PrintHelp),
        cmd is Default && hour > 13 ==> opens_url(r, spec_dinner_url()),
        cmd is Default && hour <= 13 ==> opens_url(r, spec_lunch_url()),
        cmd matches Command::Formal(t) ==> (match t {
            Option::None => opens_url(r, spec_formal_url()),
            Option::Some(tok) => (match spec_resolve(tok@, *today) {
                Option::Some(d) => {
                    if spec_is_formal_day(d) {
                        opens_url(r, spec_formal_date_url(d))
                    } else {
                        r matches Ok(a) && a is NoFormalNotice
                    }
                },
                Option::None => r matches Err(e) && e is InvalidDate,
            }),
        }),
{
    match cmd {
        Command::Lunch => Ok(Action::OpenUrl(String::from_str(lunch_url()))),
        Command::Dinner => Ok(Action::OpenUrl(String::from_str(dinner_url()))),
        Command::Help => Ok(Action::PrintHelp),
        Command::Default => {
            if hour > 13 {
                Ok(Action::OpenUrl(String::from_str(dinner_url())))
            } else {
                Ok(Action::OpenUrl(String::from_str(lunch_url())))
            }
        },
        Command::Formal(opt) => {
            match opt {
                None => Ok(Action::OpenUrl(String::from_str(formal_url()))),
                Some(tok) => {
                    match parse_date(tok.as_str(), today) {
                        Err(e) => Err(e),
                        Ok(d) => {
                            if is_formal_day(&d) {
                                Ok(Action::OpenUrl(formal_date_url(&d)))
                            } else {
                                Ok(Action::NoFormalNotice)
                            }
                        },
                    }
                },
            }
        },
    }
}

} // verus!
