//! The help application: writes a short introduction to the system, in the
//! language an optional stack argument picks.

use vstd::prelude::*;
use vstd::string::*;

use crate::app::{LittleManApp, OsHandle, StartError};
use crate::path::Path;
use crate::stack::Stack;

verus! {

/// The languages the help text exists in.
#[derive(Clone, Copy, Debug, PartialEq, Eq, Structural)]
pub enum Language {
    Swedish,
    English,
}

/// The constructor of the help application.
#[derive(Clone, Copy, Debug, PartialEq, Eq, Structural)]
pub struct Help;

/// The running help application, carrying the language it will answer in.
pub struct HelpApp(pub Language);

impl Help {
    /// Where the application is installed.
    pub fn path() -> (r: Path)
        ensures
            r@ == "help.run"@,
    {
        Path::from("help.run")
    }
}

/// The help text for one language.
pub fn help_text(language: Language) -> (r: &'static str)
    ensures
        language is Swedish ==> r@ == "Detta operativsystem kommer med olika demon och verktyg. Skriv 'dir' for en lista. For english help, write 'help eng'"@,
        language is English ==> r@ == "This operating system comes with demos and tools. Write 'dir' for a list."@,
{
    match language {
        Language::Swedish => "Detta operativsystem kommer med olika demon och verktyg. Skriv 'dir' for en lista. For english help, write 'help eng'",
        Language::English => "This operating system comes with demos and tools. Write 'dir' for a list.",
    }
}

impl HelpApp {
    /// Reads an optional language argument from the stack: `eng` or `swe`
    /// picks the language, anything else leaves the default.
    pub fn pick_language(&mut self, args: &mut Stack) -> (r: Result<(), StartError>)
        ensures
            r is Ok,
            ({
                let s = old(args)@;
                if s.len() > 0 && s.last() is Text {
                    &&& final(args)@ == s.drop_last()
                    &&& final(self).0 == (if s.last()->Text_0 == "eng"@ {
                        Language::English
                    } else if s.last()->Text_0 == "swe"@ {
                        Language::Swedish
                    } else {
                        old(self).0
                    })
                } else {
                    final(args)@ == s && final(self).0 == old(self).0
                }
            }),
    {
        let popped = args.try_pop::<String>();
        if let Some(choice) = popped {
            if crate::strutil::str_eq(choice.as_str(), "eng") {
                self.0 = Language::English;
            } else if crate::strutil::str_eq(choice.as_str(), "swe") {
                self.0 = Language::Swedish;
            }
        }
        Ok(())
    }

    /// Writes the help text to the text display if it is active, and asks
    /// to exit either way.
    pub fn tick(&self, handle: &mut OsHandle)
        ensures
            !final(handle).live(),
            old(handle).graphics.is_text_mode() ==> {
                &&& final(handle).graphics.is_text_mode()
                &&& final(handle).graphics.text_writer().written@ == old(handle).graphics.text_writer().written@ + seq!['\n'] + (if self.0 is Swedish {
                    "Detta operativsystem kommer med olika demon och verktyg. Skriv 'dir' for en lista. For english help, write 'help eng'"@
                } else {
                    "This operating system comes with demos and tools. Write 'dir' for a list."@
                })
            },
            !old(handle).graphics.is_text_mode() ==> final(handle).graphics == old(handle).graphics,
            final(handle).pending() == old(handle).pending(),
            final(handle).keyboard == old(handle).keyboard,
            final(handle).files == old(handle).files,
            final(handle).machine == old(handle).machine,
    {
        let text = help_text(self.0);
        let _ = handle.graphics.text_next_line();
        let _ = handle.graphics.text_write_str(text);
        handle.call_exit();
    }
}

impl LittleManApp for HelpApp {
    fn start(&mut self, args: &mut Stack) -> Result<(), StartError> {
        self.pick_language(args)
    }

    fn update(&mut self, handle: &mut OsHandle) {
        self.tick(handle);
    }

    fn shutdown(&mut self) {
    }
}

} // verus!
