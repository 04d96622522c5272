//! The script runner: reads a script file named on the stack, feeds its
//! text to the interpreter, and drains it to completion before returning,
//! as a re-entrant nested run.

use vstd::prelude::*;
use vstd::utf8::{decode_utf8, valid_utf8};

use crate::app::ProgramError;
use crate::files::ContentModel;
use crate::forth::{fragment_effect, simple_token, spec_tokens, ForthMachine, WordModel};
use crate::path::{spec_clean, Path};
use crate::stack::ValueModel;
use crate::strutil::bytes_to_string;

verus! {

/// How one script-runner invocation relates the machine's stack and queue
/// before and after, given the catalog, the dictionary and the step budget
/// it ran under: a missing or non-text argument changes nothing; a
/// readable script is popped, queued and drained to completion (cut short
/// only by an exhausted budget); and when the queue was otherwise empty
/// and every script token is simple, the stack shows exactly the script's
/// combined effect.
pub open spec fn runner_step(
    cat: Map<Seq<char>, ContentModel>,
    d: Map<Seq<char>, WordModel>,
    b: u64,
    s: Seq<ValueModel>,
    q: Seq<Seq<char>>,
    ok: bool,
    s2: Seq<ValueModel>,
    q2: Seq<Seq<char>>,
) -> bool {
    if s.len() == 0 || !(s.last() is Text) {
        !ok && s2 == s && q2 == q
    } else {
        let key = spec_clean(s.last()->Text_0);
        if cat.contains_key(key) && (cat[key] matches ContentModel::Data(data) && valid_utf8(
            data,
        )) {
            let text = decode_utf8(cat[key]->Data_0);
            let toks = spec_tokens(text);
            let simple = forall|i: int| 0 <= i < toks.len() ==> simple_token(d, toks[i]);
            &&& ok
            &&& (b > 0 ==> q2 == Seq::<Seq<char>>::empty())
            &&& (b == 0 ==> q2 == q.push(text))
            &&& ((q.len() == 0 && toks.len() + 4 <= b && simple) ==> s2 == fragment_effect(
                d,
                toks,
                s.drop_last(),
            ))
        } else {
            &&& !ok
            &&& s2 == s.drop_last()
            &&& q2 == q
        }
    }
}

/// The constructor of the script runner; also the runner itself, which
/// keeps no state.
#[derive(Clone, Copy, Debug, PartialEq, Eq, Structural)]
pub struct ForRunner;

impl ForRunner {
    /// Where the runner is installed.
    pub fn path() -> (r: Path)
        ensures
            r@ == "forrunner.run"@,
    {
        Path::from("forrunner.run")
    }

    /// Pops the script path from the stack, reads the file, and runs the
    /// script to completion as a nested drain: control returns only once
    /// everything queued has executed (or the step budget ran out).
    pub fn run(&mut self, machine: &mut ForthMachine) -> (r: Result<(), ProgramError>)
        ensures
            final(machine).dict() == old(machine).dict(),
            final(machine).frames@ == old(machine).frames@,
            final(machine).budget <= old(machine).budget,
            runner_step(
                old(machine).files.catalog(),
                old(machine).dict(),
                old(machine).budget,
                old(machine).stack@,
                old(machine).queue_model(),
                r is Ok,
                final(machine).stack@,
                final(machine).queue_model(),
            ),
            ({
                let s = old(machine).stack@;
                if s.len() == 0 || !(s.last() is Text) {
                    r matches Err(ProgramError::InvalidStartParameter)
                } else {
                    let key = spec_clean(s.last()->Text_0);
                    let cat = old(machine).files.catalog();
                    if cat.contains_key(key) && (cat[key] matches ContentModel::Data(data)
                        && valid_utf8(data)) {
                        r is Ok
                    } else {
                        r matches Err(ProgramError::FileSystemError)
                    }
                }
            }),
        decreases machine.budget, 0int,
    {
        let popped = machine.stack.try_pop::<String>();
        let path_text = match popped {
            Some(p) => p,
            None => {
                return Err(ProgramError::InvalidStartParameter);
            },
        };
        let file = match machine.files.read_file(&Path::from(path_text.as_str())) {
            Ok(d) => d,
            Err(_) => {
                return Err(ProgramError::FileSystemError);
            },
        };
        let text = match bytes_to_string(file) {
            Some(t) => t,
            None => {
                return Err(ProgramError::FileSystemError);
            },
        };
        machine.add_instructions(text.as_str());
        if machine.budget > 0 {
            machine.budget = machine.budget - 1;
            machine.drain();
        }
        Ok(())
    }
}

} // verus!
