//! Suggestions for a new secret, from a command that the configuration names.

use vstd::prelude::*;
use vstd::utf8::decode_utf8;
use vstd::utf8::valid_utf8;
use crate::config::Config;
use crate::config::ConfigModel;
use crate::effect::Launch;
use crate::effect::LaunchModel;
use crate::effect::Wiring;
use crate::text::split_words;
use crate::text::utf8_text;
use crate::text::words;

verus! {

/// The words into which `shell_words::split` breaks a command line, by the
/// rules of the POSIX shell; nothing where a quote is left open.
pub uninterp spec fn shell_split(line: Seq<char>) -> Option<Seq<Seq<char>>>;

/// `shell_words::split`. The contract names the result.
#[verifier::external_body]
fn split_command(line: &str) -> (r: Option<Vec<String>>)
    ensures
        r.deep_view() == shell_split(line@),
{
    shell_words::split(line).ok()
}

/// The child process that runs a command of these words: the first word is
/// the program, the others are its arguments. It reads nothing, and what it
/// writes is collected.
pub open spec fn generator_launch(command: Seq<Seq<char>>) -> LaunchModel {
    LaunchModel {
        program: command[0],
        args: command.skip(1),
        dir: None,
        stdin: Wiring::Null,
        stdout: Wiring::Piped,
        stderr: Wiring::Piped,
    }
}

/// The child process that the words of a command line stand for, where
/// there is a first word.
pub open spec fn generator_of(command: Option<Seq<Seq<char>>>) -> Option<LaunchModel> {
    match command {
        Some(command) => if command.len() > 0 {
            Some(generator_launch(command))
        } else {
            None
        },
        None => None,
    }
}

/// The generator of the configuration: the child process that its command
/// line stands for. There is none where no command line is set, where the
/// line does not split into words, and where it holds no word.
pub open spec fn generator(config: ConfigModel) -> Option<LaunchModel> {
    match config.password_generator {
        Some(line) => generator_of(shell_split(line)),
        None => None,
    }
}

/// The suggestions that a generator's output holds: its words, where it is
/// text and has any.
pub open spec fn suggested(output: Seq<u8>) -> Option<Seq<Seq<char>>> {
    if valid_utf8(output) && words(decode_utf8(output)).len() > 0 {
        Some(words(decode_utf8(output)))
    } else {
        None
    }
}

/// The model of a launch that may be absent.
pub open spec fn launch_view(launch: Option<Launch>) -> Option<LaunchModel> {
    match launch {
        Some(launch) => Some(launch@),
        None => None,
    }
}

/// The child process that the words of a command line stand for.
pub fn generator_command(command: Option<Vec<String>>) -> (r: Option<Launch>)
    ensures
        launch_view(r) == generator_of(command.deep_view()),
{
    match command {
        Some(command) => {
            if command.len() == 0 {
                return None;
            }
            let mut args: Vec<String> = Vec::new();
            let mut i: usize = 1;
            while i < command.len()
                invariant
                    1 <= i <= command.len(),
                    args.len() == i - 1,
                    forall|j: int| 0 <= j < args.len() ==> args@[j]@ == command@[j + 1]@,
                decreases command.len() - i,
            {
                args.push(command[i].clone());
                i = i + 1;
            }
            assert(args.deep_view() =~= command.deep_view().skip(1));
            assert(command.deep_view()[0] == command@[0]@);
            Some(
                Launch {
                    program: command[0].clone(),
                    args,
                    dir: None,
                    stdin: Wiring::Null,
                    stdout: Wiring::Piped,
                    stderr: Wiring::Piped,
                },
            )
        },
        None => None,
    }
}

/// The generator of the configuration.
pub fn generate_suggestions(config: &Config) -> (r: Option<Launch>)
    ensures
        launch_view(r) == generator(config@),
{
    match &config.password_generator {
        Some(line) => generator_command(split_command(line.as_str())),
        None => None,
    }
}

/// The suggestions that a generator's output holds.
pub fn suggestions(output: Vec<u8>) -> (r: Option<Vec<String>>)
    ensures
        r.deep_view() == suggested(output@),
{
    match utf8_text(output) {
        Some(text) => {
            let found = split_words(text.as_str());
            assert(found.deep_view().len() == found.len());
            if found.len() == 0 {
                None
            } else {
                Some(found)
            }
        },
        None => None,
    }
}

} // verus!
