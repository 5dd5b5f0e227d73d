use vstd::prelude::*;

use crate::decimal::{decimal_spec, lemma_parse_decimal_roundtrip, parse_i32, parse_i32_spec};
use crate::text::{bytes_equal, bytes_have_prefix, has_prefix};

verus! {

/// Work that the console hands to the rendering thread, done at the next
/// buffer swap.
#[derive(Clone, Copy, Debug, PartialEq, Eq, Structural)]
pub enum Action {
    /// Clear the screen with a random colour from now on.
    ClearColorRandomize,
    /// Rebuild, from its dumped source, the shader that had this number.
    ShaderReloading(i32),
}

/// What one console line asks for.
#[derive(Clone, Copy, Debug, PartialEq, Eq, Structural)]
pub enum ConsoleCommand {
    /// Stop the process.
    Quit,
    /// Queue an action for the rendering thread.
    Queue(Action),
    /// Nothing to do.
    Ignore,
}

/// Why a `reload` line cannot be carried out.
#[derive(Clone, Copy, Debug, PartialEq, Eq, Structural)]
pub enum CommandError {
    /// The line starts with `reload` but not with `reload `.
    MissingReloadSpace,
    /// The `reload ` line does not end with a newline.
    MissingNewline,
    /// What stands between `reload ` and the newline is not an `i32`.
    InvalidShaderNumber,
}

/// `quit` and a newline, in ASCII.
pub open spec fn quit_text() -> Seq<u8> {
    seq![113u8, 117u8, 105u8, 116u8, 10u8]
}

/// `randcolor` and a newline.
pub open spec fn randcolor_text() -> Seq<u8> {
    seq![114u8, 97u8, 110u8, 100u8, 99u8, 111u8, 108u8, 111u8, 114u8, 10u8]
}

/// The word that starts a reload command.
pub open spec fn reload_word() -> Seq<u8> {
    seq![114u8, 101u8, 108u8, 111u8, 97u8, 100u8]
}

/// The reload word and the space after it.
pub open spec fn reload_prefix() -> Seq<u8> {
    reload_word().push(32u8)
}

/// What a console line (as `read_line` gives it, newline included) asks for.
pub open spec fn console_command_spec(line: Seq<u8>) -> Result<ConsoleCommand, CommandError> {
    if line == quit_text() {
        Ok(ConsoleCommand::Quit)
    } else if line == randcolor_text() {
        Ok(ConsoleCommand::Queue(Action::ClearColorRandomize))
    } else if has_prefix(line, reload_word()) {
        if !has_prefix(line, reload_prefix()) {
            Err(CommandError::MissingReloadSpace)
        } else {
            let rest = line.skip(7);
            if rest.len() == 0 || rest.last() != 10u8 {
                Err(CommandError::MissingNewline)
            } else {
                match parse_i32_spec(rest.drop_last()) {
                    Some(n) => Ok(ConsoleCommand::Queue(Action::ShaderReloading(n))),
                    None => Err(CommandError::InvalidShaderNumber),
                }
            }
        }
    } else {
        Ok(ConsoleCommand::Ignore)
    }
}

/// The line that asks to reload shader `n`: `reload `, `n` in base ten, newline.
pub open spec fn reload_line(n: int) -> Seq<u8> {
    reload_prefix() + decimal_spec(n) + seq![10u8]
}

/// Reads one console line (newline included), as the console thread does:
/// `quit`, `randcolor` and `reload N` are understood, every other line is
/// ignored, and a malformed `reload` line is an error.
pub fn parse_console_command(line: &[u8]) -> (r: Result<ConsoleCommand, CommandError>)
    ensures
        r == console_command_spec(line@),
{
    let quit: [u8; 5] = [113u8, 117u8, 105u8, 116u8, 10u8];
    let randcolor: [u8; 10] = [114u8, 97u8, 110u8, 100u8, 99u8, 111u8, 108u8, 111u8, 114u8, 10u8];
    let reload: [u8; 6] = [114u8, 101u8, 108u8, 111u8, 97u8, 100u8];
    let reload_space: [u8; 7] = [114u8, 101u8, 108u8, 111u8, 97u8, 100u8, 32u8];
    assert(quit@ =~= quit_text());
    assert(randcolor@ =~= randcolor_text());
    assert(reload@ =~= reload_word());
    assert(reload_space@ =~= reload_prefix());
    if bytes_equal(line, vstd::array::array_as_slice(&quit)) {
        return Ok(ConsoleCommand::Quit);
    }
    if bytes_equal(line, vstd::array::array_as_slice(&randcolor)) {
        return Ok(ConsoleCommand::Queue(Action::ClearColorRandomize));
    }
    if !bytes_have_prefix(line, vstd::array::array_as_slice(&reload)) {
        return Ok(ConsoleCommand::Ignore);
    }
    if !bytes_have_prefix(line, vstd::array::array_as_slice(&reload_space)) {
        return Err(CommandError::MissingReloadSpace);
    }
    let len = line.len();
    if len == 7 || line[len - 1] != 10u8 {
        return Err(CommandError::MissingNewline);
    }
    let number = &line[7..len - 1];
    assert(number@ =~= line@.skip(7).drop_last());
    match parse_i32(number) {
        Some(n) => Ok(ConsoleCommand::Queue(Action::ShaderReloading(n))),
        None => Err(CommandError::InvalidShaderNumber),
    }
}

/// For every shader number `n`, the line `reload n` (with `n` written as the
/// dump file names it) asks to reload exactly shader `n`.
pub proof fn lemma_reload_line_names_shader(n: i32)
    ensures
        console_command_spec(reload_line(n as int)) == Ok::<ConsoleCommand, CommandError>(
            ConsoleCommand::Queue(Action::ShaderReloading(n)),
        ),
{
    let line = reload_line(n as int);
    let digits = decimal_spec(n as int);
    lemma_parse_decimal_roundtrip(n);
    assert(line.take(6) =~= reload_word());
    assert(line.take(7) =~= reload_prefix());
    assert(line.skip(7) =~= digits.push(10u8));
    assert(line.skip(7).drop_last() =~= digits);
    assert(line[0] == 114u8);
    assert(line != quit_text());
    assert(line[1] == 101u8);
    assert(line != randcolor_text());
}


/// Only the exact line `quit` + newline stops the process, only the exact
/// line `randcolor` + newline asks for a random colour, a reload is only
/// ever asked for by a line that starts with `reload ` and ends with a
/// newline, and every line that starts with none of `quit` + newline,
/// `randcolor` + newline or `reload` is ignored.
pub proof fn lemma_console_lines(line: Seq<u8>)
    ensures
        (console_command_spec(line) == Ok::<ConsoleCommand, CommandError>(ConsoleCommand::Quit))
            <==> line =~= seq![113u8, 117u8, 105u8, 116u8, 10u8],
        (console_command_spec(line) == Ok::<ConsoleCommand, CommandError>(
            ConsoleCommand::Queue(Action::ClearColorRandomize),
        )) <==> line =~= seq![114u8, 97u8, 110u8, 100u8, 99u8, 111u8, 108u8, 111u8, 114u8, 10u8],
        console_command_spec(line) matches Ok(ConsoleCommand::Queue(Action::ShaderReloading(n)))
            ==> {
            &&& line.len() >= 9
            &&& line.take(7) =~= seq![114u8, 101u8, 108u8, 111u8, 97u8, 100u8, 32u8]
            &&& line.last() == 10u8
            &&& parse_i32_spec(line.subrange(7, line.len() - 1)) == Some(n)
        },
        !(line.len() >= 6 && line.take(6) =~= seq![114u8, 101u8, 108u8, 111u8, 97u8, 100u8])
            && !(line =~= seq![113u8, 117u8, 105u8, 116u8, 10u8])
            && !(line =~= seq![114u8, 97u8, 110u8, 100u8, 99u8, 111u8, 108u8, 111u8, 114u8, 10u8])
            ==> console_command_spec(line) == Ok::<ConsoleCommand, CommandError>(
            ConsoleCommand::Ignore,
        ),
{
    assert(quit_text() =~= seq![113u8, 117u8, 105u8, 116u8, 10u8]);
    assert(randcolor_text() =~= seq![114u8, 97u8, 110u8, 100u8, 99u8, 111u8, 108u8, 111u8, 114u8, 10u8]);
    assert(reload_word() =~= seq![114u8, 101u8, 108u8, 111u8, 97u8, 100u8]);
    assert(reload_prefix() =~= seq![114u8, 101u8, 108u8, 111u8, 97u8, 100u8, 32u8]);
    if console_command_spec(line) matches Ok(ConsoleCommand::Queue(Action::ShaderReloading(n))) {
        let rest = line.skip(7);
        assert(rest.len() > 0 && rest.last() == 10u8);
        if rest.len() == 1 {
            assert(rest.drop_last().len() == 0);
        }
        assert(rest.drop_last().len() > 0);
        assert(line.last() == rest.last());
        assert(rest.drop_last() =~= line.subrange(7, line.len() - 1));
    }
}

} // verus!
