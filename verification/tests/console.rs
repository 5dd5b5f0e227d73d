use probriquegl::console::{parse_console_command, CommandError, ConsoleCommand};
use probriquegl::decimal::{parse_i32, push_decimal};
use probriquegl::Action;

#[test]
fn quit_line_quits() {
    assert_eq!(parse_console_command(b"quit\n"), Ok(ConsoleCommand::Quit));
}

#[test]
fn quit_without_newline_is_ignored() {
    assert_eq!(parse_console_command(b"quit"), Ok(ConsoleCommand::Ignore));
}

#[test]
fn randcolor_line_queues_random_colour() {
    assert_eq!(
        parse_console_command(b"randcolor\n"),
        Ok(ConsoleCommand::Queue(Action::ClearColorRandomize))
    );
}

#[test]
fn reload_line_queues_shader_reload() {
    assert_eq!(
        parse_console_command(b"reload 3\n"),
        Ok(ConsoleCommand::Queue(Action::ShaderReloading(3)))
    );
    assert_eq!(
        parse_console_command(b"reload -12\n"),
        Ok(ConsoleCommand::Queue(Action::ShaderReloading(-12)))
    );
    assert_eq!(
        parse_console_command(b"reload +2147483647\n"),
        Ok(ConsoleCommand::Queue(Action::ShaderReloading(2147483647)))
    );
}

#[test]
fn reload_without_space_is_an_error() {
    assert_eq!(parse_console_command(b"reload\n"), Err(CommandError::MissingReloadSpace));
    assert_eq!(parse_console_command(b"reloadx 4\n"), Err(CommandError::MissingReloadSpace));
}

#[test]
fn reload_without_newline_is_an_error() {
    assert_eq!(parse_console_command(b"reload 4"), Err(CommandError::MissingNewline));
    assert_eq!(parse_console_command(b"reload "), Err(CommandError::MissingNewline));
}

#[test]
fn reload_with_bad_number_is_an_error() {
    assert_eq!(parse_console_command(b"reload \n"), Err(CommandError::InvalidShaderNumber));
    assert_eq!(parse_console_command(b"reload 4 \n"), Err(CommandError::InvalidShaderNumber));
    assert_eq!(parse_console_command(b"reload x\n"), Err(CommandError::InvalidShaderNumber));
    assert_eq!(
        parse_console_command(b"reload 2147483648\n"),
        Err(CommandError::InvalidShaderNumber)
    );
}

#[test]
fn other_lines_are_ignored() {
    assert_eq!(parse_console_command(b""), Ok(ConsoleCommand::Ignore));
    assert_eq!(parse_console_command(b"help\n"), Ok(ConsoleCommand::Ignore));
    assert_eq!(parse_console_command(b"randcolor"), Ok(ConsoleCommand::Ignore));
}

#[test]
fn parse_i32_reads_like_std() {
    let cases: Vec<&str> = vec![
        "0", "7", "-7", "+7", "-0", "007", "2147483647", "-2147483648", "2147483648",
        "-2147483649", "", "-", "+", "1a", " 1", "99999999999999999999", "+-1",
    ];
    for c in cases {
        assert_eq!(parse_i32(c.as_bytes()), c.parse::<i32>().ok(), "case {:?}", c);
    }
}

#[test]
fn decimal_writes_like_format() {
    for n in [0i32, 5, 10, 42, -1, -10, 1234567, i32::MAX, i32::MIN] {
        let mut out = Vec::new();
        push_decimal(n, &mut out);
        assert_eq!(out, format!("{}", n).into_bytes());
    }
}

#[test]
fn reload_line_of_any_number_names_it() {
    for n in [0i32, 1, 99, -5, i32::MAX, i32::MIN] {
        let mut line = b"reload ".to_vec();
        push_decimal(n, &mut line);
        line.push(b'\n');
        assert_eq!(
            parse_console_command(&line),
            Ok(ConsoleCommand::Queue(Action::ShaderReloading(n)))
        );
    }
}
