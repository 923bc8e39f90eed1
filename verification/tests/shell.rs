use moonlight_os::interrupts::interrupts::Key;
use moonlight_os::shell::shell::Shell;
use moonlight_os::shell::{
    matrix_rain, process_command, read_input, run_shell, CommandOutcome, InputLine,
};
use moonlight_os::vga_buffer::{ColorCode, Writer};

fn row_text(writer: &Writer, row: usize) -> String {
    (0..80)
        .map(|col| writer.char_at(row, col).ascii_char)
        .take_while(|byte| *byte != 0)
        .map(|byte| byte as char)
        .collect()
}

fn type_line(shell: &mut Shell, writer: &mut Writer, line: &str) {
    for c in line.chars() {
        shell.add(c, writer);
    }
}

#[test]
fn init_shows_the_prompt_in_pink() {
    let mut writer = Writer::new();
    let mut shell = Shell::new();
    shell.init(&mut writer);
    assert_eq!(shell.len(), 0);
    assert_eq!(row_text(&writer, 0), "MoonlightOS> ");
    for col in 0..13 {
        assert_eq!(writer.char_at(0, col).color_code, ColorCode(0x0C));
    }
    assert_eq!(writer.color_code(), ColorCode(0x0F));
    assert_eq!(writer.column_position(), 13);
}

#[test]
fn add_takes_the_character_and_shows_it() {
    let mut writer = Writer::new();
    let mut shell = Shell::new();
    shell.init(&mut writer);
    type_line(&mut shell, &mut writer, "hi");
    assert_eq!(shell.len(), 2);
    assert_eq!(shell.char_at(0), 'h');
    assert_eq!(shell.char_at(1), 'i');
    assert_eq!(shell.char_at(2), '\0');
    assert_eq!(row_text(&writer, 0), "MoonlightOS> hi");
}

#[test]
fn backspace_moves_the_cursor_back() {
    let mut writer = Writer::new();
    let mut shell = Shell::new();
    shell.init(&mut writer);
    shell.backspace(&mut writer);
    assert_eq!(shell.len(), 0);
    assert_eq!(row_text(&writer, 0), "MoonlightOS> ");
    type_line(&mut shell, &mut writer, "ab");
    shell.backspace(&mut writer);
    assert_eq!(shell.len(), 1);
    assert_eq!(shell.char_at(0), 'a');
    // the place behind the cursor is emptied, the place that the cursor
    // moves to keeps its character
    assert_eq!(shell.char_at(1), 'b');
    assert_eq!(shell.char_at(2), '\0');
    assert_eq!(row_text(&writer, 0), "MoonlightOS> a");
}

#[test]
fn enter_runs_help() {
    let mut writer = Writer::new();
    let mut shell = Shell::new();
    shell.init(&mut writer);
    type_line(&mut shell, &mut writer, "help");
    shell.enter(&mut writer);
    assert_eq!(row_text(&writer, 0), "MoonlightOS> help");
    assert_eq!(row_text(&writer, 1), "+-------------------------------------------+");
    assert_eq!(row_text(&writer, 2), "| Available commands:                       |");
    assert_eq!(row_text(&writer, 3), "| ping  --> prints pong                     |");
    assert_eq!(row_text(&writer, 4), "| echo  --> prints any string               |");
    assert_eq!(row_text(&writer, 5), "| help  --> lists available commands        |");
    assert_eq!(row_text(&writer, 6), "| clear --> clears the screen               |");
    assert_eq!(row_text(&writer, 7), "| osinfo --> prints OS information          |");
    assert_eq!(row_text(&writer, 8), "+-------------------------------------------+");
    assert_eq!(row_text(&writer, 9), "MoonlightOS> ");
    assert_eq!(shell.len(), 0);
    assert_eq!(shell.char_at(0), '\0');
}

#[test]
fn enter_runs_echo() {
    let mut writer = Writer::new();
    let mut shell = Shell::new();
    shell.init(&mut writer);
    type_line(&mut shell, &mut writer, "echo \"hello there\"");
    shell.enter(&mut writer);
    assert_eq!(row_text(&writer, 1), "hello there");
    assert_eq!(row_text(&writer, 2), "MoonlightOS> ");
}

#[test]
fn echo_stops_at_the_second_quotation_mark() {
    let mut writer = Writer::new();
    let mut shell = Shell::new();
    shell.init(&mut writer);
    type_line(&mut shell, &mut writer, "echo \"one\" two \"three\"");
    shell.enter(&mut writer);
    assert_eq!(row_text(&writer, 1), "one");
    assert_eq!(row_text(&writer, 2), "MoonlightOS> ");
}

#[test]
fn echo_without_a_closing_quotation_mark_complains() {
    let mut writer = Writer::new();
    let mut shell = Shell::new();
    shell.init(&mut writer);
    type_line(&mut shell, &mut writer, "echo hello");
    shell.enter(&mut writer);
    assert_eq!(row_text(&writer, 1), "Unknown command!");
    assert_eq!(writer.char_at(1, 0).color_code, ColorCode(0x0C));
    assert_eq!(row_text(&writer, 2), "MoonlightOS> ");
}

#[test]
fn echo_with_a_single_quotation_mark_prints_nothing() {
    let mut writer = Writer::new();
    let mut shell = Shell::new();
    shell.init(&mut writer);
    type_line(&mut shell, &mut writer, "echo \"");
    shell.enter(&mut writer);
    assert_eq!(row_text(&writer, 1), "MoonlightOS> ");
}

#[test]
fn enter_runs_clear() {
    let mut writer = Writer::new();
    let mut shell = Shell::new();
    shell.init(&mut writer);
    type_line(&mut shell, &mut writer, "clear");
    shell.enter(&mut writer);
    assert_eq!(row_text(&writer, 0), "MoonlightOS> ");
    assert_eq!(row_text(&writer, 1), "");
    assert_eq!(writer.row_position(), 0);
}

#[test]
fn enter_runs_osinfo() {
    let mut writer = Writer::new();
    let mut shell = Shell::new();
    shell.init(&mut writer);
    type_line(&mut shell, &mut writer, "osinfo");
    shell.enter(&mut writer);
    assert_eq!(row_text(&writer, 1), "");
    assert_eq!(
        row_text(&writer, 2),
        "        __  __                   _ _       _     _    ___  ____  "
    );
    assert_eq!(writer.char_at(2, 8).color_code, ColorCode(0x03));
    assert_eq!(row_text(&writer, 7), "                                     |___/      ");
    assert_eq!(row_text(&writer, 9), "OS Name: MoonlightOS");
    assert_eq!(row_text(&writer, 10), "OS Version: 1.0.0");
    assert_eq!(row_text(&writer, 11), "MoonlightOS> ");
}

#[test]
fn enter_complains_about_an_unknown_command() {
    let mut writer = Writer::new();
    let mut shell = Shell::new();
    shell.init(&mut writer);
    type_line(&mut shell, &mut writer, "ping");
    shell.enter(&mut writer);
    assert_eq!(row_text(&writer, 1), "Unknown command!");
    assert_eq!(writer.char_at(1, 0).color_code, ColorCode(0x0F));
    assert_eq!(row_text(&writer, 2), "MoonlightOS> ");
}

#[test]
fn a_command_is_known_by_its_first_characters() {
    let mut writer = Writer::new();
    let mut shell = Shell::new();
    shell.init(&mut writer);
    type_line(&mut shell, &mut writer, "helpless");
    shell.enter(&mut writer);
    assert_eq!(row_text(&writer, 1), "+-------------------------------------------+");
}

#[test]
fn an_erased_line_is_no_command() {
    let mut writer = Writer::new();
    let mut shell = Shell::new();
    shell.init(&mut writer);
    type_line(&mut shell, &mut writer, "echo");
    for _ in 0..4 {
        shell.backspace(&mut writer);
    }
    assert_eq!(shell.len(), 0);
    // the first character stays in the buffer, the others are emptied
    assert_eq!(shell.char_at(0), 'e');
    for i in 1..5 {
        assert_eq!(shell.char_at(i), '\0');
    }
    shell.enter(&mut writer);
    assert_eq!(row_text(&writer, 1), "Unknown command!");
    assert_eq!(shell.char_at(0), '\0');
}

#[test]
fn a_half_erased_command_still_runs() {
    let mut writer = Writer::new();
    let mut shell = Shell::new();
    shell.init(&mut writer);
    type_line(&mut shell, &mut writer, "clear");
    shell.backspace(&mut writer);
    // the cursor is on the last character, which is still in the buffer
    assert_eq!(shell.len(), 4);
    assert_eq!(shell.char_at(4), 'r');
    shell.enter(&mut writer);
    assert_eq!(row_text(&writer, 0), "MoonlightOS> ");
    assert_eq!(writer.row_position(), 0);
}

#[test]
fn run_shell_shows_the_prompt_and_starts_empty() {
    let mut writer = Writer::new();
    let input = run_shell(&mut writer);
    assert_eq!(row_text(&writer, 0), "MoonlightOS> ");
    assert_eq!(writer.char_at(0, 0).color_code, ColorCode(0x0C));
    assert_eq!(writer.color_code(), ColorCode(0x0F));
    assert!(input.wants_more());
    assert_eq!(input.command(), Vec::<u8>::new());
}

#[test]
fn read_input_collects_a_command_until_enter() {
    let mut writer = Writer::new();
    let mut input = run_shell(&mut writer);
    // p, i, n, g in scancode set 1, then Enter
    for scancode in [0x19u8, 0x17, 0x31, 0x22] {
        assert!(read_input(&mut input, scancode, &mut writer));
    }
    assert_eq!(input.command(), b"ping".to_vec());
    assert_eq!(row_text(&writer, 0), "MoonlightOS> ping");
    assert!(!read_input(&mut input, 0x1C, &mut writer));
    assert!(!input.wants_more());
    assert_eq!(input.command(), b"ping".to_vec());
    // nothing is taken after the end
    assert!(!read_input(&mut input, 0x1E, &mut writer));
    assert_eq!(input.command(), b"ping".to_vec());
}

#[test]
fn read_input_passes_over_a_repeated_scancode() {
    let mut writer = Writer::new();
    let mut input = InputLine::new();
    assert!(read_input(&mut input, 0x1E, &mut writer));
    assert!(read_input(&mut input, 0x1E, &mut writer));
    assert!(read_input(&mut input, 0x1E, &mut writer));
    assert_eq!(input.command(), b"a".to_vec());
    // the release of the key comes between two presses
    assert!(read_input(&mut input, 0x9E, &mut writer));
    assert!(read_input(&mut input, 0x1E, &mut writer));
    assert_eq!(input.command(), b"aa".to_vec());
    assert_eq!(row_text(&writer, 0), "aa");
}

#[test]
fn read_input_stops_when_the_buffer_is_full() {
    let mut writer = Writer::new();
    let mut input = InputLine::new();
    for i in 0..16 {
        let scancode = if i % 2 == 0 { 0x1E } else { 0x30 };
        let more = read_input(&mut input, scancode, &mut writer);
        assert_eq!(more, i < 15);
    }
    assert_eq!(input.command(), b"abababababababab".to_vec());
    assert!(!read_input(&mut input, 0x2E, &mut writer));
    assert_eq!(input.command().len(), 16);
}

#[test]
fn take_key_handles_backspace() {
    let mut writer = Writer::new();
    let mut input = InputLine::new();
    input.take_key(1, Some(Key::Unicode('\u{8}')), &mut writer);
    assert_eq!(input.command(), Vec::<u8>::new());
    assert_eq!(writer.column_position(), 0);
    input.take_key(2, Some(Key::Unicode('x')), &mut writer);
    input.take_key(3, Some(Key::Unicode('y')), &mut writer);
    input.take_key(4, Some(Key::Unicode('\u{8}')), &mut writer);
    assert_eq!(input.command(), b"x".to_vec());
    // the backspace byte is put on the screen as it is
    assert_eq!(writer.char_at(0, 2).ascii_char, 0x08);
    assert_eq!(writer.column_position(), 3);
    input.take_key(5, Some(Key::RawKey), &mut writer);
    input.take_key(6, None, &mut writer);
    assert_eq!(input.command(), b"x".to_vec());
    input.take_key(7, Some(Key::Unicode('\u{e9}')), &mut writer);
    assert_eq!(input.command(), vec![b'x', 0xE9]);
    assert_eq!(writer.char_at(0, 3).ascii_char, 0xfe);
    assert_eq!(writer.char_at(0, 4).ascii_char, 0xfe);
    assert_eq!(writer.column_position(), 5);
    input.take_key(8, Some(Key::Unicode('\u{20AC}')), &mut writer);
    assert_eq!(writer.column_position(), 8);
    input.take_key(9, Some(Key::Unicode('\u{1F600}')), &mut writer);
    assert_eq!(writer.column_position(), 12);
    input.take_key(10, Some(Key::Unicode('\t')), &mut writer);
    assert_eq!(writer.char_at(0, 12).ascii_char, 0xfe);
    assert_eq!(writer.column_position(), 13);
}

#[test]
fn process_command_answers_the_known_commands() {
    let mut writer = Writer::new();
    assert_eq!(process_command(b"ping", &mut writer), CommandOutcome::Done);
    assert_eq!(row_text(&writer, 1), "pong");
    assert_eq!(writer.row_position(), 2);

    let mut writer = Writer::new();
    assert_eq!(process_command(b"hello", &mut writer), CommandOutcome::Done);
    assert_eq!(row_text(&writer, 1), "Hello, world!");

    let mut writer = Writer::new();
    assert_eq!(process_command(b"help", &mut writer), CommandOutcome::Done);
    assert_eq!(row_text(&writer, 1), "Commands:");
    assert_eq!(row_text(&writer, 2), "ping - pong");
    assert_eq!(row_text(&writer, 3), "hello - hello, world!");
    assert_eq!(row_text(&writer, 4), "help - this help message");
    assert_eq!(row_text(&writer, 5), "matrix - matrix rain");
    assert_eq!(writer.char_at(1, 0).color_code, ColorCode(0x0F));
}

#[test]
fn process_command_complains_about_anything_else() {
    for command in [&b""[..], b"pin", b"pings", b"PING", b"help ", b"\xc3\xa9"] {
        let mut writer = Writer::new();
        assert_eq!(process_command(command, &mut writer), CommandOutcome::Done);
        assert_eq!(row_text(&writer, 1), "Unknown command");
        assert_eq!(writer.char_at(1, 0).color_code, ColorCode(0x05));
        assert_eq!(writer.color_code(), ColorCode(0x0F));
    }
}

#[test]
fn matrix_turns_green_and_rains() {
    let mut writer = Writer::new();
    assert_eq!(process_command(b"matrix", &mut writer), CommandOutcome::MatrixRain);
    assert_eq!(writer.color_code(), ColorCode(0x0A));
    assert_eq!(writer.row_position(), 0);
    let mut j = 0;
    let mut rounds = Vec::new();
    for _ in 0..9 {
        j = matrix_rain(j, &mut writer);
        rounds.push(j);
    }
    assert_eq!(rounds, vec![1, 2, 3, 4, 1, 2, 3, 4, 1]);
    assert_eq!(row_text(&writer, 0), "      $  ^   $      $   $");
    assert_eq!(row_text(&writer, 1), "       &    o       &   *      O   ");
    assert_eq!(row_text(&writer, 2), "  Y    !   &   &     $    P     L");
    assert_eq!(row_text(&writer, 3), "  ^   $   &   !   *       (    ");
    assert_eq!(row_text(&writer, 4), "       &    o       &   *      O   ");
    assert_eq!(row_text(&writer, 6), "  ^   $   &   !   *       (    ");
    assert_eq!(row_text(&writer, 7), "");
    assert_eq!(writer.row_position(), 7);
    assert_eq!(matrix_rain(77, &mut writer), 1);
    assert_eq!(writer.row_position(), 7);
}
