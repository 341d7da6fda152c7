use thatsit::ansi::Color;
use thatsit::engine::{MainLoop, Phase};
use thatsit::layouts::{Columns, Layers, Surface};
use thatsit::collect::Collection;
use thatsit::null::NullWidget;
use thatsit::output::{Error, Input, Outcome, Output};
use thatsit::repl::Repl;
use thatsit::space::Area;
use thatsit::tui::{TUIInputEvent, TUI};

use crossterm::event::{KeyCode, KeyEvent, KeyModifiers};

fn run<X: MainLoop<A>, A>(mut widget: X, mut context: A) -> Outcome<A> {
    let mut phase = Phase::Setup;
    while phase != Phase::Exited {
        phase = widget.step(&mut context, phase)?;
    }
    Ok(context)
}

#[test]
fn should_run() -> Result<(), Error> {
    let mut app = NullWidget;
    app.handle(&mut ())?;
    app.render(&mut ())?;
    run(app, ())?;
    Ok(())
}

#[test]
fn repl_should_run() -> Result<(), Error> {
    let app = String::from("just a label");
    let mut engine = Repl::harness("newline\n".as_bytes());
    engine.exited = true;
    assert_eq!(run(app, engine)?.output, "just a label".as_bytes());
    Ok(())
}

#[test]
fn repl_runs_one_round_and_reads_the_line() -> Result<(), Error> {
    let mut engine = Repl::harness("newline\nrest".as_bytes());
    engine.exited = true;
    let engine = run(String::from("just a label"), engine)?;
    assert_eq!(engine.output, b"just a label".to_vec());
    assert_eq!(engine.line, b"newline\n".to_vec());
    Ok(())
}

#[test]
fn repl_reads_lines_in_order() {
    let mut repl = Repl::harness(b"one\ntwo\nthree");
    assert_eq!(repl.read_line(), b"one\n".to_vec());
    assert_eq!(repl.read_line(), b"two\n".to_vec());
    repl.feed(b"\nfour\n");
    assert_eq!(repl.read_line(), b"three\n".to_vec());
    assert_eq!(repl.read_line(), b"four\n".to_vec());
    assert_eq!(repl.read_line(), Vec::<u8>::new());
}

#[test]
fn repl_text_reports_its_length() -> Result<(), Error> {
    let mut repl = Repl::harness(b"");
    assert_eq!("hello".render(&mut repl)?, Some((5, 1)));
    assert!(repl.write(b"!").is_ok());
    assert_eq!(repl.output, b"hello!".to_vec());
    Ok(())
}

#[test]
fn step_from_exited_does_nothing() -> Result<(), Error> {
    let mut app = String::from("label");
    let mut engine = Repl::harness(b"");
    assert_eq!(app.step(&mut engine, Phase::Exited)?, Phase::Exited);
    assert!(engine.output.is_empty());
    assert_eq!(app.step(&mut engine, Phase::Setup)?, Phase::Render);
    assert_eq!(app.step(&mut engine, Phase::Render)?, Phase::Handle);
    assert_eq!(engine.output, b"label".to_vec());
    assert_eq!(app.step(&mut engine, Phase::Handle)?, Phase::Render);
    engine.exited = true;
    assert_eq!(app.step(&mut engine, Phase::Handle)?, Phase::Exited);
    Ok(())
}

#[test]
fn tui_should_run() -> Result<(), Box<dyn std::error::Error>> {
    let app = String::from("just a label");
    let (mut engine, sender) = TUI::harness();
    engine.exit().map_err(|e| format!("{e:?}"))?;
    for key in "newline\n".chars() {
        let key = KeyEvent::new(KeyCode::Char(key), KeyModifiers::empty());
        sender.send(TUIInputEvent::Key(key))?;
    }
    let output = String::from_utf8(run(app, engine).map_err(|e| format!("{e:?}"))?.output)?;
    let prefix = "\u{1b}[0m\u{1b}[?25h\u{1b}[?1049l\u{1b}[?1049h\u{1b}[?25l\u{1b}[0m\u{1b}[2J\u{1b}[?25l\u{1b}[1;1H";
    assert_eq!(output, format!("{prefix}just a label"));
    Ok(())
}

#[test]
fn tui_handle_fails_once_input_is_closed() {
    let (mut engine, sender) = TUI::harness();
    drop(sender);
    let mut app = String::from("x");
    assert!(app.step(&mut engine, Phase::Handle).is_err());
}

#[test]
fn tui_put_moves_cursor_then_writes() {
    let (mut engine, _sender) = TUI::harness();
    assert!(engine.put(4, 9, "hi").is_ok());
    assert_eq!(engine.output, b"\x1b[10;5Hhi".to_vec());
    assert!(engine.put(u16::MAX, 0, "no").is_err());
    assert_eq!(engine.output, b"\x1b[10;5Hhi".to_vec());
}

#[test]
fn tui_set_colors_writes_reset_foreground_background() {
    let (mut engine, _sender) = TUI::harness();
    assert!(engine.set_colors(&Some(Color::AnsiValue(235)), &Some(Color::Rgb(1, 2, 3))).is_ok());
    assert_eq!(engine.output, b"\x1b[0m\x1b[38;5;235m\x1b[48;2;1;2;3m".to_vec());
    engine.output.clear();
    assert!(engine.set_colors(&Some(Color::Reset), &Some(Color::Red)).is_ok());
    assert_eq!(engine.output, b"\x1b[0m\x1b[39m\x1b[48;5;9m".to_vec());
}

#[test]
fn tui_cleanup_and_clear_sequences() {
    let (mut engine, _sender) = TUI::harness();
    assert!(engine.clear().is_ok());
    assert_eq!(engine.output, b"\x1b[0m\x1b[2J\x1b[?25l".to_vec());
    engine.output.clear();
    assert!(engine.cleanup().is_ok());
    assert_eq!(engine.output, b"\x1b[0m\x1b[?25h\x1b[?1049l".to_vec());
}

#[test]
fn tui_shows_render_errors_in_red() {
    let (mut engine, sender) = TUI::harness();
    let key = KeyEvent::new(KeyCode::Char('q'), KeyModifiers::empty());
    sender.send(TUIInputEvent::Key(key)).unwrap();
    engine.exit().unwrap();
    engine.output.clear();
    engine.set_area(Area(0, 0, 2, 1));
    let mut columns: Columns<TUI, (u16, u16)> = Columns::new();
    columns.add("a").add("b").add("c");
    let mut app = Wrapper(columns);
    assert_eq!(app.step(&mut engine, Phase::Render).unwrap(), Phase::Handle);
    assert_eq!(app.step(&mut engine, Phase::Handle).unwrap(), Phase::Exited);
    let output = String::from_utf8(engine.output).unwrap();
    let expected = "\u{1b}[0m\u{1b}[2J\u{1b}[?25l\u{1b}[0m\u{1b}[2J\u{1b}[?25l\u{1b}[38;5;9m\u{1b}[1;1Hno space (2x1 < 3x1)";
    assert_eq!(output, expected);
}

struct Wrapper<'a>(Columns<'a, TUI, (u16, u16)>);

impl<'a> Output<TUI, (u16, u16)> for Wrapper<'a> {
    fn render(&self, context: &mut TUI) -> Outcome<Option<(u16, u16)>> {
        self.0.render(context)
    }
}

impl<'a> Input<TUI, bool> for Wrapper<'a> {
    fn handle(&mut self, _context: &mut TUI) -> Outcome<Option<bool>> {
        Ok(None)
    }
}

#[test]
fn layers_render_last_declared_first() {
    let (mut engine, _sender) = TUI::harness();
    engine.set_area(Area(0, 0, 10, 3));
    let mut layers: Layers<TUI, (u16, u16)> = Layers::new();
    layers.add("A").add("B").add("C");
    assert_eq!(layers.render(&mut engine), Ok(Some((1, 1))));
    assert_eq!(engine.output, b"\x1b[1;1HC\x1b[1;1HB\x1b[1;1HA".to_vec());
}

#[test]
fn error_descriptions() {
    assert_eq!(Error::NoSpace(Area(1, 2, 30, 4), 50, 6).describe(), b"no space (30x4 < 50x6)".to_vec());
    assert_eq!(Error::Backend(String::from("gone")).describe(), b"gone".to_vec());
}

#[test]
fn tui_area_applies_the_given_change() {
    let (mut engine, _sender) = TUI::harness();
    engine.area(|area| Area(area.0 + 1, area.1, 10, 4));
    assert_eq!(engine.get_area(), Area(1, 0, 10, 4));
    assert!(engine.output.is_empty());
}

#[test]
fn console_and_terminal_hold_nothing_new() {
    let (engine, _sender) = TUI::harness();
    assert!(engine.event.is_none());
    let repl = Repl::harness(b"");
    assert!(repl.line.is_empty() && !repl.exited);
}
