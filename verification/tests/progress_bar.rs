use indicatif::{
    InMemoryTerm, MultiProgress, ProgressBar, ProgressDrawTarget, ProgressFinish, ProgressStyle,
    Terminal, TickDriverStep, WeakProgressBar,
};

const SCALE: u32 = 1_000_000;

#[test]
fn test_pbar_zero() {
    let pb = ProgressBar::new(0);
    assert_eq!(pb.fraction() as f64 / SCALE as f64, 1.0);
}

#[test]
fn test_pbar_maxu64() {
    let pb = ProgressBar::new(!0);
    assert_eq!(pb.fraction() as f64 / SCALE as f64, 0.0);
}

#[test]
fn test_pbar_overflow() {
    let pb = ProgressBar::new(1);
    pb.set_draw_target(ProgressDrawTarget::hidden());
    pb.inc(2);
    pb.finish();
}

#[test]
fn test_get_position() {
    let pb = ProgressBar::new(1);
    pb.set_draw_target(ProgressDrawTarget::hidden());
    pb.inc(2);
    let pos = pb.position();
    assert_eq!(pos, 2);
}

#[test]
fn test_weak_pb() {
    let pb = ProgressBar::new(0);
    let weak = pb.downgrade();
    assert!(weak.upgrade().is_some());
    drop(pb);
    assert!(weak.upgrade().is_none());
}

#[test]
fn it_can_wrap_a_reader() {
    let bytes = &b"I am an implementation of io::Read"[..];
    let pb = ProgressBar::new(bytes.len() as u64);
    let mut reader = pb.wrap_read(bytes);
    let mut writer: Vec<u8> = Vec::new();
    loop {
        let chunk = reader.read_chunk(8).unwrap();
        if chunk.is_empty() {
            break;
        }
        writer.extend_from_slice(&chunk);
    }
    assert_eq!(writer, bytes);
}

#[test]
fn it_can_wrap_a_writer() {
    let bytes = b"implementation of io::Read";
    let reader = &bytes[..];
    let pb = ProgressBar::new(bytes.len() as u64);
    let writer: Vec<u8> = Vec::new();
    let mut writer = pb.wrap_write(writer);
    let mut sent = 0;
    while sent < reader.len() {
        let n = writer.write(&reader[sent..]).unwrap();
        assert!(n > 0);
        sent += n;
    }
    writer.flush().unwrap();
    assert_eq!(writer.it, bytes);
}

#[test]
fn fraction_clamps_and_interpolates() {
    let pb = ProgressBar::new(4);
    pb.set_draw_target(ProgressDrawTarget::hidden());
    pb.set_position(2);
    assert_eq!(pb.fraction(), SCALE / 2);
    let pb3 = ProgressBar::new(3);
    pb3.set_draw_target(ProgressDrawTarget::hidden());
    pb3.set_position(1);
    assert_eq!(pb3.fraction(), 333_333);
    pb3.set_position(7);
    assert_eq!(pb3.fraction(), SCALE);
    pb3.set_position(3);
    assert_eq!(pb3.fraction(), SCALE);
}

#[test]
fn wrapped_reader_advances_position() {
    let bytes = &b"0123456789"[..];
    let pb = ProgressBar::new(bytes.len() as u64);
    pb.set_draw_target(ProgressDrawTarget::hidden());
    let mut reader = pb.wrap_read(bytes);
    let mut total = 0u64;
    loop {
        let chunk = reader.read_chunk(3).unwrap();
        if chunk.is_empty() {
            break;
        }
        total += chunk.len() as u64;
    }
    assert_eq!(total, 10);
    assert_eq!(reader.progress.position(), 10);
}

struct FailingReader;

impl std::io::Read for FailingReader {
    fn read(&mut self, _buf: &mut [u8]) -> std::io::Result<usize> {
        Err(std::io::Error::new(std::io::ErrorKind::Other, "broken pipe"))
    }
}

#[test]
fn wrapped_reader_propagates_errors() {
    let pb = ProgressBar::new(4);
    pb.set_draw_target(ProgressDrawTarget::hidden());
    let mut reader = pb.wrap_read(FailingReader);
    assert!(reader.read_chunk(4).is_err());
    assert_eq!(pb.position(), 0);
}

#[test]
fn wrap_iter_counts_items() {
    let v = vec![1, 2, 3];
    let pb = ProgressBar::new(3);
    pb.set_draw_target(ProgressDrawTarget::hidden());
    let mut it = pb.wrap_iter(v.iter());
    let mut sum = 0;
    while let Some(x) = it.next() {
        sum += *x;
    }
    assert_eq!(sum, 6);
    assert_eq!(pb.position(), 3);
}

#[test]
fn forced_draws_always_paint_and_throttled_ones_coalesce() {
    let term = InMemoryTerm::new(80);
    let target = ProgressDrawTarget::term_like(Terminal::InMemory(term.clone()), 3_600_000);
    let pb = ProgressBar::with_draw_target(10, target);
    pb.inc(1);
    pb.inc(1);
    // The first update paints (nothing was ever painted); the second falls
    // inside the hour-long refresh interval and is skipped.
    assert_eq!(term.write_line_count(), 1);
    let before = term.write_line_count();
    pb.finish_at_current_pos();
    pb.abandon();
    // Two back-to-back finish-family calls both force terminal output.
    assert_eq!(term.write_line_count(), before + 2);
}

#[test]
fn rendered_frame_shows_state() {
    let term = InMemoryTerm::new(80);
    let target = ProgressDrawTarget::term_like(Terminal::InMemory(term.clone()), 3_600_000);
    let pb = ProgressBar::with_draw_target(10, target)
        .with_prefix("copy".to_string())
        .with_message("files".to_string());
    pb.set_position(5);
    pb.finish_at_current_pos();
    let contents = term.contents();
    assert_eq!(contents.last().unwrap(), "copy 5/10 files");
}

#[test]
fn finish_snaps_position_to_length() {
    let pb = ProgressBar::new(10);
    pb.set_draw_target(ProgressDrawTarget::hidden());
    pb.inc(3);
    pb.finish();
    assert!(pb.is_finished());
    assert_eq!(pb.position(), 10);
}

#[test]
fn abandon_keeps_position() {
    let pb = ProgressBar::new(10);
    pb.set_draw_target(ProgressDrawTarget::hidden());
    pb.inc(3);
    pb.abandon();
    assert!(pb.is_finished());
    assert_eq!(pb.position(), 3);
}

#[test]
fn finish_with_message_replaces_message() {
    let pb = ProgressBar::new(2);
    pb.set_draw_target(ProgressDrawTarget::hidden());
    pb.finish_with_message("done".to_string());
    assert!(pb.is_finished());
    assert_eq!(pb.state().message, "done");
    assert_eq!(pb.position(), 2);
}

#[test]
fn finish_using_style_follows_policy() {
    let pb = ProgressBar::new(5);
    pb.set_draw_target(ProgressDrawTarget::hidden());
    pb.set_style(ProgressStyle::default_bar().on_finish(ProgressFinish::AbandonWithMessage(
        "gave up".to_string(),
    )));
    pb.inc(1);
    pb.finish_using_style();
    assert!(pb.is_finished());
    assert_eq!(pb.position(), 1);
    assert_eq!(pb.state().message, "gave up");
}

#[test]
fn reset_returns_to_fresh_state() {
    let pb = ProgressBar::new(5);
    pb.set_draw_target(ProgressDrawTarget::hidden());
    pb.inc(4);
    pb.finish();
    pb.reset();
    assert!(!pb.is_finished());
    assert_eq!(pb.position(), 0);
}

#[test]
fn eta_is_zero_without_progress() {
    let pb = ProgressBar::new(0);
    pb.set_draw_target(ProgressDrawTarget::hidden());
    assert_eq!(pb.eta(), 0);
    let spinner = ProgressBar::hidden();
    assert_eq!(spinner.eta(), 0);
}

#[test]
fn saturating_length_arithmetic() {
    let pb = ProgressBar::new(!0);
    pb.set_draw_target(ProgressDrawTarget::hidden());
    pb.inc_length(5);
    assert_eq!(pb.length(), !0);
    pb.set_length(7);
    assert_eq!(pb.length(), 7);
    pb.inc_length(2);
    assert_eq!(pb.length(), 9);
}

#[test]
fn tick_driver_steps_until_disabled() {
    let pb = ProgressBar::hidden();
    assert!(pb.enable_steady_tick(10));
    // A second enable call must not ask for another driver thread.
    assert!(!pb.enable_steady_tick(20));
    assert!(matches!(pb.steady_tick_step(), TickDriverStep::Continue(20)));
    pb.disable_steady_tick();
    assert!(matches!(pb.steady_tick_step(), TickDriverStep::Stop));
}

#[test]
fn tick_driver_stops_when_finished_or_dead() {
    let pb = ProgressBar::hidden();
    pb.enable_steady_tick(10);
    pb.finish();
    assert!(matches!(pb.steady_tick_step(), TickDriverStep::Stop));
    // The driver holds only a weak handle, so the bar dies with its owner.
    let weak: WeakProgressBar = pb.downgrade();
    drop(pb);
    assert!(weak.upgrade().is_none());
}

#[test]
fn suspend_runs_thunk_and_returns_value() {
    let pb = ProgressBar::new(3);
    pb.set_draw_target(ProgressDrawTarget::hidden());
    let out = pb.suspend(|| 41 + 1);
    assert_eq!(out, 42);
}

#[test]
fn println_scrolls_message_above_frame() {
    let term = InMemoryTerm::new(80);
    let target = ProgressDrawTarget::term_like(Terminal::InMemory(term.clone()), 3_600_000);
    let pb = ProgressBar::with_draw_target(3, target).with_prefix("p".to_string());
    pb.inc(1);
    pb.println("hello");
    let contents = term.contents();
    assert_eq!(contents[0], "hello");
    assert_eq!(contents[1], "p 1/3 ");
}
