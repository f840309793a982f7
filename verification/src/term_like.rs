//! The terminal capability interface: the small set of operations the draw
//! paths need, the real terminal behind it, and the closed choice of
//! backends a draw target can hold.

use vstd::prelude::*;

use crate::in_memory_term::InMemoryTerm;

verus! {

/// Declares std::io::Error so terminal and stream results can carry it
/// through unchanged; nothing is assumed of its values.
#[verifier::external_type_specification]
#[verifier::external_body]
pub struct ExIoError(std::io::Error);

/// Declares console::Term, the real terminal backend; its operations are
/// reached only through the trusted wrappers below.
#[verifier::external_type_specification]
#[verifier::external_body]
pub struct ExConsoleTerm(console::Term);

/// A trait for minimal terminal-like behavior. The draw paths call only
/// these operations, so anything that implements this trait can back a
/// draw target.
pub trait TermLike: Sized {
    /// The terminal width in columns.
    fn width(&self) -> usize;

    /// Move the cursor up by `n` lines.
    fn move_cursor_up(&self, n: usize) -> Result<(), std::io::Error>;

    /// Move the cursor down by `n` lines.
    fn move_cursor_down(&self, n: usize) -> Result<(), std::io::Error>;

    /// Move the cursor right by `n` columns.
    fn move_cursor_right(&self, n: usize) -> Result<(), std::io::Error>;

    /// Move the cursor left by `n` columns.
    fn move_cursor_left(&self, n: usize) -> Result<(), std::io::Error>;

    /// Write a string and add a newline.
    fn write_line(&self, s: &str) -> Result<(), std::io::Error>;

    /// Write a string without a newline.
    fn write_str(&self, s: &str) -> Result<(), std::io::Error>;

    /// Clear the current line and put the cursor at its start.
    fn clear_line(&self) -> Result<(), std::io::Error>;

    /// Flush buffered output.
    fn flush(&self) -> Result<(), std::io::Error>;
}

/// Relies on console::Term::size: the pair is (rows, columns).
#[verifier::external_body]
fn console_width(t: &console::Term) -> usize {
    console::Term::size(t).1 as usize
}

/// Relies on console::Term::move_cursor_up.
#[verifier::external_body]
fn console_move_cursor_up(t: &console::Term, n: usize) -> Result<(), std::io::Error> {
    console::Term::move_cursor_up(t, n)
}

/// Relies on console::Term::move_cursor_down.
#[verifier::external_body]
fn console_move_cursor_down(t: &console::Term, n: usize) -> Result<(), std::io::Error> {
    console::Term::move_cursor_down(t, n)
}

/// Relies on console::Term::move_cursor_right.
#[verifier::external_body]
fn console_move_cursor_right(t: &console::Term, n: usize) -> Result<(), std::io::Error> {
    console::Term::move_cursor_right(t, n)
}

/// Relies on console::Term::move_cursor_left.
#[verifier::external_body]
fn console_move_cursor_left(t: &console::Term, n: usize) -> Result<(), std::io::Error> {
    console::Term::move_cursor_left(t, n)
}

/// Relies on console::Term::write_line.
#[verifier::external_body]
fn console_write_line(t: &console::Term, s: &str) -> Result<(), std::io::Error> {
    console::Term::write_line(t, s)
}

/// Relies on console::Term::write_str.
#[verifier::external_body]
fn console_write_str(t: &console::Term, s: &str) -> Result<(), std::io::Error> {
    console::Term::write_str(t, s)
}

/// Relies on console::Term::clear_line.
#[verifier::external_body]
fn console_clear_line(t: &console::Term) -> Result<(), std::io::Error> {
    console::Term::clear_line(t)
}

/// Relies on console::Term::flush.
#[verifier::external_body]
fn console_flush(t: &console::Term) -> Result<(), std::io::Error> {
    console::Term::flush(t)
}

impl TermLike for console::Term {
    fn width(&self) -> usize {
        console_width(self)
    }

    fn move_cursor_up(&self, n: usize) -> Result<(), std::io::Error> {
        console_move_cursor_up(self, n)
    }

    fn move_cursor_down(&self, n: usize) -> Result<(), std::io::Error> {
        console_move_cursor_down(self, n)
    }

    fn move_cursor_right(&self, n: usize) -> Result<(), std::io::Error> {
        console_move_cursor_right(self, n)
    }

    fn move_cursor_left(&self, n: usize) -> Result<(), std::io::Error> {
        console_move_cursor_left(self, n)
    }

    fn write_line(&self, s: &str) -> Result<(), std::io::Error> {
        console_write_line(self, s)
    }

    fn write_str(&self, s: &str) -> Result<(), std::io::Error> {
        console_write_str(self, s)
    }

    fn clear_line(&self) -> Result<(), std::io::Error> {
        console_clear_line(self)
    }

    fn flush(&self) -> Result<(), std::io::Error> {
        console_flush(self)
    }
}

/// Relies on console::Term::stderr: a terminal handle for standard error.
#[verifier::external_body]
pub(crate) fn console_stderr() -> console::Term {
    console::Term::stderr()
}

/// The closed choice of terminal backends a draw target can hold: the real
/// terminal, or the in-memory terminal that records what would be shown.
pub enum Terminal {
    Console(console::Term),
    InMemory(InMemoryTerm),
}

impl TermLike for Terminal {
    fn width(&self) -> usize {
        match self {
            Terminal::Console(t) => console_width(t),
            Terminal::InMemory(t) => t.width(),
        }
    }

    fn move_cursor_up(&self, n: usize) -> Result<(), std::io::Error> {
        match self {
            Terminal::Console(t) => console_move_cursor_up(t, n),
            Terminal::InMemory(t) => t.move_cursor_up(n),
        }
    }

    fn move_cursor_down(&self, n: usize) -> Result<(), std::io::Error> {
        match self {
            Terminal::Console(t) => console_move_cursor_down(t, n),
            Terminal::InMemory(t) => t.move_cursor_down(n),
        }
    }

    fn move_cursor_right(&self, n: usize) -> Result<(), std::io::Error> {
        match self {
            Terminal::Console(t) => console_move_cursor_right(t, n),
            Terminal::InMemory(t) => t.move_cursor_right(n),
        }
    }

    fn move_cursor_left(&self, n: usize) -> Result<(), std::io::Error> {
        match self {
            Terminal::Console(t) => console_move_cursor_left(t, n),
            Terminal::InMemory(t) => t.move_cursor_left(n),
        }
    }

    fn write_line(&self, s: &str) -> Result<(), std::io::Error> {
        match self {
            Terminal::Console(t) => console_write_line(t, s),
            Terminal::InMemory(t) => t.write_line(s),
        }
    }

    fn write_str(&self, s: &str) -> Result<(), std::io::Error> {
        match self {
            Terminal::Console(t) => console_write_str(t, s),
            Terminal::InMemory(t) => t.write_str(s),
        }
    }

    fn clear_line(&self) -> Result<(), std::io::Error> {
        match self {
            Terminal::Console(t) => console_clear_line(t),
            Terminal::InMemory(t) => t.clear_line(),
        }
    }

    fn flush(&self) -> Result<(), std::io::Error> {
        match self {
            Terminal::Console(t) => console_flush(t),
            Terminal::InMemory(t) => t.flush(),
        }
    }
}

} // verus!
