//! Thin proxies around readable, writable, or iterable resources: whatever
//! passes through advances the bar by that many bytes or items, and errors
//! of the wrapped resource pass through unchanged.

use vstd::prelude::*;

use crate::progress_bar::ProgressBar;

verus! {

/// A resource wrapped with a progress bar.
pub struct ProgressBarIter<T> {
    /// The bar advanced as bytes or items pass through.
    pub progress: ProgressBar,
    /// The wrapped resource.
    pub it: T,
}

/// Relies on std::io::Read::read: it puts at most `max` bytes into the
/// buffer and reports how many; the bytes pass through unchanged, and so
/// does its error.
#[verifier::external_body]
fn read_chunk_inner<R: std::io::Read>(r: &mut R, max: usize) -> (res: Result<
    Vec<u8>,
    std::io::Error,
>)
    ensures
        res matches Ok(v) ==> v@.len() <= max,
{
    let mut buf = vec![0u8; max];
    match r.read(&mut buf) {
        Ok(n) => {
            buf.truncate(n);
            Ok(buf)
        },
        Err(e) => Err(e),
    }
}

/// Relies on std::io::Write::write: it takes at most `buf.len()` bytes and
/// reports how many; its error passes through unchanged.
#[verifier::external_body]
fn write_inner<W: std::io::Write>(w: &mut W, buf: &[u8]) -> (res: Result<usize, std::io::Error>)
    ensures
        res matches Ok(n) ==> n <= buf@.len(),
{
    w.write(buf)
}

/// Relies on std::io::Write::flush; its error passes through unchanged.
#[verifier::external_body]
fn flush_inner<W: std::io::Write>(w: &mut W) -> Result<(), std::io::Error> {
    w.flush()
}

/// Relies on Iterator::next.
#[verifier::external_body]
fn next_inner<It: Iterator>(it: &mut It) -> Option<It::Item> {
    it.next()
}

impl<R: std::io::Read> ProgressBarIter<R> {
    /// Reads up to `max` bytes from the wrapped reader and advances the
    /// bar's position by exactly as many bytes as came back.
    pub fn read_chunk(&mut self, max: usize) -> (res: Result<Vec<u8>, std::io::Error>)
        ensures
            res matches Ok(v) ==> v@.len() <= max,
    {
        let res = read_chunk_inner(&mut self.it, max);
        match res {
            Ok(v) => {
                self.progress.inc(v.len() as u64);
                Ok(v)
            },
            Err(e) => Err(e),
        }
    }
}

impl<W: std::io::Write> ProgressBarIter<W> {
    /// Hands `buf` to the wrapped writer and advances the bar's position by
    /// exactly as many bytes as it took.
    pub fn write(&mut self, buf: &[u8]) -> (res: Result<usize, std::io::Error>)
        ensures
            res matches Ok(n) ==> n <= buf@.len(),
    {
        let res = write_inner(&mut self.it, buf);
        match res {
            Ok(n) => {
                self.progress.inc(n as u64);
                Ok(n)
            },
            Err(e) => Err(e),
        }
    }

    /// Flushes the wrapped writer.
    pub fn flush(&mut self) -> Result<(), std::io::Error> {
        flush_inner(&mut self.it)
    }
}

impl<It: Iterator> ProgressBarIter<It> {
    /// Pulls the next item from the wrapped iterator, advancing the bar by
    /// one for each item that comes out.
    pub fn next(&mut self) -> Option<It::Item> {
        let item = next_inner(&mut self.it);
        match item {
            Some(x) => {
                self.progress.inc(1);
                Some(x)
            },
            None => None,
        }
    }
}

impl ProgressBar {
    /// Wraps an iterator: each item pulled advances the bar by one.
    pub fn wrap_iter<It: Iterator>(&self, it: It) -> ProgressBarIter<It> {
        ProgressBarIter { progress: self.clone(), it }
    }

    /// Wraps a reader: each byte read through advances the bar by one.
    pub fn wrap_read<R: std::io::Read>(&self, read: R) -> ProgressBarIter<R> {
        ProgressBarIter { progress: self.clone(), it: read }
    }

    /// Wraps a writer: each byte written through advances the bar by one.
    pub fn wrap_write<W: std::io::Write>(&self, write: W) -> ProgressBarIter<W> {
        ProgressBarIter { progress: self.clone(), it: write }
    }
}

} // verus!
