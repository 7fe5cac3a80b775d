//! The output sink abstraction: anything taking sequential, append-only text
//! writes, one line at a time.

use vstd::prelude::*;

verus! {

/// The one error that rendering surfaces: a write to the sink failed.
#[derive(Clone, Copy, PartialEq, Eq, Structural, Debug)]
pub struct WriteFailure;

/// An append-only text sink. A write either appends the whole line followed
/// by a newline, or fails and leaves the content as it was; a sink that
/// declares itself infallible accepts every write.
pub trait Sink {
    /// The text accepted so far.
    spec fn content(&self) -> Seq<char>;

    /// Whether this sink accepts every write.
    spec fn infallible(&self) -> bool;

    /// Append one line and a trailing newline.
    fn write_line(&mut self, line: &str) -> (r: Result<(), WriteFailure>)
        ensures
            r is Ok ==> final(self).content() == old(self).content() + line@ + "\n"@,
            r is Err ==> final(self).content() == old(self).content(),
            old(self).infallible() ==> r is Ok && final(self).infallible(),
    ;
}

/// An in-memory sink: all writes land in one string.
pub struct StringSink {
    /// Everything written so far.
    pub buf: String,
}

impl StringSink {
    /// An empty sink.
    pub fn new() -> (s: Self)
        ensures
            s.buf@ == Seq::<char>::empty(),
    {
        StringSink { buf: String::new() }
    }
}

impl Sink for StringSink {
    open spec fn content(&self) -> Seq<char> {
        self.buf@
    }

    open spec fn infallible(&self) -> bool {
        true
    }

    fn write_line(&mut self, line: &str) -> (r: Result<(), WriteFailure>) {
        self.buf.append(line);
        self.buf.append("\n");
        proof {
            assert(self.buf@ =~= old(self).buf@ + line@ + "\n"@);
        }
        Ok(())
    }
}

} // verus!
