use vstd::prelude::*;
use vstd::string::*;

verus! {

/// The text a styled error is wrapped in: red, then reset.
pub open spec fn red(msg: Seq<char>) -> Seq<char> {
    "\x1b[31m"@ + msg + "\x1b[0m"@
}

/// The text a styled warning is wrapped in: yellow, then reset.
pub open spec fn yellow(msg: Seq<char>) -> Seq<char> {
    "\x1b[33m"@ + msg + "\x1b[0m"@
}

/// The line feed that ends a line of output.
pub open spec fn newline() -> Seq<char> {
    "\n"@
}

/// How the shared output sink renders what it is given. Whether the
/// destination takes ANSI colours is settled once, when the style is made.
#[derive(Clone, Copy, Debug, PartialEq, Eq, Structural)]
pub struct OutputStyle {
    pub colored: bool,
}

impl OutputStyle {
    /// A style that colours errors and warnings exactly when `colored`.
    pub fn new(colored: bool) -> (r: OutputStyle)
        ensures
            r.colored == colored,
    {
        OutputStyle { colored }
    }

    /// `msg` and a line feed.
    pub fn println(&self, msg: &str) -> (r: String)
        ensures
            r@ == msg@ + newline(),
    {
        let mut r = String::from_str(msg);
        r.append("\n");
        r
    }

    /// `msg` as it is.
    pub fn print(&self, msg: &str) -> (r: String)
        ensures
            r@ == msg@,
    {
        String::from_str(msg)
    }

    /// `msg`, in red when colours are on, and a line feed.
    pub fn errln(&self, msg: &str) -> (r: String)
        ensures
            r@ == (if self.colored { red(msg@) } else { msg@ }) + newline(),
    {
        let mut r = self.err(msg);
        r.append("\n");
        r
    }

    /// `msg`, in red when colours are on.
    pub fn err(&self, msg: &str) -> (r: String)
        ensures
            r@ == if self.colored { red(msg@) } else { msg@ },
    {
        if self.colored {
            let mut r = String::from_str("\x1b[31m");
            r.append(msg);
            r.append("\x1b[0m");
            r
        } else {
            String::from_str(msg)
        }
    }

    /// `msg`, in yellow when colours are on, and a line feed.
    pub fn warnln(&self, msg: &str) -> (r: String)
        ensures
            r@ == (if self.colored { yellow(msg@) } else { msg@ }) + newline(),
    {
        let mut r = self.warn(msg);
        r.append("\n");
        r
    }

    /// `msg`, in yellow when colours are on.
    pub fn warn(&self, msg: &str) -> (r: String)
        ensures
            r@ == if self.colored { yellow(msg@) } else { msg@ },
    {
        if self.colored {
            let mut r = String::from_str("\x1b[33m");
            r.append(msg);
            r.append("\x1b[0m");
            r
        } else {
            String::from_str(msg)
        }
    }
}

} // verus!
