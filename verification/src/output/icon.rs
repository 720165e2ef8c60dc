//! The symbols that the client decorates its output with. Each is one
//! character of the private use areas, as the Nerd Fonts assign them. The
//! constants are the characters; `Icon` wraps one for printing.

use vstd::prelude::*;

verus! {

/// A symbol.
#[derive(Clone, Copy, Debug, PartialEq, Eq, Structural)]
pub struct Icon(pub char);

impl Icon {
    /// The character of the symbol.
    pub fn symbol(self) -> (c: char)
        ensures
            c == self.0,
    {
        self.0
    }
}

/// nf-md-account
pub const ACCOUNT: char = '\u{f0004}';

/// nf-oct-file_binary
pub const BINARY: char = '\u{f471}';

/// nf-md-calendar
pub const CALENDAR: char = '\u{f00ed}';

/// nf-md-clock
pub const CLOCK: char = '\u{f0954}';

/// nf-md-comment
pub const COMMENT: char = '\u{f017a}';

/// nf-md-file_document
pub const DOCUMENT: char = '\u{f0219}';

/// nf-md-email
pub const EMAIL: char = '\u{f01ee}';

/// nf-md-eye
pub const EYE: char = '\u{f0208}';

/// nf-md-harddisk
pub const HARDDISK: char = '\u{f02ca}';

/// nf-md-file_image
pub const IMAGE: char = '\u{f021f}';

/// nf-md-pencil
pub const PENCIL: char = '\u{f03eb}';

/// nf-md-pound
pub const POUND: char = '\u{f0423}';

/// nf-md-seal
pub const SEAL: char = '\u{f047a}';

/// nf-md-tag
pub const TAG: char = '\u{f04f9}';

/// nf-oct-trash
pub const TRASH: char = '\u{f48e}';

} // verus!
