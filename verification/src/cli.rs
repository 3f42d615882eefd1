//! The command surface: which operation to run, on which path, with which
//! duration and removal flags. Argument parsing and execution live with the
//! binary; the library holds the plain shape of a parsed command line.

use vstd::prelude::*;

verus! {

/// A parsed command line: the one command it selects.
pub struct Cli {
    /// The selected command.
    pub commands: Commands,
}

/// The commands the tool offers.
pub enum Commands {
    /// Decode a time-capsule file.
    Decode {
        /// Input file path.
        input: String,
        /// Keep the source file after decoding.
        no_rm: bool,
    },
    /// Decode all time-capsule files in the directory.
    DecodeAll {
        /// Input directory.
        input: String,
        /// Keep the source files after decoding.
        no_rm: bool,
    },
    /// Encode a file to time-capsule format.
    Encode {
        /// Input file path.
        input: String,
        /// Duration of file locking.
        duration: String,
        /// Remove the source file after encoding.
        rm: bool,
    },
    /// Encode all files in the directory.
    EncodeAll {
        /// Input directory.
        input: String,
        /// Duration of file locking.
        duration: String,
        /// Remove the source files after encoding.
        rm: bool,
    },
    /// Test a duration string input.
    TestDuration {
        /// The duration expression to resolve and print.
        duration: String,
    },
}

} // verus!
