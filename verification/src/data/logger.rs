//! The log of the program itself: which layers write it, and how.

use vstd::prelude::*;

verus! {

/// Where a layer writes.
#[derive(Debug, Clone, Copy, PartialEq, Eq)]
pub enum Output {
    /// The standard output.
    Stdout,
    /// A file that starts anew each day, in a directory below the data
    /// directory.
    Daily { directory: &'static str, file: &'static str },
}

/// Which records a layer lets through.
#[derive(Debug, Clone, Copy, PartialEq, Eq)]
pub enum Threshold {
    /// Records at debug level and above.
    Debug,
    /// What the environment asks for.
    Environment,
}

/// One layer of the log.
#[derive(Debug, Clone, Copy, PartialEq, Eq)]
pub struct Layer {
    pub output: Output,
    pub threshold: Threshold,
    pub with_time: bool,
    pub with_level: bool,
    pub with_file: bool,
    pub with_ansi: bool,
}

/// The layer that keeps the log on disk: plain text with times, one file a
/// day.
pub open spec fn file_layer() -> Layer {
    Layer {
        output: Output::Daily { directory: "logs", file: "logs.jsonl" },
        threshold: Threshold::Debug,
        with_time: true,
        with_level: true,
        with_file: false,
        with_ansi: false,
    }
}

/// The layer that shows the log on the terminal: coloured, with the source
/// file and without times.
pub open spec fn console_layer() -> Layer {
    Layer {
        output: Output::Stdout,
        threshold: Threshold::Environment,
        with_time: false,
        with_level: true,
        with_file: true,
        with_ansi: true,
    }
}

/// The terminal layer.
pub fn console() -> (r: Layer)
    ensures
        r == console_layer(),
{
    Layer {
        output: Output::Stdout,
        threshold: Threshold::Environment,
        with_time: false,
        with_level: true,
        with_file: true,
        with_ansi: true,
    }
}

/// The layers of the program's log, in the order in which they are
/// installed: the file, then the terminal.
pub fn init() -> (r: Vec<Layer>)
    ensures
        r@ == seq![file_layer(), console_layer()],
{
    let mut layers: Vec<Layer> = Vec::new();
    layers.push(
        Layer {
            output: Output::Daily { directory: "logs", file: "logs.jsonl" },
            threshold: Threshold::Debug,
            with_time: true,
            with_level: true,
            with_file: false,
            with_ansi: false,
        },
    );
    layers.push(console());
    assert(layers@ =~= seq![file_layer(), console_layer()]);
    layers
}

} // verus!
