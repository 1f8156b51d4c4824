use crate::conf::Config;
use vstd::prelude::*;
use vstd::slice::slice_to_vec;

verus! {

/// How an output file is opened for writing.
#[derive(Clone, Copy, Debug, PartialEq, Eq, Structural)]
pub enum OpenMode {
    /// Create the file, or truncate it if it exists, and write.
    CreateOrTruncate,
    /// Create the file and write; fail, leaving it as it is, if it exists.
    CreateNew,
}

/// The open mode the force flag asks for: overwrite when forced, never
/// clobber otherwise.
pub open spec fn opener_for(force: bool) -> OpenMode {
    if force {
        OpenMode::CreateOrTruncate
    } else {
        OpenMode::CreateNew
    }
}

pub fn get_opener(force: bool) -> (m: OpenMode)
    ensures
        m == opener_for(force),
{
    if force {
        OpenMode::CreateOrTruncate
    } else {
        OpenMode::CreateNew
    }
}

/// A write to perform: put `data` at `path`, opened in `mode`.
#[derive(Debug)]
pub struct WriteOp {
    pub path: String,
    pub mode: OpenMode,
    pub data: Vec<u8>,
}

/// The write that stores `content` at `filename` under the settings' force
/// flag (absent means not forced).
pub fn write_file(filename: String, config: &Config, content: &[u8]) -> (w: WriteOp)
    ensures
        w.path == filename,
        w.mode == opener_for(config.force == Some(true)),
        w.data@ == content@,
{
    let force = match config.force {
        Some(f) => f,
        None => false,
    };
    WriteOp { path: filename, mode: get_opener(force), data: slice_to_vec(content) }
}

} // verus!
