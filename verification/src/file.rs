//! A simulated file with an explicit open/closed state gating reads.
//!
//! A [`File`] is a name, a buffer of bytes, and a [`FileState`]. Reading
//! succeeds only while the file is open; [`open`] and [`close`] consume
//! the file and hand back one in the new state rather than mutating in
//! place.

use vstd::prelude::*;

verus! {

/// Whether a file is open for reading or closed.
#[derive(Clone, Copy, Debug, PartialEq, Eq, Structural)]
pub enum FileState {
    /// Reads succeed.
    Open,
    /// Reads are refused.
    Close,
}

/// A simulated file, which probably lives on a file system: a name,
/// in-memory bytes, and an open/closed state that gates reading.
#[derive(Debug)]
pub struct File {
    name: String,
    data: Vec<u8>,
    state: FileState,
}

/// The abstract value of a [`File`]: its name as characters, its bytes,
/// and its state.
pub struct FileView {
    /// The file's name.
    pub name: Seq<char>,
    /// The bytes the file holds.
    pub data: Seq<u8>,
    /// The open/closed state.
    pub state: FileState,
}

impl View for File {
    type V = FileView;

    closed spec fn view(&self) -> FileView {
        FileView { name: self.name@, data: self.data@, state: self.state }
    }
}

impl File {
    /// Create a closed, empty file. New files are assumed to be empty,
    /// but a name is required.
    pub fn new(name: &str) -> (f: File)
        ensures
            f@.name == name@,
            f@.data == Seq::<u8>::empty(),
            f@.state is Close,
    {
        File { name: name.to_owned(), data: Vec::new(), state: FileState::Close }
    }

    /// Create a closed file holding a copy of the given bytes.
    pub fn new_with_data(name: &str, data: &Vec<u8>) -> (f: File)
        ensures
            f@.name == name@,
            f@.data == data@,
            f@.state is Close,
    {
        let mut f = File::new(name);
        f.data = copy_bytes(data);
        f
    }

    /// Append the file's bytes to `save_to` and return how many bytes
    /// were read. Fails, leaving `save_to` untouched, unless the file
    /// is open.
    pub fn read(&self, save_to: &mut Vec<u8>) -> (r: Result<usize, String>)
        ensures
            self@.state is Open ==> (r matches Ok(n) && n == self@.data.len() && final(save_to)@
                == old(save_to)@ + self@.data),
            !(self@.state is Open) ==> (r matches Err(e) && e@
                == "File must be open for reading"@ && final(save_to)@ == old(save_to)@),
    {
        if self.state != FileState::Open {
            return Err("File must be open for reading".to_owned());
        }
        let mut i: usize = 0;
        while i < self.data.len()
            invariant
                i <= self.data.len(),
                save_to@ == old(save_to)@ + self.data@.subrange(0, i as int),
            decreases self.data.len() - i,
        {
            save_to.push(self.data[i]);
            proof {
                assert(save_to@ =~= old(save_to)@ + self.data@.subrange(0, i + 1));
            }
            i += 1;
        }
        proof {
            assert(self.data@.subrange(0, self.data@.len() as int) =~= self.data@);
        }
        Ok(self.data.len())
    }

    /// The file's length in bytes.
    pub fn len(&self) -> (n: usize)
        ensures
            n == self@.data.len(),
    {
        self.data.len()
    }

    /// The file's name.
    pub fn name(&self) -> (s: String)
        ensures
            s@ == self@.name,
    {
        self.name.clone()
    }
}

/// Consume a file and hand it back open; its name and bytes are kept.
/// Always succeeds.
pub fn open(f: File) -> (r: Result<File, String>)
    ensures
        (r matches Ok(g) && g@.name == f@.name && g@.data == f@.data && g@.state is Open),
{
    let mut g = f;
    g.state = FileState::Open;
    Ok(g)
}

/// Consume a file and hand it back closed; its name and bytes are kept.
/// Always succeeds.
pub fn close(f: File) -> (r: Result<File, String>)
    ensures
        (r matches Ok(g) && g@.name == f@.name && g@.data == f@.data && g@.state is Close),
{
    let mut g = f;
    g.state = FileState::Close;
    Ok(g)
}

/// Copy a byte vector element by element.
fn copy_bytes(data: &Vec<u8>) -> (out: Vec<u8>)
    ensures
        out@ == data@,
{
    let mut out: Vec<u8> = Vec::new();
    let mut i: usize = 0;
    while i < data.len()
        invariant
            i <= data.len(),
            out@ == data@.subrange(0, i as int),
        decreases data.len() - i,
    {
        out.push(data[i]);
        proof {
            assert(out@ =~= data@.subrange(0, i + 1));
        }
        i += 1;
    }
    proof {
        assert(data@.subrange(0, data@.len() as int) =~= data@);
    }
    out
}

} // verus!
