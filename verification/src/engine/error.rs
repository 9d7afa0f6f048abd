use vstd::prelude::*;

verus! {

/// `std::io::Error`, carried through unread.
#[verifier::external_type_specification]
#[verifier::external_body]
pub struct ExIoError(std::io::Error);

/// What can go wrong while editing: the file system refused a read or a write.
#[derive(Debug)]
pub enum EditorError {
    Io(std::io::Error),
}

} // verus!
