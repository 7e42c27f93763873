//! Annotated and inferred types of variables.

use vstd::prelude::*;

verus! {

/// Shows how a variable gets its type: by annotation, by a literal's
/// suffix, or from the way it is used, and how a name can be bound anew. It
/// writes nothing.
pub fn intro() -> (written: Vec<String>)
    ensures
        written@.len() == 0,
{
    let _logical: bool = true;

    let _an_intenger: i32 = 5i32;

    let mut _inferred_type: i64 = 12;
    _inferred_type = 4294967296i64;

    let mut _mutable: i32 = 12;
    _mutable = 21;

    let _mutable: bool = true;
    Vec::new()
}

} // verus!
