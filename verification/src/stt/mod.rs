//! Speech-to-text configurations: model choices and the files they need.
pub mod distil_whisper;
pub mod sherpa;
pub mod sherpa_streaming;

use vstd::prelude::*;
use std::path::PathBuf;
use crate::error::VoxError;

verus! {

/// A copy of a path (`PathBuf::clone`): the same path.
#[verifier::external_body]
fn copy_path(p: &PathBuf) -> (r: PathBuf)
    ensures
        r == *p,
{
    p.clone()
}

/// Checks, in order, that each file exists according to `file_exists`; the first
/// one that does not is reported as `ModelNotFound`.
pub fn first_missing<F: Fn(&PathBuf) -> bool>(files: &Vec<&PathBuf>, file_exists: &F) -> (r: Result<(), VoxError>)
    requires
        forall|i: int| 0 <= i < files@.len() ==> file_exists.requires((files@[i],)),
    ensures
        r is Ok ==> forall|i: int| 0 <= i < files@.len() ==> file_exists.ensures((files@[i],), true),
        r is Err ==> exists|i: int| {
            &&& 0 <= i < files@.len()
            &&& r == Err::<(), VoxError>(VoxError::ModelNotFound(*files@[i]))
            &&& file_exists.ensures((files@[i],), false)
            &&& forall|j: int| 0 <= j < i ==> file_exists.ensures((files@[j],), true)
        },
{
    let mut i: usize = 0;
    while i < files.len()
        invariant
            i <= files@.len(),
            forall|k: int| 0 <= k < files@.len() ==> file_exists.requires((files@[k],)),
            forall|j: int| 0 <= j < i ==> file_exists.ensures((files@[j],), true),
        decreases files@.len() - i,
    {
        let p: &PathBuf = files[i];
        let found = file_exists(p);
        if !found {
            let missing = copy_path(p);
            return Err(VoxError::ModelNotFound(missing));
        }
        i = i + 1;
    }
    Ok(())
}

} // verus!
